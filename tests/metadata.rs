use teaclave_sgx_builder::error::{BuildError, ConfigField};
use teaclave_sgx_builder::intel::edl::EDLMetadata;
use teaclave_sgx_builder::intel::IntelSGXSDKMetadata;
use teaclave_sgx_builder::metadata::{Metadata, Mode, ModeMetadata, PrepareBuildMetadata};
use teaclave_sgx_builder::teaclave::TeaclaveSGXSDKMetadata;

fn layer(intel: Option<&str>, teaclave: Option<&str>, edl: Option<(&str, Vec<&str>)>, modes: Option<Vec<(&str, Mode)>>) -> PrepareBuildMetadata {
    PrepareBuildMetadata {
        intel_sgx_sdk: intel.map(|p| IntelSGXSDKMetadata::new(p.to_string())),
        teaclave_sgx_sdk: teaclave.map(|p| TeaclaveSGXSDKMetadata::new(p.to_string())),
        edl: edl.map(|(p, s)| EDLMetadata {
            path: p.to_string(),
            search_paths: s.into_iter().map(|x| x.to_string()).collect(),
        }),
        mode: modes.map(|m| ModeMetadata {
            modes: m.into_iter().map(|(k, v)| (k.to_string(), v)).collect(),
        }),
    }
}

const DEV: Mode = Mode { hardware: false, debug: true };
const RELEASE: Mode = Mode { hardware: true, debug: false };

#[test]
fn local_layer_wins_where_set() {
    let local = layer(Some("/l/intel"), None, Some(("/l/a.edl", vec![])), None);
    let workspace = layer(Some("/w/intel"), Some("/w/teaclave"), Some(("/w/b.edl", vec!["/a"])), Some(vec![("dev", RELEASE)]));
    let m = PrepareBuildMetadata::extract(local, workspace);
    assert_eq!(m.intel_sgx_sdk.unwrap().path, "/l/intel");
    assert_eq!(m.teaclave_sgx_sdk.unwrap().path, "/w/teaclave");
    let edl = m.edl.unwrap();
    assert_eq!(edl.path, "/l/a.edl");
    assert!(edl.search_paths.is_empty());
    assert_eq!(m.mode.unwrap().modes.len(), 1);
}

#[test]
fn field_unset_in_both_layers_stays_unset() {
    let m = PrepareBuildMetadata::extract(PrepareBuildMetadata::default(), PrepareBuildMetadata::default());
    assert!(m.intel_sgx_sdk.is_none());
    assert!(m.teaclave_sgx_sdk.is_none());
    assert!(m.edl.is_none());
    assert!(m.mode.is_none());
}

#[test]
fn missing_framework_sdk_is_fatal() {
    let m = layer(None, None, Some(("/a.edl", vec![])), None);
    assert!(matches!(m.build("dev"), Err(BuildError::MissingConfiguration(ConfigField::TeaclaveSgxSdk))));
}

#[test]
fn missing_interface_definition_is_fatal() {
    let m = layer(None, Some("/t"), None, None);
    assert!(matches!(m.build("dev"), Err(BuildError::MissingConfiguration(ConfigField::Edl))));
}

#[test]
fn unknown_profile_is_fatal() {
    let m = layer(None, Some("/t"), Some(("/a.edl", vec![])), None);
    assert!(matches!(m.build("custom"), Err(BuildError::UnknownProfile(p)) if p == "custom"));
}

#[test]
fn platform_sdk_defaults_to_well_known_path() {
    let m = layer(None, Some("/t"), Some(("/a.edl", vec![])), None).build("release").unwrap();
    assert_eq!(m.intel_sgx_sdk.path(), "/opt/intel/sgxsdk");
    assert_eq!(m.teaclave_sgx_sdk.path(), "/t");
    assert_eq!(m.edl.path, "/a.edl");
    assert_eq!(m.mode, RELEASE);
}

#[test]
fn declared_profile_uses_the_table() {
    let m = layer(None, Some("/t"), Some(("/a.edl", vec![])), Some(vec![("custom", RELEASE), ("dev", RELEASE)]));
    let built = m.build("custom").unwrap();
    assert_eq!(built.mode, RELEASE);
}

#[test]
fn table_entry_overrides_builtin_mode() {
    let table = Some(ModeMetadata { modes: vec![("dev".to_string(), RELEASE)] });
    assert_eq!(Mode::for_profile("dev", &table).unwrap(), RELEASE);
    assert_eq!(Mode::for_profile("test", &table).unwrap(), DEV);
}

#[test]
fn later_table_entry_wins() {
    let table = ModeMetadata { modes: vec![("x".to_string(), DEV), ("x".to_string(), RELEASE)] };
    assert_eq!(table.get("x"), Some(RELEASE));
    assert_eq!(table.get("y"), None);
}

#[test]
fn builtin_modes() {
    assert_eq!(Mode::default("dev"), Some(DEV));
    assert_eq!(Mode::default("test"), Some(DEV));
    assert_eq!(Mode::default("release"), Some(RELEASE));
    assert_eq!(Mode::default("bench"), Some(RELEASE));
    assert_eq!(Mode::default("other"), None);
    assert_eq!(Mode::default_dev(), DEV);
    assert_eq!(Mode::default_release(), RELEASE);
    assert_eq!(Mode::default_test(), DEV);
    assert_eq!(Mode::default_bench(), RELEASE);
}

#[test]
fn every_known_profile_resolves() {
    let table = Some(ModeMetadata { modes: vec![("custom".to_string(), DEV)] });
    for p in ["dev", "release", "test", "bench", "custom", "debug"] {
        assert!(Mode::for_profile(p, &table).is_ok());
    }
    assert!(matches!(Mode::for_profile("profiling", &table), Err(BuildError::UnknownProfile(p)) if p == "profiling"));
}

#[test]
fn debug_profile_is_dev() {
    let table = Some(ModeMetadata { modes: vec![("dev".to_string(), RELEASE)] });
    assert_eq!(Mode::for_profile("debug", &table).unwrap(), Mode::for_profile("dev", &table).unwrap());
    assert_eq!(Mode::for_profile("debug", &None).unwrap(), DEV);
}

#[test]
fn canonicalize_joins_relative_paths_with_the_base() {
    let mut m = layer(Some("sdk"), Some("/abs/teaclave"), Some(("enclave/e.edl", vec!["inc", "/abs/inc"])), None);
    m.canonicalize("/ws");
    assert_eq!(m.intel_sgx_sdk.unwrap().path, "/ws/sdk");
    assert_eq!(m.teaclave_sgx_sdk.unwrap().path, "/abs/teaclave");
    let edl = m.edl.unwrap();
    assert_eq!(edl.path, "/ws/enclave/e.edl");
    assert_eq!(edl.search_paths, vec!["/ws/inc".to_string(), "/abs/inc".to_string()]);
}

#[test]
fn canonicalizing_an_absolute_path_keeps_it() {
    let mut s = TeaclaveSGXSDKMetadata::new("/abs/teaclave".to_string());
    s.canonicalize("/base");
    s.canonicalize("/other/");
    assert_eq!(s.path(), "/abs/teaclave");
}

#[test]
fn rebuild_directives() {
    let m = layer(Some("/i"), Some("/t"), Some(("/e/a.edl", vec!["/s1", "/s2"])), None).build("dev").unwrap();
    assert_eq!(
        m.cargo_instructions(),
        vec![
            "cargo:rerun-if-changed=/i",
            "cargo:rerun-if-changed=/t",
            "cargo:rerun-if-changed=/s1",
            "cargo:rerun-if-changed=/s2",
            "cargo:rerun-if-changed=/e/a.edl",
        ]
    );
}

#[test]
fn rebuild_directives_of_each_record() {
    let edl = EDLMetadata { path: "/e/a.edl".to_string(), search_paths: vec!["/s".to_string()] };
    assert_eq!(
        edl.set_cargo_instruction(),
        vec!["cargo:rerun-if-changed=/s", "cargo:rerun-if-changed=/e/a.edl"]
    );
    let sdk = IntelSGXSDKMetadata::new("/i".to_string());
    assert_eq!(sdk.set_cargo_instruction(), vec!["cargo:rerun-if-changed=/i"]);
}

#[test]
fn equal_tables_give_equal_modes() {
    let a = layer(Some("/i1"), Some("/t1"), Some(("/a.edl", vec![])), Some(vec![("custom", RELEASE)]));
    let b = layer(None, Some("/t2"), Some(("/b.edl", vec!["/s"])), Some(vec![("custom", RELEASE)]));
    assert_eq!(a.build("custom").unwrap().mode, b.build("custom").unwrap().mode);
    let a = layer(None, Some("/t"), Some(("/a.edl", vec![])), Some(vec![("custom", RELEASE)]));
    let b = layer(None, Some("/t"), Some(("/a.edl", vec![])), Some(vec![("custom", RELEASE)]));
    assert!(matches!(a.build("other"), Err(BuildError::UnknownProfile(_))));
    assert!(matches!(b.build("other"), Err(BuildError::UnknownProfile(_))));
}
