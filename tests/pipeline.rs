use teaclave_sgx_builder::error::BuildError;
use teaclave_sgx_builder::flags::BuildFlags;
use teaclave_sgx_builder::intel::edl::{EDLMetadata, SgxEdger8rCommand};
use teaclave_sgx_builder::intel::IntelSGXSDKMetadata;
use teaclave_sgx_builder::metadata::{Mode, PrepareBuildMetadata};
use teaclave_sgx_builder::teaclave::TeaclaveSGXSDKMetadata;
use teaclave_sgx_builder::{runtime_library, BuildContext, BuildMetadata};

const PROBE: &str = "SGX_EDGER8R = /sdk/bin/x64/sgx_edger8r\n\
TEACLAVE_EDL_PATH = /t/sgx_edl/edl\n\
TEACLAVE_COMMON_PATH = /t/common\n\
App_C_Flags = -m64 -O0 -g -fPIC\n\
SGX_MODE = SIM\n";

fn metadata(edl: &str, search: Vec<&str>) -> BuildMetadata {
    BuildMetadata {
        intel_sgx_sdk: IntelSGXSDKMetadata::new("/sdk".to_string()),
        teaclave_sgx_sdk: TeaclaveSGXSDKMetadata::new("/t".to_string()),
        edl: EDLMetadata { path: edl.to_string(), search_paths: search.into_iter().map(|s| s.to_string()).collect() },
        mode: Mode { hardware: false, debug: true },
    }
}

fn strings(v: &[&str]) -> Vec<String> {
    v.iter().map(|s| s.to_string()).collect()
}

#[test]
fn generated_file_names() {
    let edl = EDLMetadata { path: "/x/service.edl".to_string(), search_paths: vec![] };
    assert_eq!(edl.edl_file_name().unwrap(), "service");
    assert_eq!(edl.untrusted_source().unwrap(), "service_u.c");
    assert_eq!(edl.untrusted_header().unwrap(), "service_u.h");
    assert_eq!(edl.trusted_source().unwrap(), "service_t.c");
    assert_eq!(edl.trusted_header().unwrap(), "service_t.h");
    assert_eq!(edl.untrusted_name().unwrap(), "service_u");
    assert_eq!(edl.trusted_name().unwrap(), "service_t");
}

#[test]
fn no_file_name_gives_no_generated_names() {
    let edl = EDLMetadata { path: "/x/".to_string(), search_paths: vec![] };
    assert_eq!(edl.untrusted_source(), None);
}

#[test]
fn workspace_search_paths_follow_sdk_roots() {
    let local = PrepareBuildMetadata::default();
    let workspace = PrepareBuildMetadata {
        intel_sgx_sdk: None,
        teaclave_sgx_sdk: Some(TeaclaveSGXSDKMetadata::new("/t".to_string())),
        edl: Some(EDLMetadata { path: "/e/service.edl".to_string(), search_paths: vec!["/a".to_string()] }),
        mode: None,
    };
    let merged = PrepareBuildMetadata::extract(local, workspace).build("dev").unwrap();
    let ctx = BuildContext::new(merged, BuildFlags::new(PROBE), "/out".to_string());
    let args = ctx.generate_untrusted_edl().generate_command_args().unwrap();
    assert_eq!(
        args,
        strings(&[
            "--search-path",
            "/t/sgx_edl/edl",
            "--search-path",
            "/t/common/inc",
            "--search-path",
            "/a",
            "--untrusted",
            "/e/service.edl",
            "--untrusted-dir",
            "/out/_teaclave_sgx_builder_edl_output",
        ])
    );
}

#[test]
fn trusted_side_arguments() {
    let ctx = BuildContext::new(metadata("/e/s.edl", vec![]), BuildFlags::new(PROBE), "/out".to_string());
    let cmd = SgxEdger8rCommand::trusted(&ctx, "/tdir".to_string());
    assert_eq!(
        cmd.generate_command_args().unwrap(),
        strings(&[
            "--search-path",
            "/t/sgx_edl/edl",
            "--search-path",
            "/t/common/inc",
            "--trusted",
            "/e/s.edl",
            "--trusted-dir",
            "/tdir",
        ])
    );
}

#[test]
fn untrusted_build_plan() {
    let ctx = BuildContext::new(metadata("/e/service.edl", vec!["/s"]), BuildFlags::new(PROBE), "/out".to_string());
    assert_eq!(ctx.edl_output_path(), "/out/_teaclave_sgx_builder_edl_output");
    let plan = ctx.compile_untrusted().unwrap();
    let out = "/out/_teaclave_sgx_builder_edl_output";
    assert_eq!(plan.edger8r, "/sdk/bin/x64/sgx_edger8r");
    assert_eq!(plan.output_dir, out);
    assert_eq!(plan.source, format!("{}/service_u.c", out));
    assert_eq!(plan.lib_name, "service_u");
    assert_eq!(plan.archive, format!("{}/libservice_u.a", out));
    assert_eq!(plan.c_flags, strings(&["-m64", "-O0", "-g", "-fPIC"]));
    assert_eq!(plan.sdk_lib_dir, "/sdk/lib64");
    assert_eq!(plan.runtime_lib, "sgx_urts_sim");
    assert_eq!(plan.edger8r_args.len(), 10);
    assert_eq!(
        plan.link_directives("/real/sdk/lib64"),
        strings(&[
            "cargo:rustc-link-search=native=/out/_teaclave_sgx_builder_edl_output",
            "cargo:rustc-link-lib=static=service_u",
            "cargo:rustc-link-search=native=/real/sdk/lib64",
            "cargo:rustc-link-lib=dylib=sgx_urts_sim",
        ])
    );
}

#[test]
fn untrusted_build_without_mode_links_hardware_runtime() {
    let probe = "SGX_EDGER8R = /e8\nTEACLAVE_EDL_PATH = /t/e\nTEACLAVE_COMMON_PATH = /t/c\nApp_C_Flags = -O2\n";
    let ctx = BuildContext::new(metadata("/e/service.edl", vec![]), BuildFlags::new(probe), "/out".to_string());
    assert_eq!(ctx.compile_untrusted().unwrap().runtime_lib, "sgx_urts");
}

#[test]
fn untrusted_build_reports_first_missing_flag() {
    let ctx = BuildContext::new(metadata("/e/service.edl", vec![]), BuildFlags::new("TEACLAVE_EDL_PATH = /x\n"), "/out".to_string());
    assert!(matches!(ctx.compile_untrusted(), Err(BuildError::Lookup(k)) if k == "SGX_EDGER8R"));
    let ctx = BuildContext::new(metadata("/e/service.edl", vec![]), BuildFlags::new("SGX_EDGER8R = /e8\nTEACLAVE_EDL_PATH = /x\n"), "/out".to_string());
    assert!(matches!(ctx.compile_untrusted(), Err(BuildError::Lookup(k)) if k == "TEACLAVE_COMMON_PATH"));
}

#[test]
fn untrusted_build_needs_a_base_name() {
    let ctx = BuildContext::new(metadata("/e/", vec![]), BuildFlags::new(PROBE), "/out".to_string());
    assert!(matches!(ctx.compile_untrusted(), Err(BuildError::PathResolution(p)) if p == "/e/"));
}

#[test]
fn runtime_library_by_mode_string() {
    assert_eq!(runtime_library(Some("SIM")), "sgx_urts_sim");
    assert_eq!(runtime_library(Some("SW")), "sgx_urts");
    assert_eq!(runtime_library(Some("")), "sgx_urts");
    assert_eq!(runtime_library(Some("HYPER")), "sgx_urts_hyper");
    assert_eq!(runtime_library(Some("HW")), "sgx_urts");
    assert_eq!(runtime_library(Some("weird")), "sgx_urts");
    assert_eq!(runtime_library(None), "sgx_urts");
}

#[test]
fn untrusted_build_with_other_mode_links_hardware_runtime() {
    let probe = "SGX_EDGER8R = /e8\nTEACLAVE_EDL_PATH = /t/e\nTEACLAVE_COMMON_PATH = /t/c\nApp_C_Flags = -O2\nSGX_MODE = SW\n";
    let ctx = BuildContext::new(metadata("/e/service.edl", vec![]), BuildFlags::new(probe), "/out".to_string());
    let plan = ctx.compile_untrusted().unwrap();
    assert_eq!(plan.runtime_lib, "sgx_urts");
    assert_eq!(plan.link_directives("/sdk/lib64")[3], "cargo:rustc-link-lib=dylib=sgx_urts");
}
