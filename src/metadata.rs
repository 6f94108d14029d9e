//! Layered build configuration: a partial record per layer, the merge of two
//! layers, and the resolution of the merged record into a complete one.
use vstd::prelude::*;
use crate::entries::{entries_map, find_last, keyed, lemma_entries_map_absent, lemma_entries_map_last};
use crate::error::{BuildError, ConfigField};
use crate::intel::edl::EDLMetadata;
use crate::intel::{default_sdk_path, IntelSGXSDKMetadata};
use crate::paths::join;
use crate::teaclave::TeaclaveSGXSDKMetadata;
use crate::text::{concat, str_eq, views};
use crate::BuildMetadata;

verus! {

/// The directive that asks the host build system to rebuild when `p` changes.
pub open spec fn rerun_directive(p: Seq<char>) -> Seq<char> {
    "cargo:rerun-if-changed="@ + p
}

/// The rebuild directive for the path `p`.
pub fn rerun_instruction(p: &str) -> (r: String)
    ensures
        r@ == rerun_directive(p@),
{
    concat("cargo:rerun-if-changed=", p)
}

/// A configuration record that holds paths declared relative to a directory.
pub trait Metadata: View + Sized {
    /// The record with each of its paths taken relative to `base`.
    spec fn canonicalized(v: Self::V, base: Seq<char>) -> Self::V;

    /// The paths whose change should trigger a rebuild, in order.
    spec fn watched(v: Self::V) -> Seq<Seq<char>>;

    /// Takes each relative path of the record relative to `base`; absolute paths
    /// stay as they are.
    fn canonicalize(&mut self, base: &str)
        ensures
            final(self)@ == Self::canonicalized(old(self)@, base@),
    ;

    /// One rebuild directive per watched path.
    fn set_cargo_instruction(&self) -> (r: Vec<String>)
        ensures
            views(r@) == Self::watched(self@).map_values(|p: Seq<char>| rerun_directive(p)),
    ;
}

/// How the enclave runs: on hardware or simulated, with or without debugging.
#[derive(Clone, Copy, Debug, PartialEq, Eq, Structural)]
pub struct Mode {
    pub hardware: bool,
    pub debug: bool,
}

/// The mode of the development profile.
pub open spec fn dev_mode() -> Mode {
    Mode { hardware: false, debug: true }
}

/// The mode of the release profile.
pub open spec fn release_mode() -> Mode {
    Mode { hardware: true, debug: false }
}

/// The profile under which `p` is looked up: `debug` is another name of `dev`.
pub open spec fn normalize_profile(p: Seq<char>) -> Seq<char> {
    if p == "debug"@ {
        "dev"@
    } else {
        p
    }
}

/// Whether `p` is one of the profiles with a built-in mode.
pub open spec fn is_builtin_profile(p: Seq<char>) -> bool {
    p == "dev"@ || p == "debug"@ || p == "test"@ || p == "release"@ || p == "bench"@
}

/// The built-in mode of a profile: `dev`, `debug` and `test` run simulated with
/// debugging, `release` and `bench` run on hardware without.
pub open spec fn builtin_mode(p: Seq<char>) -> Option<Mode> {
    if p == "dev"@ || p == "debug"@ || p == "test"@ {
        Some(dev_mode())
    } else if p == "release"@ || p == "bench"@ {
        Some(release_mode())
    } else {
        None
    }
}

/// The mode of profile `profile`: the table's entry for its normalized name, else
/// the built-in mode of that name.
pub open spec fn resolve_mode(profile: Seq<char>, table: Option<Map<Seq<char>, Mode>>) -> Option<Mode> {
    let p = normalize_profile(profile);
    if table is Some && table->0.contains_key(p) {
        Some(table->0[p])
    } else {
        builtin_mode(p)
    }
}

/// Every declared profile and every profile with a built-in mode resolves to a
/// mode, and no other profile does.
pub proof fn lemma_mode_lookup_total(profile: Seq<char>, table: Option<Map<Seq<char>, Mode>>)
    ensures
        resolve_mode(profile, table) is Some <==> (
            (table is Some && table->0.contains_key(normalize_profile(profile)))
            || is_builtin_profile(normalize_profile(profile))
        ),
{
}

/// The mode is a function of the normalized profile name and the declared table
/// alone: two profiles with the same normalized name under tables with the same
/// entries resolve alike, to the same mode or both to none.
pub proof fn lemma_mode_determined(
    p1: Seq<char>,
    p2: Seq<char>,
    t1: Option<Map<Seq<char>, Mode>>,
    t2: Option<Map<Seq<char>, Mode>>,
)
    requires
        normalize_profile(p1) == normalize_profile(p2),
        t1 == t2,
    ensures
        resolve_mode(p1, t1) == resolve_mode(p2, t2),
{
}

/// The profile `debug` resolves as `dev` does, whatever the table.
pub proof fn lemma_debug_is_dev(table: Option<Map<Seq<char>, Mode>>)
    ensures
        resolve_mode("debug"@, table) == resolve_mode("dev"@, table),
{
    reveal_strlit("debug");
    reveal_strlit("dev");
    assert("dev"@ != "debug"@) by {
        assert("dev"@.len() != "debug"@.len());
    }
}

proof fn lemma_profile_names_distinct()
    ensures
        "dev"@ != "debug"@,
        "dev"@ != "release"@,
        "dev"@ != "test"@,
        "dev"@ != "bench"@,
        "debug"@ != "release"@,
        "debug"@ != "test"@,
        "debug"@ != "bench"@,
        "release"@ != "test"@,
        "release"@ != "bench"@,
        "test"@ != "bench"@,
{
    reveal_strlit("dev");
    reveal_strlit("debug");
    reveal_strlit("release");
    reveal_strlit("test");
    reveal_strlit("bench");
    assert("dev"@.len() == 3);
    assert("debug"@.len() == 5);
    assert("release"@.len() == 7);
    assert("test"@.len() == 4);
    assert("bench"@.len() == 5);
    assert("debug"@[0] != "bench"@[0]);
}

impl Mode {
    /// The built-in mode of `profile`, if it has one.
    pub fn default(profile: &str) -> (r: Option<Mode>)
        ensures
            r == builtin_mode(profile@),
    {
        proof {
            lemma_profile_names_distinct();
        }
        if str_eq(profile, "dev") || str_eq(profile, "debug") {
            Some(Self::default_dev())
        } else if str_eq(profile, "release") {
            Some(Self::default_release())
        } else if str_eq(profile, "test") {
            Some(Self::default_test())
        } else if str_eq(profile, "bench") {
            Some(Self::default_bench())
        } else {
            None
        }
    }

    /// Simulated, with debugging.
    pub fn default_dev() -> (r: Mode)
        ensures
            r == dev_mode(),
    {
        Mode { hardware: false, debug: true }
    }

    /// On hardware, without debugging.
    pub fn default_release() -> (r: Mode)
        ensures
            r == release_mode(),
    {
        Mode { hardware: true, debug: false }
    }

    /// The mode of `dev`.
    pub fn default_test() -> (r: Mode)
        ensures
            r == dev_mode(),
    {
        Self::default_dev()
    }

    /// The mode of `release`.
    pub fn default_bench() -> (r: Mode)
        ensures
            r == release_mode(),
    {
        Self::default_release()
    }

    /// The mode of `profile` under the declared table, if any.
    pub fn for_profile(profile: &str, table: &Option<ModeMetadata>) -> (r: Result<Mode, BuildError>)
        ensures
            match r {
                Ok(m) => resolve_mode(profile@, table_view(*table)) == Some(m),
                Err(e) => resolve_mode(profile@, table_view(*table)) is None && e is UnknownProfile
                    && e->UnknownProfile_0@ == profile@,
            },
    {
        let dev = "dev";
        let p: &str = if str_eq(profile, "debug") {
            dev
        } else {
            profile
        };
        assert(p@ == normalize_profile(profile@));
        let declared = match table {
            Some(t) => t.get(p),
            None => None,
        };
        match declared {
            Some(m) => Ok(m),
            None => match Self::default(p) {
                Some(m) => Ok(m),
                None => Err(BuildError::UnknownProfile(profile.to_owned())),
            },
        }
    }
}

/// The declared table from profile name to mode. A later entry for a name
/// replaces an earlier one.
pub struct ModeMetadata {
    pub modes: Vec<(String, Mode)>,
}

impl View for ModeMetadata {
    type V = Map<Seq<char>, Mode>;

    open spec fn view(&self) -> Map<Seq<char>, Mode> {
        entries_map(keyed(self.modes@))
    }
}

/// The map of a table that may be absent.
pub open spec fn table_view(t: Option<ModeMetadata>) -> Option<Map<Seq<char>, Mode>> {
    match t {
        Some(m) => Some(m@),
        None => None,
    }
}

impl ModeMetadata {
    /// The declared mode of `profile`.
    pub fn get(&self, profile: &str) -> (r: Option<Mode>)
        ensures
            r is Some <==> self@.contains_key(profile@),
            r is Some ==> r->0 == self@[profile@],
    {
        match find_last(&self.modes, profile) {
            Some(i) => {
                proof {
                    lemma_entries_map_last(keyed(self.modes@), profile@, i as int);
                }
                Some(self.modes[i].1)
            },
            None => {
                proof {
                    lemma_entries_map_absent(keyed(self.modes@), profile@);
                }
                None
            },
        }
    }
}

/// How the enclave side is built.
#[derive(Clone, Copy, Debug, PartialEq, Eq, Structural)]
pub enum BuildSystem {
    NoStd,
    Std,
    Xargo,
}

/// One layer of declared configuration: each field may be absent.
pub struct PrepareBuildMetadata {
    pub intel_sgx_sdk: Option<IntelSGXSDKMetadata>,
    pub teaclave_sgx_sdk: Option<TeaclaveSGXSDKMetadata>,
    pub edl: Option<EDLMetadata>,
    pub mode: Option<ModeMetadata>,
}

/// `local` where it is set, else `workspace`.
pub open spec fn merged<T>(local: Option<T>, workspace: Option<T>) -> Option<T> {
    if local is Some {
        local
    } else {
        workspace
    }
}

/// A field set in the local layer keeps its local value; one set only in the
/// workspace layer takes the workspace value; one set in neither stays unset.
pub proof fn lemma_merge_precedence<T>(local: Option<T>, workspace: Option<T>)
    ensures
        local is Some ==> merged(local, workspace) == local,
        local is None && workspace is Some ==> merged(local, workspace) == workspace,
        local is None && workspace is None ==> merged(local, workspace) is None,
{
}

impl Default for PrepareBuildMetadata {
    /// A layer with no field set.
    fn default() -> (r: Self)
        ensures
            r.intel_sgx_sdk is None,
            r.teaclave_sgx_sdk is None,
            r.edl is None,
            r.mode is None,
    {
        PrepareBuildMetadata { intel_sgx_sdk: None, teaclave_sgx_sdk: None, edl: None, mode: None }
    }
}

impl PrepareBuildMetadata {
    /// Takes each relative path of the layer relative to `base`, the directory
    /// that declared it; absolute paths stay as they are.
    pub fn canonicalize(&mut self, base: &str)
        ensures
            match old(self).intel_sgx_sdk {
                Some(s) => final(self).intel_sgx_sdk is Some
                    && final(self).intel_sgx_sdk->0@ == join(base@, s@),
                None => final(self).intel_sgx_sdk is None,
            },
            match old(self).teaclave_sgx_sdk {
                Some(s) => final(self).teaclave_sgx_sdk is Some
                    && final(self).teaclave_sgx_sdk->0@ == join(base@, s@),
                None => final(self).teaclave_sgx_sdk is None,
            },
            match old(self).edl {
                Some(e) => final(self).edl is Some
                    && final(self).edl->0@ == EDLMetadata::canonicalized(e@, base@),
                None => final(self).edl is None,
            },
            final(self).mode == old(self).mode,
    {
        match &mut self.intel_sgx_sdk {
            Some(s) => s.canonicalize(base),
            None => {},
        }
        match &mut self.teaclave_sgx_sdk {
            Some(s) => s.canonicalize(base),
            None => {},
        }
        match &mut self.edl {
            Some(e) => e.canonicalize(base),
            None => {},
        }
    }

    /// Merges two layers field by field: a field of `first` (the local layer) wins
    /// where it is set; otherwise the field of `second` (the workspace layer) is
    /// taken, set or not.
    pub fn extract(first: Self, second: Self) -> (r: Self)
        ensures
            r.intel_sgx_sdk == merged(first.intel_sgx_sdk, second.intel_sgx_sdk),
            r.teaclave_sgx_sdk == merged(first.teaclave_sgx_sdk, second.teaclave_sgx_sdk),
            r.edl == merged(first.edl, second.edl),
            r.mode == merged(first.mode, second.mode),
    {
        let PrepareBuildMetadata { intel_sgx_sdk, teaclave_sgx_sdk, edl, mode } = first;
        let intel_sgx_sdk = match intel_sgx_sdk {
            Some(s) => Some(s),
            None => second.intel_sgx_sdk,
        };
        let teaclave_sgx_sdk = match teaclave_sgx_sdk {
            Some(s) => Some(s),
            None => second.teaclave_sgx_sdk,
        };
        let edl = match edl {
            Some(e) => Some(e),
            None => second.edl,
        };
        let mode = match mode {
            Some(m) => Some(m),
            None => second.mode,
        };
        PrepareBuildMetadata { intel_sgx_sdk, teaclave_sgx_sdk, edl, mode }
    }

    /// Completes the merged configuration for the profile `profile`: the platform
    /// SDK falls back to its well-known place, the framework SDK and the interface
    /// definition are required, and the mode is resolved from the table or the
    /// built-in modes.
    pub fn build(self, profile: &str) -> (r: Result<BuildMetadata, BuildError>)
        ensures
            self.teaclave_sgx_sdk is None ==> r is Err && r->Err_0 is MissingConfiguration
                && r->Err_0->MissingConfiguration_0 == ConfigField::TeaclaveSgxSdk,
            self.teaclave_sgx_sdk is Some && self.edl is None ==> r is Err
                && r->Err_0 is MissingConfiguration && r->Err_0->MissingConfiguration_0 == ConfigField::Edl,
            self.teaclave_sgx_sdk is Some && self.edl is Some && resolve_mode(profile@, table_view(self.mode)) is None
                ==> r is Err && r->Err_0 is UnknownProfile && r->Err_0->UnknownProfile_0@ == profile@,
            self.teaclave_sgx_sdk is Some && self.edl is Some && resolve_mode(profile@, table_view(self.mode)) is Some
                ==> r is Ok,
            r is Ok ==> {
                let m = r->Ok_0;
                &&& m.intel_sgx_sdk@ == (if self.intel_sgx_sdk is Some {
                    self.intel_sgx_sdk->0@
                } else {
                    default_sdk_path()
                })
                &&& Some(m.teaclave_sgx_sdk) == self.teaclave_sgx_sdk
                &&& Some(m.edl) == self.edl
                &&& Some(m.mode) == resolve_mode(profile@, table_view(self.mode))
            },
    {
        let PrepareBuildMetadata { intel_sgx_sdk, teaclave_sgx_sdk, edl, mode } = self;
        let intel_sgx_sdk = match intel_sgx_sdk {
            Some(s) => s,
            None => IntelSGXSDKMetadata::default(),
        };
        let teaclave_sgx_sdk = match teaclave_sgx_sdk {
            Some(s) => s,
            None => {
                return Err(BuildError::MissingConfiguration(ConfigField::TeaclaveSgxSdk));
            },
        };
        let edl = match edl {
            Some(e) => e,
            None => {
                return Err(BuildError::MissingConfiguration(ConfigField::Edl));
            },
        };
        let mode = Mode::for_profile(profile, &mode)?;
        Ok(BuildMetadata { intel_sgx_sdk, teaclave_sgx_sdk, edl, mode })
    }
}

} // verus!
