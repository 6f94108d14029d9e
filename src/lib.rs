//! Build configuration for enclave host code: layered configuration, build mode,
//! toolchain flags recovered from the SDK, and the plan that turns an interface
//! definition into a linked untrusted library.
use vstd::prelude::*;

pub mod entries;
pub mod error;
pub mod flags;
pub mod intel;
pub mod metadata;
pub mod paths;
pub mod teaclave;
pub mod text;

use crate::error::BuildError;
use crate::flags::{app_c_flags_key, common_path_key, edger8r_key, edl_path_key, sgx_mode_key, sdk_search_paths, BuildFlags};
use crate::intel::edl::{edger8r_args, suffixed_name, EDLMetadata, OutputDir, SgxEdger8rCommand};
use crate::intel::IntelSGXSDKMetadata;
use crate::metadata::{rerun_directive, Metadata, Mode};
use crate::paths::{base_name, join, join_path};
use crate::teaclave::TeaclaveSGXSDKMetadata;
use crate::text::{concat, str_eq, views, words};

verus! {

/// The target architecture.
#[derive(Clone, Copy, Debug, PartialEq, Eq, Structural)]
pub enum Arch {
    X86,
    X86_64,
}

impl Arch {
    /// The architecture called `name`: `x86` or `x86_64`; none for any other.
    pub fn from_name(name: &str) -> (r: Option<Arch>)
        ensures
            r == (if name@ == "x86"@ {
                Some(Arch::X86)
            } else if name@ == "x86_64"@ {
                Some(Arch::X86_64)
            } else {
                None::<Arch>
            }),
    {
        if str_eq(name, "x86") {
            Some(Arch::X86)
        } else if str_eq(name, "x86_64") {
            Some(Arch::X86_64)
        } else {
            None
        }
    }
}

/// The complete configuration of one build.
pub struct BuildMetadata {
    pub intel_sgx_sdk: IntelSGXSDKMetadata,
    pub teaclave_sgx_sdk: TeaclaveSGXSDKMetadata,
    pub edl: EDLMetadata,
    pub mode: Mode,
}

impl BuildMetadata {
    /// The rebuild directives of the configuration: the platform SDK, the
    /// framework SDK, then the interface definition's search paths and file.
    pub fn cargo_instructions(&self) -> (r: Vec<String>)
        ensures
            views(r@) == (IntelSGXSDKMetadata::watched(self.intel_sgx_sdk@) + TeaclaveSGXSDKMetadata::watched(
                self.teaclave_sgx_sdk@,
            ) + EDLMetadata::watched(self.edl@)).map_values(|p: Seq<char>| rerun_directive(p)),
    {
        let mut r = self.intel_sgx_sdk.set_cargo_instruction();
        let mut t = self.teaclave_sgx_sdk.set_cargo_instruction();
        let mut e = self.edl.set_cargo_instruction();
        let ghost (r0, t0, e0) = (r@, t@, e@);
        r.append(&mut t);
        r.append(&mut e);
        assert(r@ == r0 + t0 + e0);
        proof {
            let a = IntelSGXSDKMetadata::watched(self.intel_sgx_sdk@);
            let b = TeaclaveSGXSDKMetadata::watched(self.teaclave_sgx_sdk@);
            let c = EDLMetadata::watched(self.edl@);
            let f = |p: Seq<char>| rerun_directive(p);
            assert(views(r@) =~= views(r0) + views(t0) + views(e0));
            assert((a + b + c).map_values(f) =~= a.map_values(f) + b.map_values(f) + c.map_values(f));
        }
        r
    }
}

/// The directory, under the output directory, that receives the generated code.
pub open spec fn edl_output(out_dir: Seq<char>) -> Seq<char> {
    join(out_dir, "_teaclave_sgx_builder_edl_output"@)
}

/// The host runtime library that the mode string selects: the simulated one for
/// `SIM`, the hyper-mode one for `HYPER`, the hardware one for any other string,
/// also when no mode string was reported.
pub open spec fn runtime_lib(mode: Option<Seq<char>>) -> Seq<char> {
    match mode {
        Some(m) => if m == "SIM"@ {
            "sgx_urts_sim"@
        } else if m == "HYPER"@ {
            "sgx_urts_hyper"@
        } else {
            "sgx_urts"@
        },
        None => "sgx_urts"@,
    }
}

/// The host runtime library for the mode string `mode`.
pub fn runtime_library(mode: Option<&str>) -> (r: &'static str)
    ensures
        r@ == runtime_lib(match mode {
            Some(m) => Some(m@),
            None => None,
        }),
{
    match mode {
        Some(m) => if str_eq(m, "SIM") {
            "sgx_urts_sim"
        } else if str_eq(m, "HYPER") {
            "sgx_urts_hyper"
        } else {
            "sgx_urts"
        },
        None => "sgx_urts",
    }
}

/// One build: its configuration, the flags that the probe reported, and the
/// directory that receives its outputs.
pub struct BuildContext {
    pub metadata: BuildMetadata,
    pub flags: BuildFlags,
    pub out_dir: String,
}

/// What turns the interface definition into a linked untrusted library: the
/// compiler run that generates the code, the compilation of the generated
/// source, and the libraries to link.
pub struct UntrustedBuild {
    /// The compiler of interface definitions.
    pub edger8r: String,
    /// Its arguments.
    pub edger8r_args: Vec<String>,
    /// Where the generated code goes; also searched for headers and libraries.
    pub output_dir: String,
    /// The generated untrusted source.
    pub source: String,
    /// The compiler flags, one per element.
    pub c_flags: Vec<String>,
    /// The name of the static library, `<base>_u`.
    pub lib_name: String,
    /// The static library's file, `lib<base>_u.a` in the output directory.
    pub archive: String,
    /// The platform SDK's library directory.
    pub sdk_lib_dir: String,
    /// The runtime library that the mode selects.
    pub runtime_lib: String,
}

/// The link directives of a build, in order.
pub open spec fn link_lines(
    output_dir: Seq<char>,
    lib_name: Seq<char>,
    sdk_lib_dir: Seq<char>,
    runtime: Seq<char>,
) -> Seq<Seq<char>> {
    seq![
        "cargo:rustc-link-search=native="@ + output_dir,
        "cargo:rustc-link-lib=static="@ + lib_name,
        "cargo:rustc-link-search=native="@ + sdk_lib_dir,
        "cargo:rustc-link-lib=dylib="@ + runtime,
    ]
}

impl UntrustedBuild {
    /// The directives that tell the host build system what to link, with the
    /// platform SDK's library directory given as `sdk_lib_dir`.
    pub fn link_directives(&self, sdk_lib_dir: &str) -> (r: Vec<String>)
        ensures
            views(r@) == link_lines(self.output_dir@, self.lib_name@, sdk_lib_dir@, self.runtime_lib@),
    {
        let mut r: Vec<String> = Vec::new();
        r.push(concat("cargo:rustc-link-search=native=", self.output_dir.as_str()));
        r.push(concat("cargo:rustc-link-lib=static=", self.lib_name.as_str()));
        r.push(concat("cargo:rustc-link-search=native=", sdk_lib_dir));
        r.push(concat("cargo:rustc-link-lib=dylib=", self.runtime_lib.as_str()));
        assert(views(r@) =~= link_lines(self.output_dir@, self.lib_name@, sdk_lib_dir@, self.runtime_lib@));
        r
    }
}

/// Whether the probe reported what the untrusted build needs and the interface
/// definition has a base name.
pub open spec fn untrusted_ready(c: BuildContext) -> bool {
    let m = c.flags@;
    &&& m.contains_key(edger8r_key())
    &&& m.contains_key(edl_path_key())
    &&& m.contains_key(common_path_key())
    &&& base_name(c.metadata.edl.path@) is Some
    &&& m.contains_key(app_c_flags_key())
}

/// The error of an untrusted build that is not ready: the first of the compiler's
/// path, the SDK's search roots, the base name and the compiler flags that is
/// missing.
pub open spec fn untrusted_error(c: BuildContext, e: BuildError) -> bool {
    let m = c.flags@;
    if !m.contains_key(edger8r_key()) {
        e is Lookup && e->Lookup_0@ == edger8r_key()
    } else if !m.contains_key(edl_path_key()) {
        e is Lookup && e->Lookup_0@ == edl_path_key()
    } else if !m.contains_key(common_path_key()) {
        e is Lookup && e->Lookup_0@ == common_path_key()
    } else if base_name(c.metadata.edl.path@) is None {
        e is PathResolution && e->PathResolution_0@ == c.metadata.edl.path@
    } else {
        e is Lookup && e->Lookup_0@ == app_c_flags_key()
    }
}

impl BuildContext {
    /// A build of `metadata` with the probe's `flags`, writing under `out_dir`.
    pub fn new(metadata: BuildMetadata, flags: BuildFlags, out_dir: String) -> (r: Self)
        ensures
            r.metadata == metadata,
            r.flags == flags,
            r.out_dir == out_dir,
    {
        BuildContext { metadata, flags, out_dir }
    }

    /// Where the generated code goes.
    pub fn edl_output_path(&self) -> (r: String)
        ensures
            r@ == edl_output(self.out_dir@),
    {
        join_path(self.out_dir.as_str(), "_teaclave_sgx_builder_edl_output")
    }

    /// The compiler run that generates the untrusted side into the output path.
    pub fn generate_untrusted_edl(&self) -> (r: SgxEdger8rCommand<'_>)
        ensures
            r.build_context == self,
            r.output_dir is Untrusted,
            r.output_dir->Untrusted_0@ == edl_output(self.out_dir@),
    {
        SgxEdger8rCommand::untrusted(self, self.edl_output_path())
    }

    /// The whole untrusted build: generation, compilation and linking.
    pub fn compile_untrusted(&self) -> (r: Result<UntrustedBuild, BuildError>)
        ensures
            r is Ok <==> untrusted_ready(*self),
            r is Err ==> untrusted_error(*self, r->Err_0),
            r is Ok ==> {
                let b = r->Ok_0;
                let m = self.flags@;
                let out = edl_output(self.out_dir@);
                let edl = self.metadata.edl;
                let name = suffixed_name(edl.path@, "_u"@)->0;
                &&& b.edger8r@ == m[edger8r_key()]
                &&& views(b.edger8r_args@) == edger8r_args(
                    sdk_search_paths(m),
                    views(edl.search_paths@),
                    edl.path@,
                    OutputDir::Untrusted(b.output_dir),
                )
                &&& b.output_dir@ == out
                &&& b.source@ == join(out, suffixed_name(edl.path@, "_u.c"@)->0)
                &&& views(b.c_flags@) == words(m[app_c_flags_key()])
                &&& b.lib_name@ == name
                &&& b.archive@ == join(out, "lib"@ + name + ".a"@)
                &&& b.sdk_lib_dir@ == join(self.metadata.intel_sgx_sdk@, "lib64"@)
                &&& b.runtime_lib@ == runtime_lib(
                    if m.contains_key(sgx_mode_key()) {
                        Some(m[sgx_mode_key()])
                    } else {
                        None
                    },
                )
            },
    {
        let edger8r = self.flags.sgx_edger8r()?;
        let command = self.generate_untrusted_edl();
        let edger8r_args = command.generate_command_args()?;
        let output_dir = self.edl_output_path();
        let lib_name = match self.metadata.edl.untrusted_name() {
            Some(n) => n,
            None => {
                return Err(BuildError::PathResolution(self.metadata.edl.path.clone()));
            },
        };
        let source_name = match self.metadata.edl.untrusted_source() {
            Some(n) => n,
            None => {
                return Err(BuildError::PathResolution(self.metadata.edl.path.clone()));
            },
        };
        let c_flags = self.flags.app_c_flags()?;
        let source = join_path(output_dir.as_str(), source_name.as_str());
        let lib_file = concat(concat("lib", lib_name.as_str()).as_str(), ".a");
        let archive = join_path(output_dir.as_str(), lib_file.as_str());
        let sdk_lib_dir = self.metadata.intel_sgx_sdk.lib_path();
        let runtime = match self.flags.sgx_mode() {
            Ok(m) => runtime_library(Some(m.as_str())),
            Err(_) => runtime_library(None),
        };
        Ok(
            UntrustedBuild {
                edger8r,
                edger8r_args,
                output_dir,
                source,
                c_flags,
                lib_name,
                archive,
                sdk_lib_dir,
                runtime_lib: runtime.to_owned(),
            },
        )
    }
}

} // verus!
