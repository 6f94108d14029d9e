//! The platform SDK.
use vstd::prelude::*;
use crate::metadata::{rerun_directive, rerun_instruction, Metadata};
use crate::paths::{join, join_path};
use crate::text::views;
use crate::Arch;

pub mod edl;

verus! {

/// Where the platform SDK lives when no layer says otherwise.
pub open spec fn default_sdk_path() -> Seq<char> {
    "/opt/intel/sgxsdk"@
}

/// The directory under `bin` that holds the tools for `arch`.
pub open spec fn arch_bin_dir(arch: Arch) -> Seq<char> {
    match arch {
        Arch::X86 => "x86"@,
        Arch::X86_64 => "x64"@,
    }
}

/// The location of the platform SDK.
pub struct IntelSGXSDKMetadata {
    pub path: String,
}

impl View for IntelSGXSDKMetadata {
    type V = Seq<char>;

    open spec fn view(&self) -> Seq<char> {
        self.path@
    }
}

impl Default for IntelSGXSDKMetadata {
    /// The well-known location.
    fn default() -> (r: Self)
        ensures
            r@ == default_sdk_path(),
    {
        IntelSGXSDKMetadata { path: "/opt/intel/sgxsdk".to_owned() }
    }
}

impl Metadata for IntelSGXSDKMetadata {
    open spec fn canonicalized(v: Seq<char>, base: Seq<char>) -> Seq<char> {
        join(base, v)
    }

    open spec fn watched(v: Seq<char>) -> Seq<Seq<char>> {
        seq![v]
    }

    fn canonicalize(&mut self, base: &str) {
        self.path = join_path(base, self.path.as_str());
    }

    fn set_cargo_instruction(&self) -> (r: Vec<String>) {
        let mut r: Vec<String> = Vec::new();
        r.push(rerun_instruction(self.path.as_str()));
        assert(views(r@) =~= Self::watched(self@).map_values(|p: Seq<char>| rerun_directive(p)));
        r
    }
}

impl IntelSGXSDKMetadata {
    /// The SDK at `path`.
    pub fn new(path: String) -> (r: Self)
        ensures
            r@ == path@,
    {
        IntelSGXSDKMetadata { path }
    }

    /// Where the SDK is.
    pub fn path(&self) -> (r: &str)
        ensures
            r@ == self@,
    {
        self.path.as_str()
    }

    /// The directory of the SDK's tools for `arch`: `bin/x86` or `bin/x64`.
    pub fn bin_path(&self, arch: Arch) -> (r: String)
        ensures
            r@ == join(join(self@, "bin"@), arch_bin_dir(arch)),
    {
        let bin = join_path(self.path.as_str(), "bin");
        match arch {
            Arch::X86 => join_path(bin.as_str(), "x86"),
            Arch::X86_64 => join_path(bin.as_str(), "x64"),
        }
    }

    /// The directory of the SDK's runtime libraries.
    pub fn lib_path(&self) -> (r: String)
        ensures
            r@ == join(self@, "lib64"@),
    {
        join_path(self.path.as_str(), "lib64")
    }
}

} // verus!
