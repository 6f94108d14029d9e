//! The framework SDK.
use vstd::prelude::*;
use crate::metadata::{rerun_directive, rerun_instruction, Metadata};
use crate::paths::{join, join_path};
use crate::text::views;

verus! {

/// The location of the framework SDK.
pub struct TeaclaveSGXSDKMetadata {
    pub path: String,
}

impl View for TeaclaveSGXSDKMetadata {
    type V = Seq<char>;

    open spec fn view(&self) -> Seq<char> {
        self.path@
    }
}

/// The framework SDK's common directory.
pub open spec fn common_path(root: Seq<char>) -> Seq<char> {
    join(root, "common"@)
}

/// The framework SDK's directory of interface definitions.
pub open spec fn edl_path(root: Seq<char>) -> Seq<char> {
    join(join(root, "sgx_edl"@), "edl"@)
}

impl Metadata for TeaclaveSGXSDKMetadata {
    open spec fn canonicalized(v: Seq<char>, base: Seq<char>) -> Seq<char> {
        join(base, v)
    }

    open spec fn watched(v: Seq<char>) -> Seq<Seq<char>> {
        seq![v]
    }

    fn canonicalize(&mut self, base: &str) {
        self.path = join_path(base, self.path.as_str());
    }

    fn set_cargo_instruction(&self) -> (r: Vec<String>) {
        let mut r: Vec<String> = Vec::new();
        r.push(rerun_instruction(self.path.as_str()));
        assert(views(r@) =~= Self::watched(self@).map_values(|p: Seq<char>| rerun_directive(p)));
        r
    }
}

impl TeaclaveSGXSDKMetadata {
    /// The SDK at `path`.
    pub fn new(path: String) -> (r: Self)
        ensures
            r@ == path@,
    {
        TeaclaveSGXSDKMetadata { path }
    }

    /// Where the SDK is.
    pub fn path(&self) -> (r: &str)
        ensures
            r@ == self@,
    {
        self.path.as_str()
    }

    /// `common` under the SDK.
    pub fn common_path(&self) -> (r: String)
        ensures
            r@ == common_path(self@),
    {
        join_path(self.path.as_str(), "common")
    }

    /// `sgx_edl/edl` under the SDK.
    pub fn edl_path(&self) -> (r: String)
        ensures
            r@ == edl_path(self@),
    {
        let d = join_path(self.path.as_str(), "sgx_edl");
        join_path(d.as_str(), "edl")
    }

    /// The SDK's own search roots for interface definitions: `common/inc`, then
    /// `sgx_edl/edl`.
    pub fn common_search_path(&self) -> (r: Vec<String>)
        ensures
            views(r@) == seq![join(common_path(self@), "inc"@), edl_path(self@)],
    {
        let common = self.common_path();
        let mut r: Vec<String> = Vec::new();
        r.push(join_path(common.as_str(), "inc"));
        r.push(self.edl_path());
        assert(views(r@) =~= seq![join(common_path(self@), "inc"@), edl_path(self@)]);
        r
    }
}

} // verus!
