//! The interface definition and the invocation of its compiler.
use vstd::prelude::*;
use crate::metadata::{rerun_directive, rerun_instruction, Metadata};
use crate::paths::{base_name, base_name_of, join, join_path};
use crate::error::BuildError;
use crate::flags::{edl_path_key, common_path_key, sdk_search_paths};
use crate::text::{concat, views};
use crate::BuildContext;

verus! {

/// An interface definition and the extra directories searched for the
/// definitions that it imports.
pub struct EDLMetadata {
    pub path: String,
    pub search_paths: Vec<String>,
}

/// An interface definition seen as characters.
pub struct EdlView {
    pub path: Seq<char>,
    pub search_paths: Seq<Seq<char>>,
}

impl View for EDLMetadata {
    type V = EdlView;

    open spec fn view(&self) -> EdlView {
        EdlView { path: self.path@, search_paths: views(self.search_paths@) }
    }
}

impl Metadata for EDLMetadata {
    open spec fn canonicalized(v: EdlView, base: Seq<char>) -> EdlView {
        EdlView {
            path: join(base, v.path),
            search_paths: v.search_paths.map_values(|p: Seq<char>| join(base, p)),
        }
    }

    open spec fn watched(v: EdlView) -> Seq<Seq<char>> {
        v.search_paths.push(v.path)
    }

    fn canonicalize(&mut self, base: &str) {
        let path = join_path(base, self.path.as_str());
        let search_paths = join_all(base, &self.search_paths);
        self.path = path;
        self.search_paths = search_paths;
    }

    fn set_cargo_instruction(&self) -> (r: Vec<String>) {
        let mut r = rerun_all(&self.search_paths);
        let ghost r0 = r@;
        r.push(rerun_instruction(self.path.as_str()));
        let ghost w = Self::watched(self@).map_values(|p: Seq<char>| rerun_directive(p));
        let ghost sp = views(self.search_paths@);
        assert(Self::watched(self@) == sp.push(self.path@));
        assert(views(r0).len() == r0.len());
        assert(w.len() == r@.len());
        assert forall|k: int| 0 <= k < r0.len() implies views(r@)[k] == w[k] by {
            assert(views(r0)[k] == sp.map_values(|p: Seq<char>| rerun_directive(p))[k]);
            assert(views(r0)[k] == r0[k]@);
            assert(r@[k] == r0[k]);
            assert(sp.push(self.path@)[k] == sp[k]);
            assert(w[k] == rerun_directive(sp[k]));
        }
        assert(views(r@) =~= w);
        r
    }
}

/// Each of `ps` taken relative to `base`.
fn join_all(base: &str, ps: &Vec<String>) -> (r: Vec<String>)
    ensures
        views(r@) == views(ps@).map_values(|p: Seq<char>| join(base@, p)),
{
    let mut r: Vec<String> = Vec::new();
    let mut i: usize = 0;
    while i < ps.len()
        invariant
            i <= ps@.len(),
            r@.len() == i,
            forall|k: int| 0 <= k < i ==> #[trigger] r@[k]@ == join(base@, ps@[k]@),
        decreases ps@.len() - i,
    {
        let p = join_path(base, ps[i].as_str());
        r.push(p);
        i = i + 1;
    }
    assert(views(r@) =~= views(ps@).map_values(|p: Seq<char>| join(base@, p)));
    r
}

/// One rebuild directive for each of `ps`.
fn rerun_all(ps: &Vec<String>) -> (r: Vec<String>)
    ensures
        views(r@) == views(ps@).map_values(|p: Seq<char>| rerun_directive(p)),
{
    let mut r: Vec<String> = Vec::new();
    let mut i: usize = 0;
    while i < ps.len()
        invariant
            i <= ps@.len(),
            r@.len() == i,
            forall|k: int| 0 <= k < i ==> #[trigger] r@[k]@ == rerun_directive(ps@[k]@),
        decreases ps@.len() - i,
    {
        r.push(rerun_instruction(ps[i].as_str()));
        i = i + 1;
    }
    assert(views(r@) =~= views(ps@).map_values(|p: Seq<char>| rerun_directive(p)));
    r
}

/// Where the compiler of interface definitions writes, and for which side.
pub enum OutputDir {
    Trusted(String),
    Untrusted(String),
}

/// `--search-path <dir>` for each of `ps`, in order.
pub open spec fn search_args(ps: Seq<Seq<char>>) -> Seq<Seq<char>>
    decreases ps.len(),
{
    if ps.len() == 0 {
        Seq::empty()
    } else {
        search_args(ps.drop_last()) + seq!["--search-path"@, ps.last()]
    }
}

/// The arguments that name the definition and the output directory of a side.
pub open spec fn role_args(edl: Seq<char>, out: OutputDir) -> Seq<Seq<char>> {
    match out {
        OutputDir::Trusted(d) => seq!["--trusted"@, edl, "--trusted-dir"@, d@],
        OutputDir::Untrusted(d) => seq!["--untrusted"@, edl, "--untrusted-dir"@, d@],
    }
}

/// The compiler's arguments: the SDK's search roots, then the declared search
/// paths, then the definition and the output directory of the side.
pub open spec fn edger8r_args(
    sdk: Seq<Seq<char>>,
    declared: Seq<Seq<char>>,
    edl: Seq<char>,
    out: OutputDir,
) -> Seq<Seq<char>> {
    search_args(sdk + declared) + role_args(edl, out)
}

/// A run of the compiler of interface definitions for one side.
pub struct SgxEdger8rCommand<'a> {
    pub build_context: &'a BuildContext,
    pub output_dir: OutputDir,
}

impl<'a> SgxEdger8rCommand<'a> {
    /// A run that writes the trusted side into `output_dir`.
    pub fn trusted(build_context: &'a BuildContext, output_dir: String) -> (r: Self)
        ensures
            r.build_context == build_context,
            r.output_dir == OutputDir::Trusted(output_dir),
    {
        SgxEdger8rCommand { build_context, output_dir: OutputDir::Trusted(output_dir) }
    }

    /// A run that writes the untrusted side into `output_dir`.
    pub fn untrusted(build_context: &'a BuildContext, output_dir: String) -> (r: Self)
        ensures
            r.build_context == build_context,
            r.output_dir == OutputDir::Untrusted(output_dir),
    {
        SgxEdger8rCommand { build_context, output_dir: OutputDir::Untrusted(output_dir) }
    }

    /// The arguments of the run; fails when the probe reported no
    /// interface-definition directory or no common directory.
    pub fn generate_command_args(&self) -> (r: Result<Vec<String>, BuildError>)
        ensures
            ({
                let m = self.build_context.flags@;
                let edl = self.build_context.metadata.edl;
                match r {
                    Ok(v) => m.contains_key(edl_path_key()) && m.contains_key(common_path_key())
                        && views(v@) == edger8r_args(sdk_search_paths(m), views(edl.search_paths@), edl.path@, self.output_dir),
                    Err(e) => {
                        if !m.contains_key(edl_path_key()) {
                            e is Lookup && e->Lookup_0@ == edl_path_key()
                        } else {
                            !m.contains_key(common_path_key()) && e is Lookup && e->Lookup_0@ == common_path_key()
                        }
                    },
                }
            }),
    {
        let edl = &self.build_context.metadata.edl;
        let sdk = self.build_context.flags.teaclave_edl_search_path()?;
        let ghost all = views(sdk@) + views(edl.search_paths@);
        let mut args: Vec<String> = Vec::new();
        let mut i: usize = 0;
        while i < sdk.len()
            invariant
                i <= sdk@.len(),
                all == views(sdk@) + views(edl.search_paths@),
                views(args@) == search_args(all.subrange(0, i as int)),
            decreases sdk@.len() - i,
        {
            args.push("--search-path".to_owned());
            args.push(sdk[i].clone());
            proof {
                assert(all.subrange(0, i + 1).drop_last() =~= all.subrange(0, i as int));
                assert(views(sdk@)[i as int] == sdk@[i as int]@);
            }
            i = i + 1;
            assert(views(args@) =~= search_args(all.subrange(0, i as int)));
        }
        let mut j: usize = 0;
        while j < edl.search_paths.len()
            invariant
                j <= edl.search_paths@.len(),
                sdk@.len() == views(sdk@).len(),
                all == views(sdk@) + views(edl.search_paths@),
                views(args@) == search_args(all.subrange(0, sdk@.len() + j)),
            decreases edl.search_paths@.len() - j,
        {
            args.push("--search-path".to_owned());
            args.push(edl.search_paths[j].clone());
            proof {
                let k = sdk@.len() + j;
                assert(all.subrange(0, k + 1).drop_last() =~= all.subrange(0, k));
                assert(all[k] == views(edl.search_paths@)[j as int]);
            }
            j = j + 1;
            assert(views(args@) =~= search_args(all.subrange(0, sdk@.len() + j)));
        }
        assert(all.subrange(0, all.len() as int) =~= all);
        let ghost before = args@;
        match &self.output_dir {
            OutputDir::Trusted(d) => {
                args.push("--trusted".to_owned());
                args.push(edl.path.clone());
                args.push("--trusted-dir".to_owned());
                args.push(d.clone());
            },
            OutputDir::Untrusted(d) => {
                args.push("--untrusted".to_owned());
                args.push(edl.path.clone());
                args.push("--untrusted-dir".to_owned());
                args.push(d.clone());
            },
        }
        assert(views(args@) =~= views(before) + role_args(edl.path@, self.output_dir));
        Ok(args)
    }
}

/// The name of the generated file for the definition at `p` with `suffix`
/// appended to its base name.
pub open spec fn suffixed_name(p: Seq<char>, suffix: Seq<char>) -> Option<Seq<char>> {
    match base_name(p) {
        Some(b) => Some(b + suffix),
        None => None,
    }
}

/// What a function that appends `suffix` to the base name of `p` returns.
pub open spec fn named_as(r: Option<String>, p: Seq<char>, suffix: Seq<char>) -> bool {
    &&& r is Some <==> suffixed_name(p, suffix) is Some
    &&& r is Some ==> r->0@ == suffixed_name(p, suffix)->0
}

impl EDLMetadata {
    /// The file name of the definition up to its first dot that is not its first
    /// character: `service` for `service.edl`.
    pub fn edl_file_name(&self) -> (r: Option<String>)
        ensures
            r is Some <==> base_name(self.path@) is Some,
            r is Some ==> r->0@ == base_name(self.path@)->0,
    {
        base_name_of(self.path.as_str())
    }

    /// The base name followed by `suffix`.
    pub fn file_name_suffix_of(&self, suffix: &str) -> (r: Option<String>)
        ensures
            named_as(r, self.path@, suffix@),
    {
        match self.edl_file_name() {
            Some(b) => Some(concat(b.as_str(), suffix)),
            None => None,
        }
    }

    /// `<base>_u`, the name of the untrusted library.
    pub fn untrusted_name(&self) -> (r: Option<String>)
        ensures
            named_as(r, self.path@, "_u"@),
    {
        self.file_name_suffix_of("_u")
    }

    /// `<base>_t`, the name of the trusted library.
    pub fn trusted_name(&self) -> (r: Option<String>)
        ensures
            named_as(r, self.path@, "_t"@),
    {
        self.file_name_suffix_of("_t")
    }

    /// `<base>_t.h`.
    pub fn trusted_header(&self) -> (r: Option<String>)
        ensures
            named_as(r, self.path@, "_t.h"@),
    {
        self.file_name_suffix_of("_t.h")
    }

    /// `<base>_t.c`.
    pub fn trusted_source(&self) -> (r: Option<String>)
        ensures
            named_as(r, self.path@, "_t.c"@),
    {
        self.file_name_suffix_of("_t.c")
    }

    /// `<base>_u.h`.
    pub fn untrusted_header(&self) -> (r: Option<String>)
        ensures
            named_as(r, self.path@, "_u.h"@),
    {
        self.file_name_suffix_of("_u.h")
    }

    /// `<base>_u.c`.
    pub fn untrusted_source(&self) -> (r: Option<String>)
        ensures
            named_as(r, self.path@, "_u.c"@),
    {
        self.file_name_suffix_of("_u.c")
    }
}

} // verus!
