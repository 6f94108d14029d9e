//! Toolchain flags recovered from the SDK's build environment: the probe's
//! variable dump is parsed into a map from variable name to value.
use vstd::prelude::*;
use crate::entries::{entries_map, find_last, lemma_entries_map_absent, lemma_entries_map_last};
use crate::error::BuildError;
use crate::metadata::Mode;
use crate::paths::{join, join_path};
use crate::text::{chars_of, is_space, lines, split_chars, split_words, string_of, views, words};
use crate::BuildMetadata;

verus! {

/// Whether `l` holds the separator ` = ` at `i`.
pub open spec fn separator_at(l: Seq<char>, i: int) -> bool {
    0 <= i && i + 3 <= l.len() && l[i] == ' ' && l[i + 1] == '=' && l[i + 2] == ' '
}

/// The first index at or after `i` where ` = ` stands in `l`, or -1.
pub open spec fn find_separator(l: Seq<char>, i: int) -> int
    decreases l.len() - i,
{
    if i < 0 || i + 3 > l.len() {
        -1
    } else if separator_at(l, i) {
        i
    } else {
        find_separator(l, i + 1)
    }
}

/// A dump line `KEY = VALUE`: split at the first ` = `; the key is non-empty and
/// holds no whitespace, the value is the non-empty rest of the line.
pub open spec fn parse_line(l: Seq<char>) -> Option<(Seq<char>, Seq<char>)> {
    let j = find_separator(l, 0);
    if j < 0 {
        None
    } else {
        let k = l.subrange(0, j);
        let v = l.subrange(j + 3, l.len() as int);
        if k.len() == 0 || v.len() == 0 || exists|c: int| 0 <= c < k.len() && is_space(#[trigger] k[c]) {
            None
        } else {
            Some((k, v))
        }
    }
}

/// The entries of the lines of `ls` that parse, in order.
pub open spec fn parse_lines(ls: Seq<Seq<char>>) -> Seq<(Seq<char>, Seq<char>)>
    decreases ls.len(),
{
    if ls.len() == 0 {
        Seq::empty()
    } else {
        match parse_line(ls.last()) {
            Some(e) => parse_lines(ls.drop_last()).push(e),
            None => parse_lines(ls.drop_last()),
        }
    }
}

/// The entries of a probe's output, one per line that parses.
pub open spec fn parse_output(out: Seq<char>) -> Seq<(Seq<char>, Seq<char>)> {
    parse_lines(lines(out))
}

/// A line with no ` = ` yields no entry, and an entry that a line yields has a
/// non-empty key and a non-empty value that, joined by ` = `, give back the line.
pub proof fn lemma_flag_line(l: Seq<char>)
    ensures
        (forall|i: int| 0 <= i ==> !separator_at(l, i)) ==> parse_line(l) is None,
        parse_line(l) is Some ==> {
            let (k, v) = parse_line(l)->0;
            &&& k.len() > 0
            &&& v.len() > 0
            &&& l == k + seq![' ', '=', ' '] + v
        },
{
    lemma_find_separator(l, 0);
    let j = find_separator(l, 0);
    if j >= 0 {
        assert(l =~= l.subrange(0, j) + seq![' ', '=', ' '] + l.subrange(j + 3, l.len() as int));
    }
}

proof fn lemma_find_separator(l: Seq<char>, i: int)
    requires
        0 <= i,
    ensures
        find_separator(l, i) == -1 || (i <= find_separator(l, i) && separator_at(l, find_separator(l, i))),
    decreases l.len() - i,
{
    if i + 3 <= l.len() && !separator_at(l, i) {
        lemma_find_separator(l, i + 1);
    }
}

/// The entry that the dump line `l` gives, if it parses.
pub fn parse_flag_line(l: &Vec<char>) -> (r: Option<(String, String)>)
    ensures
        match r {
            Some(e) => parse_line(l@) == Some((e.0@, e.1@)),
            None => parse_line(l@) is None,
        },
{
    let n = l.len();
    let mut j: usize = 0;
    while n - j >= 3 && !(l[j] == ' ' && l[j + 1] == '=' && l[j + 2] == ' ')
        invariant
            j <= n,
            n == l@.len(),
            find_separator(l@, 0) == find_separator(l@, j as int),
        decreases n - j,
    {
        j = j + 1;
    }
    if n - j < 3 {
        return None;
    }
    assert(find_separator(l@, 0) == j);
    if j == 0 || j + 3 == n {
        return None;
    }
    let ghost k = l@.subrange(0, j as int);
    let mut c: usize = 0;
    while c < j
        invariant
            c <= j < n,
            n == l@.len(),
            find_separator(l@, 0) == j,
            k == l@.subrange(0, j as int),
            forall|d: int| 0 <= d < c ==> !is_space(#[trigger] k[d]),
        decreases j - c,
    {
        let ch = l[c];
        if ch == ' ' || ch == '\t' || ch == '\n' || ch == '\x0b' || ch == '\x0c' || ch == '\r' {
            assert(is_space(k[c as int]));
            return None;
        }
        c = c + 1;
    }
    let key = string_of(l, 0, j);
    let value = string_of(l, j + 3, n);
    Some((key, value))
}

/// The flags that the probe reported: one entry per line of its output that
/// parses, in output order. A later entry for a name replaces an earlier one.
pub struct BuildFlags {
    pub common_flags: Vec<(String, String)>,
}

/// The entries of `v` seen as characters.
pub open spec fn entry_views(v: Seq<(String, String)>) -> Seq<(Seq<char>, Seq<char>)> {
    v.map_values(|e: (String, String)| (e.0@, e.1@))
}

impl View for BuildFlags {
    type V = Map<Seq<char>, Seq<char>>;

    open spec fn view(&self) -> Map<Seq<char>, Seq<char>> {
        entries_map(entry_views(self.common_flags@))
    }
}

/// The name of the compiler of interface definitions in the probe's dump.
pub open spec fn edger8r_key() -> Seq<char> {
    "SGX_EDGER8R"@
}

/// The name of the framework SDK's interface-definition directory in the dump.
pub open spec fn edl_path_key() -> Seq<char> {
    "TEACLAVE_EDL_PATH"@
}

/// The name of the framework SDK's common directory in the dump.
pub open spec fn common_path_key() -> Seq<char> {
    "TEACLAVE_COMMON_PATH"@
}

/// The name of the host-side compiler flags in the dump.
pub open spec fn app_c_flags_key() -> Seq<char> {
    "App_C_Flags"@
}

/// The name of the resolved mode string in the dump.
pub open spec fn sgx_mode_key() -> Seq<char> {
    "SGX_MODE"@
}

/// The value of `key` in `m`, or the lookup error that names it.
pub open spec fn lookup_ok(m: Map<Seq<char>, Seq<char>>, key: Seq<char>, r: Result<String, BuildError>) -> bool {
    match r {
        Ok(v) => m.contains_key(key) && v@ == m[key],
        Err(e) => !m.contains_key(key) && e is Lookup && e->Lookup_0@ == key,
    }
}

/// The search roots that the SDK provides for interface definitions, in order:
/// its interface-definition directory, then `inc` under its common directory.
pub open spec fn sdk_search_paths(m: Map<Seq<char>, Seq<char>>) -> Seq<Seq<char>> {
    seq![m[edl_path_key()], join(m[common_path_key()], "inc"@)]
}

/// The probe's mode selector for `mode`.
pub open spec fn sgx_mode_value(mode: Mode) -> Seq<char> {
    if mode.hardware {
        "HW"@
    } else {
        "SIM"@
    }
}

/// The probe's debug selector for `mode`.
pub open spec fn sgx_debug_value(mode: Mode) -> Seq<char> {
    if mode.debug {
        "1"@
    } else {
        "0"@
    }
}

/// The scratch directory of the probe under `out_dir`.
pub open spec fn probe_dir(out_dir: Seq<char>) -> Seq<char> {
    join(out_dir, "_teaclave_sgx_builder_tmp_make"@)
}

impl BuildFlags {
    /// The mode selector handed to the probe: `HW` or `SIM`.
    pub fn sgx_mode_var(mode: &Mode) -> (r: &'static str)
        ensures
            r@ == sgx_mode_value(*mode),
    {
        if mode.hardware {
            "HW"
        } else {
            "SIM"
        }
    }

    /// The debug selector handed to the probe: `1` or `0`.
    pub fn sgx_debug_var(mode: &Mode) -> (r: &'static str)
        ensures
            r@ == sgx_debug_value(*mode),
    {
        if mode.debug {
            "1"
        } else {
            "0"
        }
    }

    /// The directory in which the probe runs, under `out_dir`.
    pub fn probe_dir(out_dir: &str) -> (r: String)
        ensures
            r@ == probe_dir(out_dir@),
    {
        join_path(out_dir, "_teaclave_sgx_builder_tmp_make")
    }

    /// The environment of the probe, in order: the framework SDK root, the platform
    /// SDK root, the mode selector and the debug selector.
    pub fn probe_env(build_metadata: &BuildMetadata) -> (r: Vec<(String, String)>)
        ensures
            entry_views(r@) == seq![
                ("_TEACLAVE_SGX_SDK_ROOT"@, build_metadata.teaclave_sgx_sdk@),
                ("SGX_SDK"@, build_metadata.intel_sgx_sdk@),
                ("SGX_MODE"@, sgx_mode_value(build_metadata.mode)),
                ("SGX_DEBUG"@, sgx_debug_value(build_metadata.mode)),
            ],
    {
        let mut r: Vec<(String, String)> = Vec::new();
        r.push(("_TEACLAVE_SGX_SDK_ROOT".to_owned(), build_metadata.teaclave_sgx_sdk.path().to_owned()));
        r.push(("SGX_SDK".to_owned(), build_metadata.intel_sgx_sdk.path().to_owned()));
        r.push(("SGX_MODE".to_owned(), Self::sgx_mode_var(&build_metadata.mode).to_owned()));
        r.push(("SGX_DEBUG".to_owned(), Self::sgx_debug_var(&build_metadata.mode).to_owned()));
        assert(entry_views(r@) =~= seq![
            ("_TEACLAVE_SGX_SDK_ROOT"@, build_metadata.teaclave_sgx_sdk@),
            ("SGX_SDK"@, build_metadata.intel_sgx_sdk@),
            ("SGX_MODE"@, sgx_mode_value(build_metadata.mode)),
            ("SGX_DEBUG"@, sgx_debug_value(build_metadata.mode)),
        ]);
        r
    }

    /// Parses the probe's output: each line `KEY = VALUE` gives an entry, the
    /// other lines are dropped.
    pub fn new(output: &str) -> (r: Self)
        ensures
            entry_views(r.common_flags@) == parse_output(output@),
    {
        let chars = chars_of(output);
        let ls = split_chars(&chars, false);
        let ghost lv = ls@.map_values(|p: Vec<char>| p@);
        let mut common_flags: Vec<(String, String)> = Vec::new();
        let mut i: usize = 0;
        while i < ls.len()
            invariant
                i <= ls@.len(),
                lv == ls@.map_values(|p: Vec<char>| p@),
                lv == lines(output@),
                entry_views(common_flags@) == parse_lines(lv.subrange(0, i as int)),
            decreases ls.len() - i,
        {
            let ghost sub = lv.subrange(0, i + 1);
            assert(sub.drop_last() =~= lv.subrange(0, i as int));
            match parse_flag_line(&ls[i]) {
                Some(e) => {
                    common_flags.push(e);
                },
                None => {},
            }
            assert(entry_views(common_flags@) =~= parse_lines(sub));
            i = i + 1;
        }
        assert(lv.subrange(0, lv.len() as int) =~= lv);
        BuildFlags { common_flags }
    }

    /// The value reported for `key`.
    pub fn get(&self, key: &str) -> (r: Result<String, BuildError>)
        ensures
            lookup_ok(self@, key@, r),
    {
        match find_last(&self.common_flags, key) {
            Some(i) => {
                proof {
                    lemma_entries_map_last(entry_views(self.common_flags@), key@, i as int);
                }
                Ok(self.common_flags[i].1.clone())
            },
            None => {
                proof {
                    lemma_entries_map_absent(entry_views(self.common_flags@), key@);
                }
                Err(BuildError::Lookup(key.to_owned()))
            },
        }
    }

    /// Where the compiler of interface definitions is.
    pub fn sgx_edger8r(&self) -> (r: Result<String, BuildError>)
        ensures
            lookup_ok(self@, edger8r_key(), r),
    {
        self.get("SGX_EDGER8R")
    }

    /// The framework SDK's interface-definition directory.
    pub fn teaclave_edl_path(&self) -> (r: Result<String, BuildError>)
        ensures
            lookup_ok(self@, edl_path_key(), r),
    {
        self.get("TEACLAVE_EDL_PATH")
    }

    /// The framework SDK's common directory.
    pub fn teaclave_common_path(&self) -> (r: Result<String, BuildError>)
        ensures
            lookup_ok(self@, common_path_key(), r),
    {
        self.get("TEACLAVE_COMMON_PATH")
    }

    /// The search roots that the SDK provides for interface definitions.
    pub fn teaclave_edl_search_path(&self) -> (r: Result<Vec<String>, BuildError>)
        ensures
            match r {
                Ok(v) => self@.contains_key(edl_path_key()) && self@.contains_key(common_path_key())
                    && views(v@) == sdk_search_paths(self@),
                Err(e) => {
                    if !self@.contains_key(edl_path_key()) {
                        e is Lookup && e->Lookup_0@ == edl_path_key()
                    } else {
                        !self@.contains_key(common_path_key()) && e is Lookup && e->Lookup_0@ == common_path_key()
                    }
                },
            },
    {
        let edl = self.teaclave_edl_path()?;
        let common = self.teaclave_common_path()?;
        let inc = join_path(common.as_str(), "inc");
        let mut v: Vec<String> = Vec::new();
        v.push(edl);
        v.push(inc);
        assert(views(v@) =~= sdk_search_paths(self@));
        Ok(v)
    }

    /// The host-side compiler flags, as one string.
    pub fn app_c_flag(&self) -> (r: Result<String, BuildError>)
        ensures
            lookup_ok(self@, app_c_flags_key(), r),
    {
        self.get("App_C_Flags")
    }

    /// The host-side compiler flags, split at whitespace, with no empty flag.
    pub fn app_c_flags(&self) -> (r: Result<Vec<String>, BuildError>)
        ensures
            match r {
                Ok(v) => self@.contains_key(app_c_flags_key()) && views(v@) == words(self@[app_c_flags_key()]),
                Err(e) => !self@.contains_key(app_c_flags_key()) && e is Lookup && e->Lookup_0@ == app_c_flags_key(),
            },
    {
        let s = self.app_c_flag()?;
        Ok(split_words(s.as_str()))
    }

    /// The resolved mode string.
    pub fn sgx_mode(&self) -> (r: Result<String, BuildError>)
        ensures
            lookup_ok(self@, sgx_mode_key(), r),
    {
        self.get("SGX_MODE")
    }
}

} // verus!
