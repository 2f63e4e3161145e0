//! Finds the bundled brand fonts of a development checkout or unpacked
//! build: the first `data/fonts` directory found walking up from the running
//! executable.

use vstd::prelude::*;

verus! {

/// What `Path::ancestors` yields for a path, each ancestor as text: the path
/// itself first, then each parent up to the root.
pub uninterp spec fn path_ancestors(path: Seq<char>) -> Seq<Seq<char>>;

/// What `Path::join` gives for a base and a relative tail, as text.
pub uninterp spec fn path_join(base: Seq<char>, tail: Seq<char>) -> Seq<char>;

/// Calls `Path::ancestors`, taking each ancestor as text. Its result is named
/// `path_ancestors`; the one fact stated of it is the documented one, that
/// the path itself comes first.
#[verifier::external_body]
fn ancestors(path: &str) -> (r: Vec<String>)
    ensures
        r@.map_values(|a: String| a@) == path_ancestors(path@),
        r@.len() >= 1,
        r@[0]@ == path@,
{
    std::path::Path::new(path).ancestors().map(|a| a.to_string_lossy().into_owned()).collect()
}

/// Calls `Path::join`, taking the joined path as text. Its result is named
/// `path_join`, and nothing more is claimed of it.
#[verifier::external_body]
pub(crate) fn join(base: &str, tail: &str) -> (r: String)
    ensures
        r@ == path_join(base@, tail@),
{
    std::path::Path::new(base).join(tail).to_string_lossy().into_owned()
}

/// The `data/fonts` candidate beside ancestor `i` of the executable.
pub open spec fn candidate(exe_path: Seq<char>, i: int) -> Seq<char> {
    path_join(path_ancestors(exe_path)[i], "data/fonts"@)
}

/// `is_dir` was asked about a path with these characters and said no.
pub open spec fn not_a_dir<F: Fn(&str) -> bool>(is_dir: F, path: Seq<char>) -> bool {
    exists|s: &str| s@ == path && #[trigger] is_dir.ensures((s,), false)
}

/// The walk stops at ancestor `i`: every nearer ancestor has no `data/fonts`
/// directory, and either `i` is past the root and nothing was found, or
/// ancestor `i`'s candidate is a directory and is the result.
pub open spec fn found_at<F: Fn(&str) -> bool>(
    is_dir: F,
    exe_path: Seq<char>,
    i: int,
    found: Option<String>,
) -> bool {
    let chain = path_ancestors(exe_path);
    &&& 0 <= i <= chain.len()
    &&& forall|j: int| 0 <= j < i ==> not_a_dir(is_dir, #[trigger] candidate(exe_path, j))
    &&& if i == chain.len() {
        found is None
    } else {
        found matches Some(dir) && dir@ == candidate(exe_path, i) && exists|s: &str|
            s@ == dir@ && #[trigger] is_dir.ensures((s,), true)
    }
}

/// Walks up from `exe_path` looking for a sibling `data/fonts` directory,
/// stopping at the first ancestor that has one; `None` when the walk reaches
/// the root without finding one, as for an installed binary.
pub fn find_data_fonts_dir(exe_path: &str, is_dir: impl Fn(&str) -> bool) -> (found: Option<String>)
    requires
        forall|s: &str| is_dir.requires((s,)),
    ensures
        exists|i: int| found_at(is_dir, exe_path@, i, found),
{
    let chain = ancestors(exe_path);
    let ghost views = path_ancestors(exe_path@);
    let n = chain.len();
    let mut i: usize = 0;
    while i < n
        invariant
            n == chain@.len(),
            chain@.map_values(|a: String| a@) == views,
            views == path_ancestors(exe_path@),
            i <= n,
            forall|s: &str| is_dir.requires((s,)),
            forall|j: int| 0 <= j < i ==> not_a_dir(is_dir, #[trigger] candidate(exe_path@, j)),
        decreases n - i,
    {
        assert(chain@[i as int]@ == views[i as int]);
        let dir = join(chain[i].as_str(), "data/fonts");
        if is_dir(dir.as_str()) {
            assert(found_at(is_dir, exe_path@, i as int, Some(dir)));
            return Some(dir);
        }
        assert(not_a_dir(is_dir, candidate(exe_path@, i as int)));
        i = i + 1;
    }
    assert(found_at(is_dir, exe_path@, n as int, None));
    None
}

/// Where the bundled fonts are: the override directory when one is set,
/// else the `data/fonts` directory found walking up from the running
/// executable; `None` when neither gives one (an installed package, or no
/// known executable path).
pub fn resolve_font_dir_from(
    override_dir: Option<String>,
    exe_path: Option<&str>,
    is_dir: impl Fn(&str) -> bool,
) -> (found: Option<String>)
    requires
        forall|s: &str| is_dir.requires((s,)),
    ensures
        match override_dir {
            Some(dir) => found == Some(dir),
            None => match exe_path {
                None => found is None,
                Some(exe) => exists|i: int| found_at(is_dir, exe@, i, found),
            },
        },
{
    match override_dir {
        Some(dir) => Some(dir),
        None => match exe_path {
            None => None,
            Some(exe) => find_data_fonts_dir(exe, is_dir),
        },
    }
}

} // verus!
