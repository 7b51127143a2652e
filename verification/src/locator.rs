//! Locating the configuration document.
//!
//! An explicit override path, when one is given, is used verbatim and
//! nothing is searched. Otherwise the search starts from the current
//! working directory — given here as the components of its absolute,
//! symlink-resolved path — and probes `<dir>/.vscode/tasks.json` in that
//! directory and then in each parent up to the filesystem root. The
//! probe results are given as the set of paths that exist as regular
//! files; the caller performs the actual filesystem checks.

use vstd::prelude::*;
use crate::json::str_eq;

verus! {

/// Locating failed: no override was given and no directory on the way
/// to the root holds the configuration file. Distinguishable from a
/// parse failure: nothing was found, so nothing was read.
#[derive(Debug, Clone, Copy, PartialEq, Eq, Structural)]
pub enum LocateError {
    NotFound,
}

/// The views of a list of path components.
pub open spec fn spec_comps(comps: Seq<String>) -> Seq<Seq<char>> {
    comps.map_values(|s: String| s@)
}

/// The absolute path of the directory made of `comps`: `/` before each
/// component; no components is the filesystem root, rendered empty so
/// that joining a child below yields `/child`.
pub open spec fn spec_render_dir(comps: Seq<Seq<char>>) -> Seq<char>
    decreases comps.len(),
{
    if comps.len() == 0 {
        Seq::<char>::empty()
    } else {
        spec_render_dir(comps.drop_last()) + "/"@ + comps.last()
    }
}

/// The path probed inside the directory made of `comps`.
pub open spec fn spec_candidate(comps: Seq<Seq<char>>, child: Seq<char>) -> Seq<char> {
    spec_render_dir(comps) + "/"@ + child
}

/// Whether some path in `paths` reads exactly `p`.
pub open spec fn spec_contains_path(paths: Seq<String>, p: Seq<char>) -> bool {
    exists|i: int| 0 <= i < paths.len() && #[trigger] paths[i]@ == p
}

/// Render `<first k components>/child`.
fn join_candidate(comps: &Vec<String>, k: usize, child: &str) -> (r: String)
    requires
        k <= comps@.len(),
    ensures
        r@ == spec_candidate(spec_comps(comps@).take(k as int), child@),
{
    let mut d = String::new();
    let mut i: usize = 0;
    assert(spec_comps(comps@).take(0) =~= Seq::<Seq<char>>::empty());
    while i < k
        invariant
            i <= k <= comps@.len(),
            d@ == spec_render_dir(spec_comps(comps@).take(i as int)),
        decreases k - i,
    {
        d.append("/");
        d.append(comps[i].as_str());
        proof {
            let v = spec_comps(comps@);
            assert(v.take(i + 1).drop_last() =~= v.take(i as int));
            assert(v.take(i + 1).last() == v[i as int]);
        }
        i = i + 1;
    }
    d.append("/");
    d.append(child);
    d
}

/// Every path the upward search would probe, nearest directory first,
/// the filesystem root last.
pub fn candidate_paths(comps: &Vec<String>, child: &str) -> (r: Vec<String>)
    ensures
        r@.len() == comps@.len() + 1,
        forall|i: int|
            0 <= i < r@.len() ==> (#[trigger] r@[i])@ == spec_candidate(
                spec_comps(comps@).take(comps@.len() - i),
                child@,
            ),
{
    let n = comps.len();
    let mut out: Vec<String> = Vec::new();
    out.push(join_candidate(comps, n, child));
    let mut k = n;
    while k > 0
        invariant
            k <= n,
            n == comps@.len(),
            out@.len() == n - k + 1,
            forall|i: int|
                0 <= i < out@.len() ==> (#[trigger] out@[i])@ == spec_candidate(
                    spec_comps(comps@).take(n - i),
                    child@,
                ),
        decreases k,
    {
        k = k - 1;
        out.push(join_candidate(comps, k, child));
    }
    out
}

/// Whether `p` occurs among `paths`.
fn contains_path(paths: &Vec<String>, p: &str) -> (r: bool)
    ensures
        r == spec_contains_path(paths@, p@),
{
    let mut i: usize = 0;
    while i < paths.len()
        invariant
            i <= paths@.len(),
            forall|j: int| 0 <= j < i ==> #[trigger] paths@[j]@ != p@,
        decreases paths@.len() - i,
    {
        if str_eq(paths[i].as_str(), p) {
            return true;
        }
        i = i + 1;
    }
    false
}

/// The upward search: the probed path of the nearest directory (most
/// components kept) that holds the file, or nothing when none does up
/// to the root. `existing` is the set of paths that exist as regular
/// files.
pub fn find_in_parents(comps: &Vec<String>, child: &str, existing: &Vec<String>) -> (r: Option<
    String,
>)
    ensures
        r is None <==> (forall|k: int|
            0 <= k <= comps@.len() ==> !spec_contains_path(
                existing@,
                #[trigger] spec_candidate(spec_comps(comps@).take(k), child@),
            )),
        r matches Some(p) ==> exists|k: int|
            {
                &&& 0 <= k <= comps@.len()
                &&& p@ == spec_candidate(spec_comps(comps@).take(k), child@)
                &&& spec_contains_path(
                    existing@,
                    #[trigger] spec_candidate(spec_comps(comps@).take(k), child@),
                )
                &&& forall|m: int|
                    k < m <= comps@.len() ==> !spec_contains_path(
                        existing@,
                        #[trigger] spec_candidate(spec_comps(comps@).take(m), child@),
                    )
            },
{
    let n = comps.len();
    let cands = candidate_paths(comps, child);
    let mut i: usize = 0;
    while i < cands.len()
        invariant
            i <= cands@.len(),
            n == comps@.len(),
            cands@.len() == n + 1,
            forall|j: int|
                0 <= j < cands@.len() ==> (#[trigger] cands@[j])@ == spec_candidate(
                    spec_comps(comps@).take(n - j),
                    child@,
                ),
            forall|j: int|
                0 <= j < i ==> !spec_contains_path(
                    existing@,
                    #[trigger] spec_candidate(spec_comps(comps@).take(n - j), child@),
                ),
        decreases cands@.len() - i,
    {
        if contains_path(existing, cands[i].as_str()) {
            let p = cands[i].clone();
            proof {
                let k = n - i;
                assert(p@ == spec_candidate(spec_comps(comps@).take(k), child@));
                assert forall|m: int| k < m <= comps@.len() implies !spec_contains_path(
                    existing@,
                    #[trigger] spec_candidate(spec_comps(comps@).take(m), child@),
                ) by {
                    let j = n - m;
                    assert(!spec_contains_path(
                        existing@,
                        spec_candidate(spec_comps(comps@).take(n - j), child@),
                    ));
                }
            }
            return Some(p);
        }
        i = i + 1;
    }
    proof {
        assert forall|k: int| 0 <= k <= comps@.len() implies !spec_contains_path(
            existing@,
            #[trigger] spec_candidate(spec_comps(comps@).take(k), child@),
        ) by {
            let j = n - k;
            assert(!spec_contains_path(
                existing@,
                spec_candidate(spec_comps(comps@).take(n - j), child@),
            ));
        }
    }
    None
}

/// Which path holds the configuration document: an override path is
/// taken verbatim, with nothing probed; otherwise the upward search for
/// `.vscode/tasks.json` from the working directory decides, and reaching
/// the root without a hit is the not-found failure.
pub fn find_config_path(override_path: Option<String>, cwd: &Vec<String>, existing: &Vec<String>)
    -> (r: Result<String, LocateError>)
    ensures
        override_path matches Some(p) ==> r matches Ok(q) && q@ == p@,
        override_path is None ==> match r {
            Ok(q) => exists|k: int|
                {
                    &&& 0 <= k <= cwd@.len()
                    &&& q@ == spec_candidate(spec_comps(cwd@).take(k), ".vscode/tasks.json"@)
                    &&& spec_contains_path(
                        existing@,
                        #[trigger] spec_candidate(spec_comps(cwd@).take(k), ".vscode/tasks.json"@),
                    )
                    &&& forall|m: int|
                        k < m <= cwd@.len() ==> !spec_contains_path(
                            existing@,
                            #[trigger] spec_candidate(
                                spec_comps(cwd@).take(m),
                                ".vscode/tasks.json"@,
                            ),
                        )
                },
            Err(e) => e == LocateError::NotFound && (forall|k: int|
                0 <= k <= cwd@.len() ==> !spec_contains_path(
                    existing@,
                    #[trigger] spec_candidate(spec_comps(cwd@).take(k), ".vscode/tasks.json"@),
                )),
        },
{
    match override_path {
        Some(p) => Ok(p),
        None => match find_in_parents(cwd, ".vscode/tasks.json", existing) {
            Some(p) => Ok(p),
            None => Err(LocateError::NotFound),
        },
    }
}

} // verus!
