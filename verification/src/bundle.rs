//! The bundle path resolver.
//!
//! The OCI argument grammar is not formally specified, so the resolver is
//! a pure parsing function over the ordered list of trailing tokens meant
//! for the underlying runtime. It scans for the first token equal to, or
//! prefixed by, `-b` or `--bundle`; a token holding `=` carries the path
//! after its first `=`, any other match takes the next token as the path.
//! No match at all means the invocation is not a creation call, which is
//! the normal outcome, never an error.
//!
//! Known heuristic limitation, kept deliberately for compatibility with
//! the flag parsing observed in common runtimes: a token that merely
//! starts with `-b` (say `-bundle-ish`) counts as a match.

use vstd::prelude::*;
use vstd::string::StrSliceExecFns;
use vstd::string::StringExecFns;

use crate::strutil::{find_eq, first_eq_at, is_prefix_of, lemma_first_eq_at_bounds, str_has_prefix};

verus! {

/// The token matches the creation-call heuristic: it starts with the
/// short or the long bundle flag.
pub open spec fn is_bundle_flag(t: Seq<char>) -> bool {
    is_prefix_of("-b"@, t) || is_prefix_of("--bundle"@, t)
}

/// The path a matched token carries by itself: the text after its first
/// `=`, if it has one.
pub open spec fn flag_inline_path(t: Seq<char>) -> Option<Seq<char>> {
    let k = first_eq_at(t, 0);
    if k < t.len() {
        Some(t.subrange(k + 1, t.len() as int))
    } else {
        None
    }
}

/// The resolver's result on the tokens from position `k` on: the bundle
/// path of the first matching token, or `None` when no token from `k` on
/// matches, or when the match needs a following token and none is there.
pub open spec fn bundle_path_from(opts: Seq<Seq<char>>, k: int) -> Option<Seq<char>>
    decreases opts.len() - k,
{
    if k < 0 || k >= opts.len() {
        None
    } else if is_bundle_flag(opts[k]) {
        match flag_inline_path(opts[k]) {
            Some(p) => Some(p),
            None => if k + 1 < opts.len() {
                Some(opts[k + 1])
            } else {
                None
            },
        }
    } else {
        bundle_path_from(opts, k + 1)
    }
}

/// The resolver's result on the whole token list.
pub open spec fn bundle_path_spec(opts: Seq<Seq<char>>) -> Option<Seq<char>> {
    bundle_path_from(opts, 0)
}

/// Extracts the container bundle path from the trailing runtime options,
/// if present. Absence means the invocation is not a creation call.
pub fn get_bundle_path(options: &Vec<String>) -> (r: Option<String>)
    ensures
        match r {
            Some(p) => bundle_path_spec(options.deep_view()) == Some(p@),
            None => bundle_path_spec(options.deep_view()) is None,
        },
{
    let ghost opts = options.deep_view();
    let mut k: usize = 0;
    while k < options.len()
        invariant
            k <= options.len(),
            opts == options.deep_view(),
            bundle_path_from(opts, 0) == bundle_path_from(opts, k as int),
        decreases options.len() - k,
    {
        proof {
            assert(opts[k as int] == options@[k as int]@);
        }
        let tok = &options[k];
        if str_has_prefix(tok.as_str(), "-b") || str_has_prefix(tok.as_str(), "--bundle") {
            let n = tok.as_str().unicode_len();
            let e = find_eq(tok.as_str());
            proof {
                lemma_first_eq_at_bounds(tok@, 0);
            }
            if e < n {
                let path = tok.as_str().substring_char(e + 1, n);
                return Some(String::from_str(path));
            } else if k + 1 < options.len() {
                proof {
                    assert(opts[k as int + 1] == options@[k as int + 1]@);
                }
                return Some(options[k + 1].clone());
            } else {
                return None;
            }
        }
        k += 1;
    }
    None
}

/// The creation-call heuristic, stated of every token list: if token `i`
/// is the first bundle flag, the resolver yields exactly the path that
/// token carries — the text after its first `=`, or the following token —
/// and fails silently when a following token is needed and none is there.
pub proof fn lemma_resolver_yields_path(opts: Seq<Seq<char>>, i: int)
    requires
        0 <= i < opts.len(),
        is_bundle_flag(opts[i]),
        forall|j: int| 0 <= j < i ==> !is_bundle_flag(opts[j]),
    ensures
        match flag_inline_path(opts[i]) {
            Some(p) => bundle_path_spec(opts) == Some(p),
            None => bundle_path_spec(opts) == if i + 1 < opts.len() {
                Some(opts[i + 1])
            } else {
                None::<Seq<char>>
            },
        },
    decreases i,
{
    if i > 0 {
        lemma_bundle_path_from_step(opts, 0, i);
    }
}

proof fn lemma_bundle_path_from_step(opts: Seq<Seq<char>>, k: int, i: int)
    requires
        0 <= k <= i <= opts.len(),
        forall|j: int| k <= j < i ==> !is_bundle_flag(opts[j]),
    ensures
        bundle_path_from(opts, k) == bundle_path_from(opts, i),
    decreases i - k,
{
    if k < i {
        lemma_bundle_path_from_step(opts, k + 1, i);
    }
}

/// Absence of the bundle flag, stated of every token list: when no token
/// matches the heuristic, the resolver yields `None` — the normal outcome
/// for every non-creation invocation, never an error.
pub proof fn lemma_resolver_absent(opts: Seq<Seq<char>>)
    requires
        forall|j: int| 0 <= j < opts.len() ==> !is_bundle_flag(opts[j]),
    ensures
        bundle_path_spec(opts) is None,
{
    lemma_bundle_path_from_step(opts, 0, opts.len() as int);
}

} // verus!
