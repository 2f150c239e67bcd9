//! Lexical path manipulation: splitting into components, joining,
//! and normalization of `.` and `..`.

use vstd::prelude::*;

use crate::text::{str_chars, str_eq};

verus! {

/// Index just past the run of non-separator characters starting at `i`.
pub open spec fn run_end(s: Seq<char>, i: int) -> int
    decreases s.len() - i,
{
    if i >= s.len() || s[i] == '/' {
        i
    } else {
        run_end(s, i + 1)
    }
}

pub proof fn lemma_run_end_bounds(s: Seq<char>, i: int)
    requires
        0 <= i <= s.len(),
    ensures
        i <= run_end(s, i) <= s.len(),
        forall|j: int| i <= j < run_end(s, i) ==> s[j] != '/',
        run_end(s, i) < s.len() ==> s[run_end(s, i)] == '/',
    decreases s.len() - i,
{
    if i < s.len() && s[i] != '/' {
        lemma_run_end_bounds(s, i + 1);
    }
}

/// `j` is the unique index with the run-end properties for `i`.
pub proof fn lemma_run_end_unique(s: Seq<char>, i: int, j: int)
    requires
        0 <= i <= j <= s.len(),
        forall|k: int| i <= k < j ==> s[k] != '/',
        j < s.len() ==> s[j] == '/',
    ensures
        run_end(s, i) == j,
    decreases j - i,
{
    if i < j {
        lemma_run_end_unique(s, i + 1, j);
    }
}

/// The path components (maximal runs of non-separator characters)
/// of `s`, reading from position `i` on.
pub open spec fn comps_from(s: Seq<char>, i: int) -> Seq<Seq<char>>
    decreases s.len() - i,
        when 0 <= i <= s.len()
        via comps_from_decreases
{
    if i >= s.len() {
        seq![]
    } else if s[i] == '/' {
        comps_from(s, i + 1)
    } else {
        seq![s.subrange(i, run_end(s, i))] + comps_from(s, run_end(s, i))
    }
}

#[via_fn]
proof fn comps_from_decreases(s: Seq<char>, i: int) {
    if i < s.len() && s[i] != '/' {
        lemma_run_end_bounds(s, i + 1);
    }
}

/// The path components of the text `s`.
pub open spec fn components_of(s: Seq<char>) -> Seq<Seq<char>> {
    comps_from(s, 0)
}

/// Splits a path into its components; separators are dropped, so
/// repeated or trailing separators do not produce empty components.
pub fn split_path(path: &str) -> (r: Vec<String>)
    ensures
        r.deep_view() == components_of(path@),
{
    let chars = str_chars(path);
    let len = chars.len();
    let mut r: Vec<String> = Vec::new();
    let mut i: usize = 0;
    while i < len
        invariant
            i <= len,
            len == path@.len(),
            chars@ == path@,
            r.deep_view() + comps_from(path@, i as int) == components_of(path@),
        decreases len - i,
    {
        if chars[i] == '/' {
            i += 1;
        } else {
            let start = i;
            let mut j = i;
            loop
                invariant
                    start <= j <= len,
                    len == path@.len(),
                    chars@ == path@,
                    forall|k: int| start <= k < j ==> path@[k] != '/',
                ensures
                    start <= j <= len,
                    forall|k: int| start <= k < j ==> path@[k] != '/',
                    j < len ==> path@[j as int] == '/',
                decreases len - j,
            {
                if j == len {
                    break ;
                }
                if chars[j] == '/' {
                    break ;
                }
                j += 1;
            }
            proof {
                lemma_run_end_unique(path@, start as int, j as int);
            }
            let comp = String::from_str(path.substring_char(start, j));
            let ghost dv_before = r.deep_view();
            r.push(comp);
            proof {
                assert(r.deep_view() =~= dv_before.push(path@.subrange(start as int, j as int)));
                assert(r.deep_view() + comps_from(path@, j as int) =~= dv_before + comps_from(
                    path@,
                    start as int,
                ));
            }
            i = j;
        }
    }
    proof {
        assert(r.deep_view() + comps_from(path@, len as int) =~= r.deep_view());
    }
    r
}

/// The text `/c0/c1/.../cn` for the components given; empty for no
/// components.
pub open spec fn joined_r(comps: Seq<Seq<char>>) -> Seq<char>
    decreases comps.len(),
{
    if comps.len() == 0 {
        Seq::empty()
    } else {
        joined_r(comps.drop_last()) + seq!['/'] + comps.last()
    }
}

/// The text of the absolute path with the given components; the root
/// path for none.
pub open spec fn joined(comps: Seq<Seq<char>>) -> Seq<char> {
    if comps.len() == 0 {
        seq!['/']
    } else {
        joined_r(comps)
    }
}

/// Writes `/c0/c1/.../cn`, or nothing for no components.
pub fn join_r(comps: &Vec<String>) -> (r: String)
    ensures
        r@ == joined_r(comps.deep_view()),
{
    let mut s = String::new();
    let mut k: usize = 0;
    while k < comps.len()
        invariant
            k <= comps.len(),
            s@ == joined_r(comps.deep_view().take(k as int)),
        decreases comps.len() - k,
    {
        s.append("/");
        s.append(comps[k].as_str());
        proof {
            reveal_strlit("/");
            let dv = comps.deep_view();
            assert(dv.take((k + 1) as int).drop_last() =~= dv.take(k as int));
            assert(dv.take((k + 1) as int).last() == dv[k as int]);
            assert("/"@ =~= seq!['/']);
            assert(s@ =~= joined_r(dv.take((k + 1) as int)));
        }
        k += 1;
    }
    proof {
        assert(comps.deep_view().take(comps.len() as int) =~= comps.deep_view());
    }
    s
}

/// Writes the absolute path with the given components.
pub fn join_path(comps: &Vec<String>) -> (r: String)
    ensures
        r@ == joined(comps.deep_view()),
{
    if comps.len() == 0 {
        let r = String::from_str("/");
        proof {
            reveal_strlit("/");
            assert(r@ =~= seq!['/']);
        }
        r
    } else {
        join_r(comps)
    }
}

/// Lexical normalization over components: `.` is dropped, `..` removes
/// the component before it, and at the root `..` stays at the root.
pub open spec fn norm_comps(cs: Seq<Seq<char>>) -> Seq<Seq<char>>
    decreases cs.len(),
{
    if cs.len() == 0 {
        seq![]
    } else {
        let prev = norm_comps(cs.drop_last());
        if cs.last() == "."@ {
            prev
        } else if cs.last() == ".."@ {
            if prev.len() == 0 {
                prev
            } else {
                prev.drop_last()
            }
        } else {
            prev.push(cs.last())
        }
    }
}

/// Applies `norm_comps` to a component vector.
pub fn normalize_comps(comps: &Vec<String>) -> (r: Vec<String>)
    ensures
        r.deep_view() == norm_comps(comps.deep_view()),
{
    let mut out: Vec<String> = Vec::new();
    let mut k: usize = 0;
    while k < comps.len()
        invariant
            k <= comps.len(),
            out.deep_view() == norm_comps(comps.deep_view().take(k as int)),
        decreases comps.len() - k,
    {
        proof {
            let dv = comps.deep_view();
            assert(dv.take((k + 1) as int).drop_last() =~= dv.take(k as int));
            assert(dv.take((k + 1) as int).last() == dv[k as int]);
        }
        let c = &comps[k];
        if str_eq(c.as_str(), ".") {
        } else if str_eq(c.as_str(), "..") {
            if out.len() > 0 {
                let _ = out.pop();
            }
        } else {
            out.push(c.clone());
        }
        proof {
            assert(out.deep_view() =~= norm_comps(comps.deep_view().take((k + 1) as int)));
        }
        k += 1;
    }
    proof {
        assert(comps.deep_view().take(comps.len() as int) =~= comps.deep_view());
    }
    out
}

/// The normalized absolute path text for `s`: split, normalize, join.
pub open spec fn normalized(s: Seq<char>) -> Seq<char> {
    joined(norm_comps(components_of(s)))
}

/// Normalizes a path lexically: collapses separators, resolves `.` and
/// `..`, and roots the result.
pub fn normalize_path(path: &str) -> (r: String)
    ensures
        r@ == normalized(path@),
{
    let comps = split_path(path);
    let normed = normalize_comps(&comps);
    join_path(&normed)
}

} // verus!
