//! Byte-string search and token substitution.
//!
//! The build helper decides platform naming by searching a target triple
//! for a marker, and rewrites packaging manifests by replacing every
//! occurrence of a token with a value.  Both operations are verified here
//! over byte sequences; callers hand in the UTF-8 bytes of their strings.

use vstd::prelude::*;

verus! {

/// Whether `pat` occurs in `s` starting at position `i`.
pub open spec fn spec_match_at(s: Seq<u8>, pat: Seq<u8>, i: int) -> bool {
    &&& 0 <= i
    &&& i + pat.len() <= s.len()
    &&& s.subrange(i, i + pat.len()) == pat
}

/// Whether `pat` occurs anywhere in `s`.
pub open spec fn spec_contains_sub(s: Seq<u8>, pat: Seq<u8>) -> bool {
    exists|i: int| spec_match_at(s, pat, i)
}

/// Every occurrence of `pat` in `s` replaced by `rep`, scanning left to
/// right without overlap.  An empty pattern replaces nothing.
pub open spec fn spec_replace_all(s: Seq<u8>, pat: Seq<u8>, rep: Seq<u8>) -> Seq<u8>
    decreases s.len(),
{
    if pat.len() == 0 || s.len() == 0 {
        s
    } else if pat.len() <= s.len() && s.take(pat.len() as int) == pat {
        rep + spec_replace_all(s.skip(pat.len() as int), pat, rep)
    } else {
        seq![s.first()] + spec_replace_all(s.drop_first(), pat, rep)
    }
}

/// Check whether `pat` occurs in `s` at position `i`.
pub fn match_at(s: &[u8], pat: &[u8], i: usize) -> (r: bool)
    requires
        i + pat@.len() <= s@.len(),
    ensures
        r == spec_match_at(s@, pat@, i as int),
{
    // The call records that the slice's length fits in usize, which the
    // index arithmetic below needs.
    let _slen = s.len();
    let mut j: usize = 0;
    while j < pat.len()
        invariant
            0 <= j <= pat@.len(),
            i + pat@.len() <= s@.len(),
            s@.len() <= usize::MAX,
            forall|k: int| 0 <= k < j ==> s@[i + k] == pat@[k],
        decreases pat@.len() - j,
    {
        if s[i + j] != pat[j] {
            proof {
                assert(s@.subrange(i as int, i + pat@.len())[j as int] == s@[i + j]);
            }
            return false;
        }
        j += 1;
    }
    proof {
        assert(s@.subrange(i as int, i + pat@.len()) =~= pat@);
    }
    true
}

/// Whether `pat` occurs anywhere in `s`.
pub fn contains_sub(s: &[u8], pat: &[u8]) -> (r: bool)
    ensures
        r == spec_contains_sub(s@, pat@),
{
    if pat.len() == 0 {
        proof {
            assert(s@.subrange(0, 0) =~= pat@);
            assert(spec_match_at(s@, pat@, 0));
        }
        return true;
    }
    if pat.len() > s.len() {
        proof {
            assert(forall|i: int| !spec_match_at(s@, pat@, i));
        }
        return false;
    }
    let last = s.len() - pat.len();
    let mut i: usize = 0;
    while i <= last
        invariant
            0 <= i <= last + 1,
            pat@.len() > 0,
            last == s@.len() - pat@.len(),
            s@.len() <= usize::MAX,
            forall|k: int| 0 <= k < i ==> !spec_match_at(s@, pat@, k),
        decreases last + 1 - i,
    {
        if match_at(s, pat, i) {
            return true;
        }
        i += 1;
    }
    proof {
        assert(forall|k: int| k > last ==> !spec_match_at(s@, pat@, k));
    }
    false
}

/// Replace every occurrence of `token` in `s` with `value`, scanning left
/// to right without overlap — what one line of a manifest goes through
/// for one substitution pair.  An empty token names nothing to replace
/// and leaves the line as it is.
pub fn replace_all(s: &[u8], token: &[u8], value: &[u8]) -> (r: Vec<u8>)
    ensures
        r@ == spec_replace_all(s@, token@, value@),
{
    if token.len() == 0 {
        return vstd::slice::slice_to_vec(s);
    }
    let mut out: Vec<u8> = Vec::new();
    let mut i: usize = 0;
    proof {
        assert(s@.skip(0) =~= s@);
    }
    while i < s.len()
        invariant
            0 <= i <= s@.len(),
            token@.len() > 0,
            spec_replace_all(s@, token@, value@) == out@ + spec_replace_all(
                s@.skip(i as int),
                token@,
                value@,
            ),
        decreases s@.len() - i,
    {
        let ghost pre_out = out@;
        let ghost rest = s@.skip(i as int);
        if token.len() <= s.len() - i && match_at(s, token, i) {
            proof {
                assert(rest.take(token@.len() as int) =~= s@.subrange(
                    i as int,
                    i + token@.len(),
                ));
            }
            let mut j: usize = 0;
            while j < value.len()
                invariant
                    0 <= j <= value@.len(),
                    out@ == pre_out + value@.take(j as int),
                decreases value@.len() - j,
            {
                out.push(value[j]);
                j += 1;
                proof {
                    assert(pre_out + value@.take(j - 1).push(value@[j - 1]) =~= pre_out
                        + value@.take(j as int));
                }
            }
            i += token.len();
            proof {
                assert(value@.take(value@.len() as int) =~= value@);
                assert(rest.skip(token@.len() as int) =~= s@.skip(i as int));
                assert(spec_replace_all(rest, token@, value@) == value@ + spec_replace_all(
                    s@.skip(i as int),
                    token@,
                    value@,
                ));
                assert(pre_out + (value@ + spec_replace_all(s@.skip(i as int), token@, value@))
                    =~= out@ + spec_replace_all(s@.skip(i as int), token@, value@));
            }
        } else {
            proof {
                if i + token@.len() <= s@.len() {
                    assert(rest.take(token@.len() as int) =~= s@.subrange(
                        i as int,
                        i + token@.len(),
                    ));
                }
            }
            out.push(s[i]);
            i += 1;
            proof {
                assert(rest.first() == s@[i - 1]);
                assert(rest.drop_first() =~= s@.skip(i as int));
                assert(spec_replace_all(rest, token@, value@) == seq![s@[i - 1]]
                    + spec_replace_all(s@.skip(i as int), token@, value@));
                assert(pre_out + (seq![s@[i - 1]] + spec_replace_all(
                    s@.skip(i as int),
                    token@,
                    value@,
                )) =~= out@ + spec_replace_all(s@.skip(i as int), token@, value@));
            }
        }
    }
    proof {
        assert(s@.skip(s@.len() as int) =~= Seq::<u8>::empty());
        assert(out@ + Seq::<u8>::empty() =~= out@);
    }
    out
}

/// One line of a file put through a list of substitution pairs in order,
/// each pair replacing every occurrence of its token with its value.
pub open spec fn spec_subst_line(line: Seq<u8>, subs: Seq<(Seq<u8>, Seq<u8>)>) -> Seq<u8>
    decreases subs.len(),
{
    if subs.len() == 0 {
        line
    } else {
        spec_subst_line(
            spec_replace_all(line, subs.first().0, subs.first().1),
            subs.drop_first(),
        )
    }
}

/// The (token, value) views of a substitution list.
pub open spec fn spec_sub_views(subs: Seq<(Vec<u8>, Vec<u8>)>) -> Seq<(Seq<u8>, Seq<u8>)> {
    subs.map_values(|p: (Vec<u8>, Vec<u8>)| (p.0@, p.1@))
}

/// Apply a list of substitution pairs to one line, in order.  A pair
/// with an empty token leaves the line as it is.
pub fn subst_line(line: &Vec<u8>, subs: &Vec<(Vec<u8>, Vec<u8>)>) -> (r: Vec<u8>)
    ensures
        r@ == spec_subst_line(line@, spec_sub_views(subs@)),
{
    let ghost all = spec_sub_views(subs@);
    let mut cur: Vec<u8> = vstd::slice::slice_to_vec(line.as_slice());
    let mut i: usize = 0;
    proof {
        assert(all.skip(0) =~= all);
    }
    while i < subs.len()
        invariant
            0 <= i <= subs@.len(),
            all == spec_sub_views(subs@),
            spec_subst_line(line@, all) == spec_subst_line(cur@, all.skip(i as int)),
        decreases subs@.len() - i,
    {
        proof {
            assert(all.skip(i as int).first() == all[i as int]);
            assert(all.skip(i as int).drop_first() =~= all.skip(i as int + 1));
        }
        let replaced = replace_all(cur.as_slice(), subs[i].0.as_slice(), subs[i].1.as_slice());
        cur = replaced;
        i += 1;
    }
    proof {
        assert(all.skip(all.len() as int) =~= Seq::<(Seq<u8>, Seq<u8>)>::empty());
    }
    cur
}

} // verus!
