//! Character-level string helpers shared by the matching and display code.

use vstd::prelude::*;
use vstd::string::StrSliceExecFns;

verus! {

/// What `str::to_lowercase` returns for a given sequence of characters.
/// The result depends on the characters alone.
pub uninterp spec fn lower_of(s: Seq<char>) -> Seq<char>;

/// Relies on `str::to_lowercase`: returns the lowercase equivalent of the
/// slice, a pure function of its characters; an empty string stays empty.
#[verifier::external_body]
pub fn lowercase(s: &str) -> (r: String)
    ensures
        r@ == lower_of(s@),
        s@.len() == 0 ==> r@.len() == 0,
{
    s.to_lowercase()
}

/// Relies on `String`'s `FromIterator<char>` implementation: collects
/// exactly the given characters, in order, into a string.
#[verifier::external_body]
pub fn chars_to_string(v: &Vec<char>) -> (r: String)
    ensures
        r@ == v@,
{
    v.iter().collect()
}

/// Collects the characters of a string slice into a vector.
pub fn to_chars(s: &str) -> (r: Vec<char>)
    ensures
        r@ == s@,
{
    let n = s.unicode_len();
    let mut r: Vec<char> = Vec::new();
    let mut i: usize = 0;
    while i < n
        invariant
            i <= n,
            n == s@.len(),
            r@ == s@.subrange(0, i as int),
        decreases n - i,
    {
        r.push(s.get_char(i));
        i = i + 1;
        proof {
            assert(r@ =~= s@.subrange(0, i as int));
        }
    }
    proof {
        assert(s@.subrange(0, n as int) =~= s@);
    }
    r
}

/// Character-for-character equality of two string slices.
pub fn str_eq(a: &str, b: &str) -> (r: bool)
    ensures
        r == (a@ == b@),
{
    let na = a.unicode_len();
    let nb = b.unicode_len();
    if na != nb {
        proof {
            assert(a@ != b@) by {
                if a@ == b@ {
                    assert(a@.len() == b@.len());
                }
            }
        }
        return false;
    }
    let mut i: usize = 0;
    while i < na
        invariant
            i <= na,
            na == a@.len(),
            na == b@.len(),
            forall|k: int| 0 <= k < i ==> a@[k] == b@[k],
        decreases na - i,
    {
        if a.get_char(i) != b.get_char(i) {
            return false;
        }
        i = i + 1;
    }
    proof {
        assert(a@ =~= b@);
    }
    true
}

/// The needle `n` occurs in `h` starting at position `i`.
pub open spec fn match_at(h: Seq<char>, n: Seq<char>, i: int) -> bool {
    0 <= i && i + n.len() <= h.len() && h.subrange(i, i + n.len()) == n
}

/// The needle `n` occurs somewhere in `h`.
pub open spec fn contains_seq(h: Seq<char>, n: Seq<char>) -> bool {
    exists|i: int| match_at(h, n, i)
}

/// First occurrence of `n` in `h`, if any.
pub fn find_sub(h: &Vec<char>, n: &Vec<char>) -> (r: Option<usize>)
    ensures
        match r {
            Some(i) => match_at(h@, n@, i as int) && forall|j: int|
                0 <= j < i ==> !match_at(h@, n@, j),
            None => !contains_seq(h@, n@),
        },
{
    let hn = h.len();
    let nn = n.len();
    if nn > hn {
        proof {
            assert(forall|i: int| !match_at(h@, n@, i));
        }
        return None;
    }
    if nn == 0 {
        proof {
            assert(match_at(h@, n@, 0)) by {
                assert(h@.subrange(0, 0) =~= n@);
            }
        }
        return Some(0);
    }
    let mut i: usize = 0;
    while i <= hn - nn
        invariant
            0 <= i <= hn - nn + 1,
            0 < nn <= hn,
            hn == h@.len(),
            nn == n@.len(),
            forall|j: int| 0 <= j < i ==> !match_at(h@, n@, j),
        decreases hn - nn + 1 - i,
    {
        let mut k: usize = 0;
        let mut hit = true;
        while k < nn
            invariant
                0 <= k <= nn,
                i + nn <= hn,
                hn == h@.len(),
                nn == n@.len(),
                hit ==> forall|t: int| 0 <= t < k ==> h@[i + t] == n@[t],
                !hit ==> !match_at(h@, n@, i as int),
            decreases nn - k,
        {
            if h[i + k] != n[k] {
                proof {
                    assert(!match_at(h@, n@, i as int)) by {
                        if match_at(h@, n@, i as int) {
                            assert(h@.subrange(i as int, i + nn) == n@);
                            assert(h@.subrange(i as int, i + nn)[k as int] == n@[k as int]);
                        }
                    }
                }
                hit = false;
                k = nn;
            } else {
                k = k + 1;
            }
        }
        if hit {
            proof {
                assert(match_at(h@, n@, i as int)) by {
                    assert(h@.subrange(i as int, i + nn) =~= n@);
                }
            }
            return Some(i);
        }
        i = i + 1;
    }
    proof {
        assert(!contains_seq(h@, n@)) by {
            if contains_seq(h@, n@) {
                let j = choose|j: int| match_at(h@, n@, j);
                assert(!match_at(h@, n@, j));
            }
        }
    }
    None
}

/// `s` with every non-overlapping occurrence of `pat` replaced by `rep`,
/// scanning left to right, as `str::replace` does.
pub open spec fn spec_replace(s: Seq<char>, pat: Seq<char>, rep: Seq<char>) -> Seq<char>
    decreases s.len(),
{
    if pat.len() == 0 {
        s
    } else if s.len() < pat.len() {
        s
    } else if s.subrange(0, pat.len() as int) == pat {
        rep + spec_replace(s.skip(pat.len() as int), pat, rep)
    } else {
        seq![s[0]] + spec_replace(s.skip(1), pat, rep)
    }
}

/// Replaces every occurrence of `pat` in `s` by `rep`, left to right.
pub fn replace_chars(s: &Vec<char>, pat: &Vec<char>, rep: &Vec<char>) -> (r: Vec<char>)
    requires
        pat@.len() > 0,
    ensures
        r@ == spec_replace(s@, pat@, rep@),
{
    let sn = s.len();
    let pn = pat.len();
    let mut out: Vec<char> = Vec::new();
    let mut i: usize = 0;
    proof {
        assert(s@.skip(0) =~= s@);
    }
    while i < sn
        invariant
            0 <= i <= sn,
            sn == s@.len(),
            pn == pat@.len(),
            pn > 0,
            spec_replace(s@, pat@, rep@) == out@ + spec_replace(s@.skip(i as int), pat@, rep@),
        decreases sn - i,
    {
        let ghost pre = out@;
        let mut hit = pn <= sn - i;
        let mut k: usize = 0;
        while k < pn
            invariant
                0 <= k <= pn,
                sn == s@.len(),
                pn == pat@.len(),
                i < sn,
                hit ==> i + pn <= sn,
                hit ==> forall|t: int| 0 <= t < k ==> s@[i + t] == pat@[t],
                !hit ==> !match_at(s@, pat@, i as int),
            decreases pn - k,
        {
            if !hit {
                k = pn;
            } else if s[i + k] != pat[k] {
                proof {
                    assert(!match_at(s@, pat@, i as int)) by {
                        if match_at(s@, pat@, i as int) {
                            assert(s@.subrange(i as int, i + pn)[k as int] == s@[i + k]);
                        }
                    }
                }
                hit = false;
                k = pn;
            } else {
                k = k + 1;
            }
        }
        if hit {
            proof {
                assert(match_at(s@, pat@, i as int)) by {
                    assert(s@.subrange(i as int, i + pn) =~= pat@);
                }
                assert(s@.skip(i as int).subrange(0, pn as int) =~= pat@);
                assert(s@.skip(i as int).len() >= pn);
                assert(s@.skip(i as int).skip(pn as int) =~= s@.skip(i + pn));
            }
            let mut t: usize = 0;
            while t < rep.len()
                invariant
                    0 <= t <= rep@.len(),
                    out@ == pre + rep@.subrange(0, t as int),
                decreases rep@.len() - t,
            {
                out.push(rep[t]);
                t = t + 1;
                proof {
                    assert(out@ =~= pre + rep@.subrange(0, t as int));
                }
            }
            proof {
                assert(rep@.subrange(0, rep@.len() as int) =~= rep@);
                assert(out@ + spec_replace(s@.skip(i + pn), pat@, rep@) =~= pre + (rep@
                    + spec_replace(s@.skip(i + pn), pat@, rep@)));
            }
            i = i + pn;
        } else {
            proof {
                assert(s@.skip(i as int).len() >= 1);
                if s@.skip(i as int).len() >= pn {
                    assert(s@.skip(i as int).subrange(0, pn as int) != pat@) by {
                        if s@.skip(i as int).subrange(0, pn as int) == pat@ {
                            assert(s@.subrange(i as int, i + pn) =~= s@.skip(
                                i as int,
                            ).subrange(0, pn as int));
                        }
                    }
                }
                assert(s@.skip(i as int)[0] == s@[i as int]);
                assert(s@.skip(i as int).skip(1) =~= s@.skip(i + 1));
            }
            out.push(s[i]);
            proof {
                assert(out@ =~= pre + seq![s@[i as int]]);
                assert(out@ + spec_replace(s@.skip(i + 1), pat@, rep@) =~= pre + (seq![
                    s@[i as int],
                ] + spec_replace(s@.skip(i + 1), pat@, rep@)));
            }
            i = i + 1;
        }
    }
    proof {
        assert(s@.skip(sn as int).len() == 0);
        assert(out@ + spec_replace(s@.skip(sn as int), pat@, rep@) =~= out@);
    }
    out
}

/// Replaces every occurrence of `pat` in `s` by `rep`, left to right,
/// as `str::replace` does.
pub fn replace_str(s: &str, pat: &str, rep: &str) -> (r: String)
    requires
        pat@.len() > 0,
    ensures
        r@ == spec_replace(s@, pat@, rep@),
{
    let sc = to_chars(s);
    let pc = to_chars(pat);
    let rc = to_chars(rep);
    let out = replace_chars(&sc, &pc, &rc);
    chars_to_string(&out)
}

} // verus!
