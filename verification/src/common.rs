//! Commonly used helpers: reading a page number back out of a pagination
//! URL.
//!
//! A pagination link carries its page as a `page=` parameter followed by
//! digits.  `get_page_num` finds the first such occurrence and returns its
//! value; a URL without one yields 0.

use vstd::prelude::*;
use vstd::string::StrSliceExecFns;

verus! {

/// A decimal digit.
pub open spec fn is_digit(c: char) -> bool {
    '0' <= c && c <= '9'
}

/// The numeric value of one digit character.
pub open spec fn digit_val(c: char) -> nat {
    (c as u32 - '0' as u32) as nat
}

/// The value of a digit string, most significant digit first.
pub open spec fn digits_value(ds: Seq<char>) -> nat
    decreases ds.len(),
{
    if ds.len() == 0 {
        0
    } else {
        digits_value(ds.drop_last()) * 10 + digit_val(ds.last())
    }
}

/// Whether position `i` of `s` starts a `page=` parameter with at least one
/// digit behind it.
pub open spec fn page_match_at(s: Seq<char>, i: int) -> bool {
    &&& 0 <= i
    &&& i + 5 < s.len()
    &&& s.subrange(i, i + 5) == "page="@
    &&& is_digit(s[i + 5])
}

/// Whether `s` holds a `page=` parameter with digits anywhere.
pub open spec fn has_page_match(s: Seq<char>) -> bool {
    exists|i: int| page_match_at(s, i)
}

/// The end of the digit run that starts at `from`: the first position at or
/// after `from` holding a non-digit, or the end of `s`.
pub open spec fn digit_run_end(s: Seq<char>, from: int, j: int) -> bool {
    &&& from <= j <= s.len()
    &&& (forall|m: int| from <= m < j ==> is_digit(s[m]))
    &&& (j < s.len() ==> !is_digit(s[j]))
}

/// The page number `s` carries: the value of the digit run behind the first
/// `page=` occurrence that has one, and 0 when there is none.
pub open spec fn page_num_of(s: Seq<char>) -> nat {
    if has_page_match(s) {
        let i = choose|i: int| page_match_at(s, i) && forall|i2: int|
            page_match_at(s, i2) ==> i <= i2;
        let j = choose|j: int| #[trigger] digit_run_end(s, i + 5, j);
        digits_value(s.subrange(i + 5, j))
    } else {
        0
    }
}

/// Prefixes of a digit string never exceed its value.
proof fn lemma_digits_value_prefix(ds: Seq<char>, m: int)
    requires
        0 <= m <= ds.len(),
    ensures
        digits_value(ds.take(m)) <= digits_value(ds),
    decreases ds.len() - m,
{
    if m < ds.len() {
        lemma_digits_value_prefix(ds, m + 1);
        assert(ds.take(m + 1).drop_last() =~= ds.take(m));
        assert(digits_value(ds.take(m)) <= digits_value(ds.take(m + 1)));
    } else {
        assert(ds.take(m) =~= ds);
    }
}

/// There is exactly one end for a digit run.
proof fn lemma_digit_run_end_unique(s: Seq<char>, from: int, j1: int, j2: int)
    requires
        digit_run_end(s, from, j1),
        digit_run_end(s, from, j2),
    ensures
        j1 == j2,
{
    if j1 < j2 {
        assert(is_digit(s[j1]));
        assert(false);
    }
    if j2 < j1 {
        assert(is_digit(s[j2]));
        assert(false);
    }
}

/// Whether the character at `j` is a decimal digit.
fn digit_at(s: &str, j: usize) -> (r: bool)
    requires
        j < s@.len(),
    ensures
        r == is_digit(s@[j as int]),
{
    let c = s.get_char(j);
    '0' <= c && c <= '9'
}

/// Take a URL and extract the next page number from its first `page=`
/// parameter; a URL without one yields 0.
#[verifier::loop_isolation(false)]
pub fn get_page_num(url: String) -> (r: usize)
    requires
        page_num_of(url@) <= usize::MAX,
    ensures
        r == page_num_of(url@),
{
    let s = url.as_str();
    let n = s.unicode_len();
    let ghost sv = url@;
    let mut i: usize = 0;
    while n - i > 5
        invariant
            i <= n,
            n == sv.len(),
            sv == s@,
            page_num_of(sv) <= usize::MAX,
            forall|i2: int| 0 <= i2 < i ==> !page_match_at(sv, i2),
        decreases n - i,
    {
        let is_match = s.get_char(i) == 'p' && s.get_char(i + 1) == 'a' && s.get_char(i + 2)
            == 'g' && s.get_char(i + 3) == 'e' && s.get_char(i + 4) == '=';
        let c5 = s.get_char(i + 5);
        let has_digit = '0' <= c5 && c5 <= '9';
        proof {
            reveal_strlit("page=");
            if is_match {
                assert(sv.subrange(i as int, i + 5) =~= "page="@);
            } else {
                assert(sv.subrange(i as int, i + 5) != "page="@) by {
                    if sv.subrange(i as int, i + 5) == "page="@ {
                        assert(sv[i as int] == "page="@[0]);
                        assert(sv[i + 1] == "page="@[1]);
                        assert(sv[i + 2] == "page="@[2]);
                        assert(sv[i + 3] == "page="@[3]);
                        assert(sv[i + 4] == "page="@[4]);
                    }
                }
            }
        }
        if is_match && has_digit {
            assert(page_match_at(sv, i as int));
            // The first match: read the digit run behind it.
            let start = i + 5;
            let mut j: usize = start;
            while j < n && digit_at(s, j)
                invariant
                    n == sv.len(),
                    sv == s@,
                    start <= j <= n,
                    forall|m: int| start <= m < j ==> is_digit(sv[m]),
                decreases n - j,
            {
                j = j + 1;
            }
            assert(digit_run_end(sv, start as int, j as int));
            // Accumulate the digits.
            let ghost ds = sv.subrange(start as int, j as int);
            let ghost ifirst = choose|i0: int|
                page_match_at(sv, i0) && forall|i2: int| page_match_at(sv, i2) ==> i0 <= i2;
            proof {
                assert(has_page_match(sv));
                // Any first match is this one: matches below i are ruled out
                // by the scan, and this position matches.
                assert(page_match_at(sv, ifirst) && forall|i2: int|
                    page_match_at(sv, i2) ==> ifirst <= i2) by {
                    assert(page_match_at(sv, i as int));
                    let w = choose|i0: int|
                        page_match_at(sv, i0) && forall|i2: int|
                            page_match_at(sv, i2) ==> i0 <= i2;
                    assert(w == ifirst || true);
                }
                assert(ifirst == i as int) by {
                    assert(page_match_at(sv, i as int));
                    if ifirst < i as int {
                        assert(!page_match_at(sv, ifirst));
                    }
                }
                let jw = choose|j0: int| #[trigger] digit_run_end(sv, ifirst + 5, j0);
                lemma_digit_run_end_unique(sv, start as int, jw, j as int);
                assert(page_num_of(sv) == digits_value(ds));
            }
            let mut value: usize = 0;
            let mut m: usize = start;
            while m < j
                invariant
                    n == sv.len(),
                    sv == s@,
                    start <= m <= j <= n,
                    ds == sv.subrange(start as int, j as int),
                    forall|m2: int| start <= m2 < j ==> is_digit(sv[m2]),
                    value == digits_value(ds.take(m - start)),
                    digits_value(ds) <= usize::MAX,
                decreases j - m,
            {
                let c = s.get_char(m);
                assert(is_digit(sv[m as int]));
                let d = (c as u32 - '0' as u32) as usize;
                proof {
                    lemma_digits_value_prefix(ds, m - start + 1);
                    assert(ds.take(m - start + 1).drop_last() =~= ds.take(m - start));
                    assert(ds.take(m - start + 1).last() == sv[m as int]);
                    assert(digits_value(ds.take(m - start + 1)) == value * 10 + digit_val(
                        sv[m as int],
                    ));
                }
                value = value * 10 + d;
                m = m + 1;
            }
            proof {
                assert(ds.take(j - start) =~= ds);
            }
            return value;
        }
        i = i + 1;
    }
    proof {
        assert(!has_page_match(sv)) by {
            if has_page_match(sv) {
                let w = choose|i0: int| page_match_at(sv, i0);
                assert(w + 5 < n);
                assert(w < i);
                assert(!page_match_at(sv, w));
            }
        }
    }
    0
}

} // verus!
