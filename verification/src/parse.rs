//! Parsing one line of player input as a signed decimal integer.
//!
//! A raw line is trimmed of surrounding ASCII whitespace; what remains must
//! be an optional sign followed by one or more decimal digits, and the value
//! must fit in `i32`. Anything else is rejected, and the game re-prompts.

use vstd::prelude::*;

verus! {

/// The ASCII whitespace bytes that are trimmed from the ends of a line.
pub open spec fn is_space(b: u8) -> bool {
    b == 32 || b == 9 || b == 10 || b == 11 || b == 12 || b == 13
}

/// The sequence with its leading whitespace removed.
pub open spec fn space_trimmed_front(s: Seq<u8>) -> Seq<u8>
    decreases s.len(),
{
    if s.len() > 0 && is_space(s[0]) {
        space_trimmed_front(s.drop_first())
    } else {
        s
    }
}

/// The sequence with its trailing whitespace removed.
pub open spec fn space_trimmed_back(s: Seq<u8>) -> Seq<u8>
    decreases s.len(),
{
    if s.len() > 0 && is_space(s[s.len() - 1]) {
        space_trimmed_back(s.drop_last())
    } else {
        s
    }
}

/// The sequence with whitespace removed from both ends.
pub open spec fn space_trimmed(s: Seq<u8>) -> Seq<u8> {
    space_trimmed_back(space_trimmed_front(s))
}

/// An ASCII decimal digit.
pub open spec fn is_digit(b: u8) -> bool {
    48 <= b <= 57
}

/// Every byte of the sequence is a decimal digit.
pub open spec fn all_digits(s: Seq<u8>) -> bool {
    forall|i: int| 0 <= i < s.len() ==> is_digit(s[i])
}

/// The numeric value of a sequence of decimal digits, most significant first.
pub open spec fn digits_val(s: Seq<u8>) -> int
    decreases s.len(),
{
    if s.len() == 0 {
        0
    } else {
        digits_val(s.drop_last()) * 10 + (s.last() - 48)
    }
}

/// The digits of a signed numeral: everything after an optional leading sign.
pub open spec fn magnitude_part(s: Seq<u8>) -> Seq<u8> {
    if s.len() > 0 && (s[0] == 43 || s[0] == 45) {
        s.drop_first()
    } else {
        s
    }
}

/// The numeral begins with a minus sign.
pub open spec fn is_minus_signed(s: Seq<u8>) -> bool {
    s.len() > 0 && s[0] == 45
}

/// A valid signed decimal numeral: an optional `+` or `-` sign followed by
/// one or more decimal digits.
pub open spec fn is_numeral(s: Seq<u8>) -> bool {
    magnitude_part(s).len() > 0 && all_digits(magnitude_part(s))
}

/// The integer a valid numeral denotes.
pub open spec fn numeral_val(s: Seq<u8>) -> int {
    if is_minus_signed(s) {
        -digits_val(magnitude_part(s))
    } else {
        digits_val(magnitude_part(s))
    }
}

/// What parsing a raw input line yields: the line is trimmed of surrounding
/// whitespace; if what remains is a signed decimal numeral whose value fits
/// in `i32`, that value, and otherwise nothing.
pub open spec fn parse_spec(s: Seq<u8>) -> Option<i32> {
    let t = space_trimmed(s);
    if is_numeral(t) && i32::MIN <= numeral_val(t) <= i32::MAX {
        Some(numeral_val(t) as i32)
    } else {
        None
    }
}

/// The value of a digit string is never negative.
proof fn lemma_digits_val_nonneg(s: Seq<u8>)
    requires
        all_digits(s),
    ensures
        digits_val(s) >= 0,
    decreases s.len(),
{
    if s.len() > 0 {
        assert forall|i: int| 0 <= i < s.drop_last().len() implies is_digit(
            s.drop_last()[i],
        ) by {
            assert(s.drop_last()[i] == s[i]);
        }
        lemma_digits_val_nonneg(s.drop_last());
    }
}

/// Saturation bound for the running magnitude: strictly above the magnitude
/// of every `i32`, so saturating at it loses nothing that matters.
const MAGNITUDE_SAT: u64 = 3000000000;

fn space(b: u8) -> (r: bool)
    ensures
        r == is_space(b),
{
    b == 32 || b == 9 || b == 10 || b == 11 || b == 12 || b == 13
}

/// Parses a raw input line as a signed decimal integer, exactly as
/// `parse_spec` describes: surrounding ASCII whitespace is ignored, an
/// optional sign and at least one digit are required, and values outside
/// `i32` are rejected.
#[verifier::loop_isolation(false)]
pub fn parse_line(s: &[u8]) -> (r: Option<i32>)
    ensures
        r == parse_spec(s@),
{
    let n = s.len();
    let mut lo: usize = 0;
    let mut hi: usize = n;
    proof {
        assert(s@.subrange(0, n as int) =~= s@);
    }
    while lo < hi && space(s[lo])
        invariant
            0 <= lo <= hi == n == s@.len(),
            space_trimmed_front(s@) == space_trimmed_front(
                s@.subrange(lo as int, hi as int),
            ),
        decreases hi - lo,
    {
        proof {
            let sub = s@.subrange(lo as int, hi as int);
            assert(sub.drop_first() =~= s@.subrange(lo as int + 1, hi as int));
        }
        lo = lo + 1;
    }
    proof {
        let sub = s@.subrange(lo as int, hi as int);
        assert(space_trimmed_front(sub) == sub);
        assert(space_trimmed_front(s@) == sub);
    }
    while lo < hi && space(s[hi - 1])
        invariant
            0 <= lo <= hi <= s@.len(),
            space_trimmed_front(s@) == s@.subrange(lo as int, s@.len() as int),
            space_trimmed(s@) == space_trimmed_back(s@.subrange(lo as int, hi as int)),
        decreases hi - lo,
    {
        proof {
            let sub = s@.subrange(lo as int, hi as int);
            assert(sub.drop_last() =~= s@.subrange(lo as int, hi as int - 1));
        }
        hi = hi - 1;
    }
    let ghost t = s@.subrange(lo as int, hi as int);
    proof {
        assert(space_trimmed_back(t) == t);
        assert(space_trimmed(s@) == t);
    }
    let mut i = lo;
    let mut neg = false;
    if i < hi && (s[i] == 43 || s[i] == 45) {
        neg = s[i] == 45;
        i = i + 1;
        proof {
            assert(t.drop_first() =~= s@.subrange(i as int, hi as int));
        }
    }
    let ghost m = s@.subrange(i as int, hi as int);
    proof {
        assert(magnitude_part(t) == m);
        assert(is_minus_signed(t) == neg);
    }
    if i == hi {
        proof {
            assert(m.len() == 0);
            assert(!is_numeral(t));
        }
        return None;
    }
    let mut acc: u64 = 0;
    let mut j = i;
    while j < hi
        invariant
            i <= j <= hi <= s@.len(),
            i < hi,
            m == s@.subrange(i as int, hi as int),
            all_digits(s@.subrange(i as int, j as int)),
            acc <= MAGNITUDE_SAT,
            ({
                let dv = digits_val(s@.subrange(i as int, j as int));
                if dv <= MAGNITUDE_SAT {
                    acc == dv
                } else {
                    acc == MAGNITUDE_SAT
                }
            }),
        decreases hi - j,
    {
        let b = s[j];
        if b < 48 || b > 57 {
            proof {
                assert(m[j - i] == b);
                assert(!is_digit(m[j - i]));
                assert(!all_digits(m));
                assert(!is_numeral(t));
            }
            return None;
        }
        let d = (b - 48) as u64;
        let next = acc * 10 + d;
        proof {
            let pre = s@.subrange(i as int, j as int);
            let post = s@.subrange(i as int, j as int + 1);
            assert(post.drop_last() =~= pre);
            assert(post.last() == b);
            assert(digits_val(post) == digits_val(pre) * 10 + (b - 48));
            lemma_digits_val_nonneg(pre);
            assert forall|k: int| 0 <= k < post.len() implies is_digit(post[k]) by {
                if k < pre.len() {
                    assert(post[k] == pre[k]);
                }
            }
        }
        acc = if next > MAGNITUDE_SAT {
            MAGNITUDE_SAT
        } else {
            next
        };
        j = j + 1;
    }
    proof {
        assert(s@.subrange(i as int, j as int) == m);
        assert(all_digits(m));
        assert(m.len() > 0);
        assert(is_numeral(t));
        lemma_digits_val_nonneg(m);
    }
    let ghost dv = digits_val(m);
    if neg {
        if acc > 2147483648u64 {
            proof {
                assert(numeral_val(t) == -dv);
                assert(dv > 2147483648);
                assert(numeral_val(t) < i32::MIN);
            }
            None
        } else if acc == 2147483648u64 {
            proof {
                assert(dv == 2147483648);
                assert(numeral_val(t) == i32::MIN);
            }
            Some(i32::MIN)
        } else {
            proof {
                assert(dv == acc);
                assert(i32::MIN <= numeral_val(t) <= i32::MAX);
            }
            Some(0i32 - (acc as i32))
        }
    } else {
        if acc > 2147483647u64 {
            proof {
                assert(numeral_val(t) == dv);
                assert(dv > 2147483647);
                assert(numeral_val(t) > i32::MAX);
            }
            None
        } else {
            proof {
                assert(dv == acc);
                assert(i32::MIN <= numeral_val(t) <= i32::MAX);
            }
            Some(acc as i32)
        }
    }
}

} // verus!
