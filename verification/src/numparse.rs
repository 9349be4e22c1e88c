//! A verified parser for signed decimal integers, used to read rental
//! durations. The accepted grammar is an optional `+` or `-` sign followed by
//! one or more ASCII digits, with the value required to fit in `i32`.

use vstd::prelude::*;
use vstd::string::StrSliceExecFns;

verus! {

/// The error produced when a string is not a decimal `i32`.
#[derive(Clone, Copy, Debug, PartialEq, Eq, Structural)]
pub struct NotANumber;

/// Whether a character is an ASCII decimal digit.
pub open spec fn is_digit(c: char) -> bool {
    48 <= c as u32 && c as u32 <= 57
}

/// The numeric value of an ASCII decimal digit.
pub open spec fn digit_value(c: char) -> int {
    c as u32 - 48
}

/// Whether every character of the sequence is an ASCII decimal digit.
pub open spec fn all_digits(s: Seq<char>) -> bool {
    forall|i: int| 0 <= i < s.len() ==> is_digit(#[trigger] s[i])
}

/// The value of a sequence of decimal digits, most significant first.
pub open spec fn digits_value(s: Seq<char>) -> int
    decreases s.len(),
{
    if s.len() == 0 {
        0
    } else {
        digits_value(s.drop_last()) * 10 + digit_value(s.last())
    }
}

/// The digit part of an integer literal: everything after the sign, if any.
pub open spec fn int_body(s: Seq<char>) -> Seq<char> {
    if s.len() > 0 && (s[0] == '+' || s[0] == '-') {
        s.subrange(1, s.len() as int)
    } else {
        s
    }
}

/// Whether the sequence is a decimal integer literal: an optional sign
/// followed by at least one digit.
pub open spec fn is_int_literal(s: Seq<char>) -> bool {
    int_body(s).len() > 0 && all_digits(int_body(s))
}

/// The mathematical value of a decimal integer literal.
pub open spec fn int_literal_value(s: Seq<char>) -> int {
    if s.len() > 0 && s[0] == '-' {
        -digits_value(int_body(s))
    } else {
        digits_value(int_body(s))
    }
}

/// The `i32` a sequence of characters denotes, if it is an integer literal
/// whose value fits.
pub open spec fn parsed_i32(s: Seq<char>) -> Option<int> {
    if is_int_literal(s) && i32::MIN <= int_literal_value(s) <= i32::MAX {
        Some(int_literal_value(s))
    } else {
        None
    }
}

/// A sequence of digits has a non-negative value.
proof fn lemma_digits_value_nonneg(s: Seq<char>)
    requires
        all_digits(s),
    ensures
        digits_value(s) >= 0,
    decreases s.len(),
{
    if s.len() > 0 {
        lemma_digits_value_nonneg(s.drop_last());
    }
}

/// Extending a digit sequence cannot shrink its value: the value of a prefix
/// is a lower bound for the value of the whole.
proof fn lemma_digits_value_prefix_bound(s: Seq<char>, i: int)
    requires
        all_digits(s),
        0 <= i <= s.len(),
    ensures
        digits_value(s) >= digits_value(s.subrange(0, i)),
    decreases s.len() - i,
{
    if i == s.len() {
        assert(s.subrange(0, i) =~= s);
    } else {
        lemma_digits_value_prefix_bound(s, i + 1);
        let p = s.subrange(0, i);
        let q = s.subrange(0, i + 1);
        assert(q.drop_last() =~= p);
        lemma_digits_value_nonneg(p);
        assert(digits_value(q) == digits_value(p) * 10 + digit_value(s[i]));
        assert(digits_value(p) * 10 >= digits_value(p)) by (nonlinear_arith)
            requires digits_value(p) >= 0;
    }
}

/// Parses a decimal `i32`: an optional sign followed by one or more digits,
/// rejecting anything else and any value outside the `i32` range.
pub fn parse_i32(s: &str) -> (r: Result<i32, NotANumber>)
    ensures
        r == (match parsed_i32(s@) {
            Some(n) => Ok::<i32, NotANumber>(n as i32),
            None => Err::<i32, NotANumber>(NotANumber),
        }),
{
    let n = s.unicode_len();
    if n == 0 {
        return Err(NotANumber);
    }
    let c0 = s.get_char(0);
    let negative = c0 == '-';
    let start: usize = if c0 == '-' || c0 == '+' {
        1
    } else {
        0
    };
    let ghost body = int_body(s@);
    proof {
        assert(body =~= s@.subrange(start as int, n as int));
    }
    if n == start {
        return Err(NotANumber);
    }
    let mut acc: i64 = 0;
    let mut i: usize = start;
    while i < n
        invariant
            start <= i <= n,
            n == s@.len(),
            start == 1 ==> (s@[0] == '-' || s@[0] == '+'),
            start == 0 ==> !(s@[0] == '-' || s@[0] == '+'),
            negative == (s@[0] == '-'),
            body == s@.subrange(start as int, n as int),
            body == int_body(s@),
            all_digits(s@.subrange(start as int, i as int)),
            acc == digits_value(s@.subrange(start as int, i as int)),
            0 <= acc <= 0x8000_0000,
        decreases n - i,
    {
        let c = s.get_char(i);
        let u = c as u32;
        if !(48 <= u && u <= 57) {
            proof {
                assert(body[i - start] == s@[i as int]);
                assert(!is_digit(body[i - start]));
                assert(!all_digits(body));
            }
            return Err(NotANumber);
        }
        let d: i64 = (u - 48) as i64;
        let next = acc * 10 + d;
        proof {
            let p = s@.subrange(start as int, i as int);
            let q = s@.subrange(start as int, i + 1);
            assert(q.drop_last() =~= p);
            assert(digits_value(q) == digits_value(p) * 10 + digit_value(s@[i as int]));
        }
        if next > 0x8000_0000 {
            proof {
                if is_int_literal(s@) {
                    let q = s@.subrange(start as int, i + 1);
                    assert(q =~= body.subrange(0, i + 1 - start));
                    assert(digits_value(q) == next);
                    lemma_digits_value_prefix_bound(body, i + 1 - start);
                    assert(digits_value(body) > 0x8000_0000);
                    if negative {
                        assert(int_literal_value(s@) < i32::MIN);
                    } else {
                        assert(int_literal_value(s@) > i32::MAX);
                    }
                }
            }
            return Err(NotANumber);
        }
        acc = next;
        i = i + 1;
        proof {
            assert(s@.subrange(start as int, i as int) =~= s@.subrange(
                start as int,
                i - 1,
            ).push(s@[i - 1]));
        }
    }
    proof {
        assert(s@.subrange(start as int, n as int) =~= body);
        assert(is_int_literal(s@));
        assert(digits_value(body) == acc);
    }
    if negative {
        let v: i64 = -acc;
        proof {
            assert(int_literal_value(s@) == -digits_value(body));
        }
        Ok(v as i32)
    } else {
        if acc > 0x7fff_ffff {
            proof {
                assert(int_literal_value(s@) > i32::MAX);
            }
            return Err(NotANumber);
        }
        proof {
            assert(int_literal_value(s@) == digits_value(body));
        }
        Ok(acc as i32)
    }
}

} // verus!
