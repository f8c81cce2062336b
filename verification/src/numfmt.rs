//! Decimal text: rendering an unsigned count into digits for the board post,
//! and reading an administrator-supplied threshold back out of a command
//! argument. Both directions carry exact contracts over the character
//! sequences involved.

use vstd::prelude::*;
use vstd::string::StrSliceExecFns;
use vstd::string::StringExecFns;

verus! {

/// The digit character for one decimal digit value.
pub open spec fn spec_digit(d: int) -> char
    recommends
        0 <= d < 10,
{
    if d == 0 {
        '0'
    } else if d == 1 {
        '1'
    } else if d == 2 {
        '2'
    } else if d == 3 {
        '3'
    } else if d == 4 {
        '4'
    } else if d == 5 {
        '5'
    } else if d == 6 {
        '6'
    } else if d == 7 {
        '7'
    } else if d == 8 {
        '8'
    } else {
        '9'
    }
}

/// The decimal rendering of a non-negative integer, most significant digit
/// first, with no sign, no leading zeros (except for zero itself).
pub open spec fn spec_decimal(n: int) -> Seq<char>
    recommends
        n >= 0,
    decreases n,
{
    if n < 10 {
        seq![spec_digit(n)]
    } else {
        spec_decimal(n / 10).push(spec_digit(n % 10))
    }
}

fn digit_str(d: u64) -> (s: &'static str)
    requires
        d < 10,
    ensures
        s@ == seq![spec_digit(d as int)],
{
    proof {
        reveal_strlit("0");
        reveal_strlit("1");
        reveal_strlit("2");
        reveal_strlit("3");
        reveal_strlit("4");
        reveal_strlit("5");
        reveal_strlit("6");
        reveal_strlit("7");
        reveal_strlit("8");
        reveal_strlit("9");
    }
    let s: &'static str = if d == 0 {
        "0"
    } else if d == 1 {
        "1"
    } else if d == 2 {
        "2"
    } else if d == 3 {
        "3"
    } else if d == 4 {
        "4"
    } else if d == 5 {
        "5"
    } else if d == 6 {
        "6"
    } else if d == 7 {
        "7"
    } else if d == 8 {
        "8"
    } else {
        "9"
    };
    proof {
        assert(s@ =~= seq![spec_digit(d as int)]);
    }
    s
}

/// Render a count as decimal text.
pub fn format_u64(n: u64) -> (s: String)
    ensures
        s@ == spec_decimal(n as int),
    decreases n,
{
    if n < 10 {
        digit_str(n).to_owned()
    } else {
        let mut s = format_u64(n / 10);
        s.append(digit_str(n % 10));
        proof {
            assert(s@ =~= spec_decimal(n as int));
        }
        s
    }
}

/// Is this character a decimal digit?
pub open spec fn spec_is_digit(c: char) -> bool {
    48 <= c as u32 && c as u32 <= 57
}

/// The value of a decimal digit character.
pub open spec fn spec_digit_value(c: char) -> int {
    c as u32 - 48
}

/// The integer a run of digit characters denotes, most significant first.
pub open spec fn spec_parsed(digits: Seq<char>) -> int
    decreases digits.len(),
{
    if digits.len() == 0 {
        0
    } else {
        spec_parsed(digits.drop_last()) * 10 + spec_digit_value(digits.last())
    }
}

/// A non-empty run of decimal digits and nothing else.
pub open spec fn spec_numeric_body(digits: Seq<char>) -> bool {
    digits.len() > 0 && (forall|i: int| 0 <= i < digits.len() ==> spec_is_digit(#[trigger] digits[i]))
}

/// The digit run of a number literal: everything after an optional leading
/// plus sign.
pub open spec fn spec_number_digits(s: Seq<char>) -> Seq<char> {
    if s.len() > 0 && s[0] == '+' {
        s.drop_first()
    } else {
        s
    }
}

/// Does this text denote an unsigned 64-bit number: an optional plus sign,
/// then one or more digits, with a value that fits?
pub open spec fn spec_parses_as_u64(s: Seq<char>) -> bool {
    spec_numeric_body(spec_number_digits(s)) && spec_parsed(spec_number_digits(s)) <= u64::MAX
}

/// The value such a text denotes.
pub open spec fn spec_parsed_u64(s: Seq<char>) -> int {
    spec_parsed(spec_number_digits(s))
}

proof fn lemma_parsed_non_negative(digits: Seq<char>)
    requires
        forall|j: int| 0 <= j < digits.len() ==> spec_is_digit(#[trigger] digits[j]),
    ensures
        spec_parsed(digits) >= 0,
    decreases digits.len(),
{
    if digits.len() > 0 {
        lemma_parsed_non_negative(digits.drop_last());
    }
}

proof fn lemma_parsed_prefix_bounded(digits: Seq<char>, m: int)
    requires
        forall|j: int| 0 <= j < digits.len() ==> spec_is_digit(#[trigger] digits[j]),
        0 <= m <= digits.len(),
    ensures
        spec_parsed(digits) >= spec_parsed(digits.take(m)),
    decreases digits.len() - m,
{
    if m < digits.len() {
        assert(digits.take(m + 1).drop_last() =~= digits.take(m));
        lemma_parsed_non_negative(digits.take(m));
        lemma_parsed_prefix_bounded(digits, m + 1);
        assert(digits.take(digits.len() as int) =~= digits);
    } else {
        assert(digits.take(m) =~= digits);
    }
}

/// Read an unsigned 64-bit number out of a command argument: an optional
/// leading plus sign followed by decimal digits. Anything else, and any value
/// too large to fit, yields `None`.
pub fn parse_u64(s: &str) -> (r: Option<u64>)
    ensures
        match r {
            Some(v) => spec_parses_as_u64(s@) && v == spec_parsed_u64(s@),
            None => !spec_parses_as_u64(s@),
        },
{
    let len = s.unicode_len();
    if len == 0 {
        return None;
    }
    let first = s.get_char(0);
    let start: usize = if first == '+' {
        1
    } else {
        0
    };
    if start == len {
        return None;
    }
    let ghost digits = spec_number_digits(s@);
    proof {
        assert(digits =~= s@.skip(start as int));
    }
    let mut acc: u64 = 0;
    let mut i: usize = start;
    proof {
        assert(s@.subrange(start as int, start as int) =~= Seq::<char>::empty());
    }
    while i < len
        invariant
            start <= i <= len,
            len == s@.len(),
            digits == spec_number_digits(s@),
            digits =~= s@.skip(start as int),
            forall|j: int| start <= j < i ==> spec_is_digit(#[trigger] s@[j]),
            acc == spec_parsed(s@.subrange(start as int, i as int)),
        decreases len - i,
    {
        let c = s.get_char(i);
        let u = c as u32;
        if u < 48 || u > 57 {
            proof {
                assert(digits[i - start as int] == s@[i as int]);
                assert(!spec_numeric_body(digits));
            }
            return None;
        }
        let d = (u - 48) as u64;
        let ghost prefix = s@.subrange(start as int, i as int);
        let ghost extended = s@.subrange(start as int, i as int + 1);
        proof {
            assert(extended.drop_last() =~= prefix);
            assert(extended.last() == s@[i as int]);
        }
        let widened = match acc.checked_mul(10) {
            Some(m) => m.checked_add(d),
            None => None,
        };
        match widened {
            Some(a) => {
                acc = a;
            },
            None => {
                proof {
                    assert(spec_parsed(extended) > u64::MAX);
                    if spec_numeric_body(digits) {
                        lemma_parsed_prefix_bounded(digits, i as int + 1 - start);
                        assert(digits.take(i as int + 1 - start) =~= extended);
                    }
                }
                return None;
            },
        }
        i = i + 1;
    }
    proof {
        assert(s@.subrange(start as int, len as int) =~= digits);
    }
    Some(acc)
}

} // verus!
