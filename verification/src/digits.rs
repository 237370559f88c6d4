//! Decimal notation for `u64` values: a spec-level definition of decimal
//! digit strings, a verified printer and parser, and the round-trip lemma
//! connecting them. Plot filenames and submission query strings are built
//! from these.

use vstd::prelude::*;
use vstd::string::StrSliceExecFns;
use vstd::string::StringExecFns;

verus! {

/// True of the ten ASCII decimal digit characters.
pub open spec fn is_dec_digit(c: char) -> bool {
    48 <= c as int && c as int <= 57
}

/// Numeric value of a decimal digit character.
pub open spec fn digit_val(c: char) -> nat
    recommends
        is_dec_digit(c),
{
    (c as int - 48) as nat
}

/// Every character of `s` is a decimal digit.
pub open spec fn all_dec_digits(s: Seq<char>) -> bool {
    forall|i: int| 0 <= i < s.len() ==> is_dec_digit(#[trigger] s[i])
}

/// Value of a digit string read in the usual left-to-right way.
pub open spec fn dec_val(s: Seq<char>) -> nat
    decreases s.len(),
{
    if s.len() == 0 {
        0
    } else {
        dec_val(s.drop_last()) * 10 + digit_val(s.last())
    }
}

/// The digit character for a value below ten.
pub open spec fn digit_char(d: nat) -> char
    recommends
        d < 10,
{
    if d == 0 {
        '0'
    } else if d == 1 {
        '1'
    } else if d == 2 {
        '2'
    } else if d == 3 {
        '3'
    } else if d == 4 {
        '4'
    } else if d == 5 {
        '5'
    } else if d == 6 {
        '6'
    } else if d == 7 {
        '7'
    } else if d == 8 {
        '8'
    } else {
        '9'
    }
}

/// Canonical decimal notation of `n`: no leading zeros except for `0` itself.
pub open spec fn dec_chars(n: nat) -> Seq<char>
    decreases n,
{
    if n < 10 {
        seq![digit_char(n)]
    } else {
        dec_chars(n / 10).push(digit_char(n % 10))
    }
}

pub proof fn lemma_digit_char_val(d: nat)
    requires
        d < 10,
    ensures
        is_dec_digit(digit_char(d)),
        digit_val(digit_char(d)) == d,
{
}

/// The canonical notation is nonempty and made of digits only.
pub proof fn lemma_dec_chars_digits(n: nat)
    ensures
        dec_chars(n).len() >= 1,
        all_dec_digits(dec_chars(n)),
    decreases n,
{
    if n < 10 {
        lemma_digit_char_val(n);
    } else {
        lemma_dec_chars_digits(n / 10);
        lemma_digit_char_val(n % 10);
    }
}

/// Reading back the canonical notation yields the value printed.
pub proof fn lemma_dec_val_of_dec_chars(n: nat)
    ensures
        dec_val(dec_chars(n)) == n,
    decreases n,
{
    if n < 10 {
        lemma_digit_char_val(n);
        assert(dec_chars(n).drop_last() =~= Seq::<char>::empty());
        assert(dec_val(Seq::<char>::empty()) == 0);
        assert(dec_chars(n).last() == digit_char(n));
    } else {
        lemma_dec_val_of_dec_chars(n / 10);
        lemma_digit_char_val(n % 10);
        assert(dec_chars(n).drop_last() =~= dec_chars(n / 10));
        assert(dec_chars(n).last() == digit_char(n % 10));
        assert(dec_chars(n).len() > 0);
        assert(dec_val(dec_chars(n)) == dec_val(dec_chars(n).drop_last()) * 10 + digit_val(
            dec_chars(n).last(),
        ));
        assert(dec_val(dec_chars(n).drop_last()) == n / 10);
        assert(digit_val(dec_chars(n).last()) == n % 10);
        assert((n / 10) * 10 + n % 10 == n) by (nonlinear_arith);
    }
}

/// The value of a digit-string prefix never exceeds the value of the whole.
pub proof fn lemma_dec_val_take_le(s: Seq<char>, i: int)
    requires
        all_dec_digits(s),
        0 <= i <= s.len(),
    ensures
        dec_val(s.take(i)) <= dec_val(s),
    decreases s.len() - i,
{
    if i == s.len() {
        assert(s.take(i) =~= s);
    } else {
        lemma_dec_val_take_le(s, i + 1);
        assert(s.take(i + 1).drop_last() =~= s.take(i));
        assert(dec_val(s.take(i + 1)) == dec_val(s.take(i)) * 10 + digit_val(s[i]));
    }
}

/// What `parse_u64` returns: the value of a nonempty all-digit string that
/// fits in a `u64`, and nothing else.
pub open spec fn spec_parse_u64(s: Seq<char>) -> Option<u64> {
    if s.len() >= 1 && all_dec_digits(s) && dec_val(s) <= u64::MAX {
        Some(dec_val(s) as u64)
    } else {
        None
    }
}

/// A single decimal digit as a string slice.
fn digit_to_str(d: u64) -> (r: &'static str)
    requires
        d < 10,
    ensures
        r@ =~= seq![digit_char(d as nat)],
{
    if d == 0 {
        proof {
            reveal_strlit("0");
        }
        "0"
    } else if d == 1 {
        proof {
            reveal_strlit("1");
        }
        "1"
    } else if d == 2 {
        proof {
            reveal_strlit("2");
        }
        "2"
    } else if d == 3 {
        proof {
            reveal_strlit("3");
        }
        "3"
    } else if d == 4 {
        proof {
            reveal_strlit("4");
        }
        "4"
    } else if d == 5 {
        proof {
            reveal_strlit("5");
        }
        "5"
    } else if d == 6 {
        proof {
            reveal_strlit("6");
        }
        "6"
    } else if d == 7 {
        proof {
            reveal_strlit("7");
        }
        "7"
    } else if d == 8 {
        proof {
            reveal_strlit("8");
        }
        "8"
    } else {
        proof {
            reveal_strlit("9");
        }
        "9"
    }
}

/// Canonical decimal rendering of a `u64`.
pub fn u64_to_string(n: u64) -> (r: String)
    ensures
        r@ == dec_chars(n as nat),
    decreases n,
{
    if n < 10 {
        let r = String::from_str(digit_to_str(n));
        assert(r@ =~= dec_chars(n as nat));
        r
    } else {
        let mut r = u64_to_string(n / 10);
        r.append(digit_to_str(n % 10));
        assert(r@ =~= dec_chars(n as nat));
        r
    }
}

/// Parses a nonempty, all-digit decimal string into a `u64`; rejects
/// anything else, including values past `u64::MAX`.
pub fn parse_u64(s: &str) -> (r: Option<u64>)
    ensures
        r == spec_parse_u64(s@),
{
    let n: usize = s.unicode_len();
    if n == 0 {
        return None;
    }
    let mut acc: u64 = 0;
    let mut i: usize = 0;
    while i < n
        invariant
            0 <= i <= n,
            n == s@.len(),
            all_dec_digits(s@.take(i as int)),
            acc == dec_val(s@.take(i as int)),
        decreases n - i,
    {
        let c = s.get_char(i);
        let cv: u32 = c as u32;
        if cv < 48 || cv > 57 {
            assert(!is_dec_digit(s@[i as int]));
            return None;
        }
        let d: u64 = (cv - 48) as u64;
        proof {
            assert(s@.take(i + 1).drop_last() =~= s@.take(i as int));
            assert(s@.take(i + 1).last() == s@[i as int]);
        }
        let step = match acc.checked_mul(10) {
            Some(t) => t.checked_add(d),
            None => None,
        };
        match step {
            Some(next) => {
                acc = next;
            },
            None => {
                proof {
                    if all_dec_digits(s@) {
                        lemma_dec_val_take_le(s@, i + 1);
                    }
                }
                return None;
            },
        }
        i = i + 1;
    }
    proof {
        assert(s@.take(n as int) =~= s@);
    }
    Some(acc)
}

/// Printing and parsing are inverse: the canonical notation of any `u64`
/// parses back to that value.
pub proof fn lemma_parse_u64_roundtrip(n: u64)
    ensures
        spec_parse_u64(dec_chars(n as nat)) == Some(n),
{
    lemma_dec_chars_digits(n as nat);
    lemma_dec_val_of_dec_chars(n as nat);
}

} // verus!
