//! Parsing of a grid-dimension argument: a non-empty string of decimal
//! digits, read in base ten, rejected when malformed or too large for
//! `isize`.

use vstd::prelude::*;

verus! {

/// Whether `c` is a decimal digit.
pub open spec fn is_digit(c: char) -> bool {
    '0' <= c && c <= '9'
}

/// The numeric value of a decimal digit.
pub open spec fn digit_val(c: char) -> int {
    c as int - '0' as int
}

/// Every character of the string is a decimal digit.
pub open spec fn all_digits(s: Seq<char>) -> bool {
    forall|i: int| 0 <= i < s.len() ==> is_digit(#[trigger] s[i])
}

/// The value of a digit string read in base ten, most significant digit
/// first; the empty string reads as zero.
pub open spec fn decimal_val(s: Seq<char>) -> int
    decreases s.len(),
{
    if s.len() == 0 {
        0
    } else {
        decimal_val(s.drop_last()) * 10 + digit_val(s.last())
    }
}

/// A digit string never reads as a negative value.
pub proof fn lemma_decimal_val_nonneg(s: Seq<char>)
    requires
        all_digits(s),
    ensures
        decimal_val(s) >= 0,
    decreases s.len(),
{
    if s.len() > 0 {
        assert forall|i: int| 0 <= i < s.drop_last().len() implies is_digit(
            #[trigger] s.drop_last()[i],
        ) by {
            assert(s.drop_last()[i] == s[i]);
        }
        lemma_decimal_val_nonneg(s.drop_last());
        assert(is_digit(s.last()));
    }
}

/// Reading more digits never shrinks the value: a prefix of a digit string
/// reads as at most the whole string's value.
pub proof fn lemma_decimal_val_prefix_le(s: Seq<char>, j: int)
    requires
        all_digits(s),
        0 <= j <= s.len(),
    ensures
        decimal_val(s.take(j)) <= decimal_val(s),
    decreases s.len() - j,
{
    if j == s.len() {
        assert(s.take(j) =~= s);
    } else {
        assert forall|i: int| 0 <= i < j implies is_digit(#[trigger] s.take(j)[i]) by {
            assert(s.take(j)[i] == s[i]);
        }
        lemma_decimal_val_nonneg(s.take(j));
        assert(s.take(j + 1).drop_last() =~= s.take(j));
        assert(s.take(j + 1).last() == s[j]);
        assert(decimal_val(s.take(j + 1)) == decimal_val(s.take(j)) * 10 + digit_val(s[j]));
        assert(is_digit(s[j]));
        lemma_decimal_val_prefix_le(s, j + 1);
    }
}

/// Parses a grid-dimension argument. `Some` comes back exactly for a
/// non-empty all-digit string whose value fits an `isize`, and carries
/// that value; anything else — empty, a sign, a stray character, or a
/// value past `isize::MAX` — comes back `None` for the caller to report.
pub fn arg_to_isize(arg: &String) -> (parsed: Option<isize>)
    ensures
        parsed is Some <==> (arg@.len() > 0 && all_digits(arg@) && decimal_val(arg@)
            <= isize::MAX as int),
        parsed matches Some(v) ==> v as int == decimal_val(arg@),
{
    let s = arg.as_str();
    let len = s.unicode_len();
    if len == 0 {
        return None;
    }
    let mut val: i128 = 0;
    let mut i: usize = 0;
    while i < len
        invariant
            i <= len,
            len == s@.len(),
            s@ == arg@,
            0 <= val <= isize::MAX as i128,
            all_digits(arg@.take(i as int)),
            val as int == decimal_val(arg@.take(i as int)),
        decreases len - i,
    {
        let c = s.get_char(i);
        if c < '0' || '9' < c {
            proof {
                assert(!is_digit(arg@[i as int]));
            }
            return None;
        }
        let d: i128 = (c as u32 - 48) as i128;
        let next: i128 = val * 10 + d;
        proof {
            assert(arg@.take(i + 1).drop_last() =~= arg@.take(i as int));
            assert(arg@.take(i + 1).last() == arg@[i as int]);
            assert forall|k: int| 0 <= k < i + 1 implies is_digit(
                #[trigger] arg@.take(i + 1)[k],
            ) by {
                assert(arg@.take(i + 1)[k] == arg@[k]);
            }
            assert(next as int == decimal_val(arg@.take(i + 1)));
        }
        if next > isize::MAX as i128 {
            proof {
                if all_digits(arg@) {
                    lemma_decimal_val_prefix_le(arg@, i + 1);
                }
            }
            return None;
        }
        val = next;
        i += 1;
    }
    proof {
        assert(arg@.take(len as int) =~= arg@);
    }
    Some(val as isize)
}

} // verus!
