//! Conversion of an UpperCamelCase type name to a lower_snake_case
//! identifier, the default table-name convention.
//!
//! Rule: scanning left to right, every uppercase ASCII letter except the
//! very first character of the string is preceded by an inserted `_`, and
//! every uppercase letter is lowercased; all other characters pass through
//! unchanged. Consecutive uppercase letters are not treated as one unit:
//! each gets its own separator.

use vstd::prelude::*;

verus! {

/// True when `c` is an uppercase ASCII letter (`A` through `Z`).
pub open spec fn is_upper_ascii(c: char) -> bool {
    65 <= (c as u32) && (c as u32) <= 90
}

/// The lowercase counterpart of `c`: uppercase ASCII letters move down by
/// 32 code points, every other character is unchanged.
pub open spec fn lower_char(c: char) -> char {
    if is_upper_ascii(c) {
        ((c as u32) + 32) as char
    } else {
        c
    }
}

/// What one input character contributes to the converted name: a separator
/// (unless the character opens the string) and the lowercased letter for an
/// uppercase letter, the character itself otherwise.
pub open spec fn snake_piece(c: char, first: bool) -> Seq<char> {
    if is_upper_ascii(c) {
        (if first {
            Seq::<char>::empty()
        } else {
            seq!['_']
        }) + seq![lower_char(c)]
    } else {
        seq![c]
    }
}

/// The whole converted name: the concatenation of each character's
/// contribution, in order.
pub open spec fn snake_of(s: Seq<char>) -> Seq<char>
    decreases s.len(),
{
    if s.len() == 0 {
        Seq::<char>::empty()
    } else {
        snake_of(s.drop_last()) + snake_piece(s.last(), s.len() == 1)
    }
}

/// Relies on `char::to_ascii_lowercase`: maps `A` through `Z` to `a`
/// through `z` (32 code points up) and returns every other character
/// unchanged.
#[verifier::external_body]
fn to_lower_ascii(c: char) -> (r: char)
    ensures
        r == lower_char(c),
{
    c.to_ascii_lowercase()
}

/// Relies on `String::push`: appends the given character to the end of the
/// string.
#[verifier::external_body]
fn push_char(s: &mut String, c: char)
    ensures
        final(s)@ == old(s)@.push(c),
{
    s.push(c)
}

/// Converts an UpperCamelCase name to lower_snake_case: an `_` is inserted
/// before every uppercase ASCII letter except the first character, every
/// uppercase letter is lowercased, and all other characters pass through.
pub fn to_snake_case(text: &str) -> (r: String)
    ensures
        r@ == snake_of(text@),
{
    let n: usize = text.unicode_len();
    let mut result = String::new();
    let mut i: usize = 0;
    while i < n
        invariant
            i <= n,
            n == text@.len(),
            result@ == snake_of(text@.take(i as int)),
        decreases n - i,
    {
        let c = text.get_char(i);
        let u: u32 = c as u32;
        proof {
            assert(text@.take(i as int + 1).drop_last() =~= text@.take(i as int));
            assert(text@.take(i as int + 1).last() == text@[i as int]);
        }
        if 65 <= u && u <= 90 {
            if i != 0 {
                result.append("_");
                proof {
                    reveal_strlit("_");
                    assert("_"@ =~= seq!['_']);
                }
            }
            push_char(&mut result, to_lower_ascii(c));
        } else {
            push_char(&mut result, c);
        }
        proof {
            assert(result@ =~= snake_of(text@.take(i as int + 1)));
        }
        i = i + 1;
    }
    proof {
        assert(text@.take(n as int) =~= text@);
    }
    result
}

} // verus!
