//! The classification code in an asset's name.
//!
//! An asset is named after its element, as in `Carbon #6`: the text after the
//! last `#` is the atomic number. The ledger pads a name with NUL characters
//! to a fixed length, so these are dropped before the number is read; white
//! space around the number is dropped too.

use vstd::prelude::*;
use crate::record::StakeError;

verus! {

/// Whether `c` is white space: a character with the Unicode property
/// `White_Space`.
pub open spec fn is_white_space(c: char) -> bool {
    let n = c as u32;
    ||| 0x09 <= n <= 0x0D
    ||| n == 0x20
    ||| n == 0x85
    ||| n == 0xA0
    ||| n == 0x1680
    ||| 0x2000 <= n <= 0x200A
    ||| n == 0x2028
    ||| n == 0x2029
    ||| n == 0x202F
    ||| n == 0x205F
    ||| n == 0x3000
}

/// Whether `c` is one of the decimal digits `0` to `9`.
pub open spec fn is_decimal_digit(c: char) -> bool {
    '0' <= c <= '9'
}

/// The position just behind the last `#` of `s`, or 0 where `s` has none.
pub open spec fn last_segment_start(s: Seq<char>) -> int
    decreases s.len(),
{
    if s.len() == 0 {
        0
    } else if s.last() == '#' {
        s.len() as int
    } else {
        last_segment_start(s.drop_last())
    }
}

/// How many characters of white space `s` begins with.
pub open spec fn leading_space(s: Seq<char>) -> int
    decreases s.len(),
{
    if s.len() > 0 && is_white_space(s.first()) {
        1 + leading_space(s.drop_first())
    } else {
        0
    }
}

/// How many characters of white space `s` ends with.
pub open spec fn trailing_space(s: Seq<char>) -> int
    decreases s.len(),
{
    if s.len() > 0 && is_white_space(s.last()) {
        1 + trailing_space(s.drop_last())
    } else {
        0
    }
}

/// `s` without the white space at its two ends.
pub open spec fn trimmed(s: Seq<char>) -> Seq<char> {
    if leading_space(s) == s.len() {
        Seq::empty()
    } else {
        s.subrange(leading_space(s), s.len() - trailing_space(s))
    }
}

/// `s` without its NUL characters.
pub open spec fn without_nul(s: Seq<char>) -> Seq<char>
    decreases s.len(),
{
    if s.len() == 0 {
        s
    } else if s.last() == '\0' {
        without_nul(s.drop_last())
    } else {
        without_nul(s.drop_last()).push(s.last())
    }
}

/// The text of a name in which its number is looked for: what follows the
/// last `#` (the whole name where there is none), trimmed of white space and
/// then freed of NUL characters.
pub open spec fn number_text(name: Seq<char>) -> Seq<char> {
    without_nul(trimmed(name.skip(last_segment_start(name))))
}

/// Whether `s` is a decimal numeral: at least one character, all of them
/// decimal digits.
pub open spec fn is_numeral(s: Seq<char>) -> bool {
    s.len() > 0 && forall|i: int| 0 <= i < s.len() ==> is_decimal_digit(#[trigger] s[i])
}

/// The number that the decimal digits of `s` denote.
pub open spec fn decimal_value(s: Seq<char>) -> nat
    decreases s.len(),
{
    if s.len() == 0 {
        0
    } else {
        (10 * decimal_value(s.drop_last()) + (s.last() as u32 - '0' as u32)) as nat
    }
}

/// The atomic number that a name carries: the value of its number text where
/// that is a numeral of a value up to 255, and `InvalidElementName` otherwise.
pub open spec fn atomic_number_of(name: Seq<char>) -> Result<u8, StakeError> {
    let text = number_text(name);
    if is_numeral(text) && decimal_value(text) <= 255 {
        Ok(decimal_value(text) as u8)
    } else {
        Err(StakeError::InvalidElementName)
    }
}

/// Whether `c` is white space.
pub fn white_space(c: char) -> (white: bool)
    ensures
        white == is_white_space(c),
{
    let n: u32 = c as u32;
    (0x09 <= n && n <= 0x0D) || n == 0x20 || n == 0x85 || n == 0xA0 || n == 0x1680 || (0x2000 <= n
        && n <= 0x200A) || n == 0x2028 || n == 0x2029 || n == 0x202F || n == 0x205F || n == 0x3000
}

/// The characters of `text`, in order.
fn characters(text: &str) -> (chars: Vec<char>)
    ensures
        chars@ == text@,
{
    let mut chars: Vec<char> = Vec::new();
    for c in it: text.chars()
        invariant
            chars@ == it.history(),
    {
        chars.push(c);
    }
    chars
}

proof fn lemma_last_segment_start(s: Seq<char>, k: int)
    requires
        0 <= k <= s.len(),
        k == 0 || s[k - 1] == '#',
        forall|j: int| k <= j < s.len() ==> s[j] != '#',
    ensures
        last_segment_start(s) == k,
    decreases s.len(),
{
    if s.len() > 0 && s.last() != '#' {
        lemma_last_segment_start(s.drop_last(), k);
    }
}

proof fn lemma_leading_space(s: Seq<char>, k: int)
    requires
        0 <= k <= s.len(),
        forall|j: int| 0 <= j < k ==> is_white_space(s[j]),
        k == s.len() || !is_white_space(s[k]),
    ensures
        leading_space(s) == k,
    decreases s.len(),
{
    if k > 0 {
        lemma_leading_space(s.drop_first(), k - 1);
    }
}

proof fn lemma_trailing_space(s: Seq<char>, k: int)
    requires
        0 <= k <= s.len(),
        forall|j: int| s.len() - k <= j < s.len() ==> is_white_space(s[j]),
        k == s.len() || !is_white_space(s[s.len() - k - 1]),
    ensures
        trailing_space(s) == k,
    decreases s.len(),
{
    if k > 0 {
        lemma_trailing_space(s.drop_last(), k - 1);
    }
}

/// The value of a numeral, capped just above the largest atomic number that
/// fits a byte.
spec fn capped_value(s: Seq<char>) -> int {
    if decimal_value(s) <= 255 {
        decimal_value(s) as int
    } else {
        256
    }
}

/// The atomic number that `name` carries.
///
/// Fails with `InvalidElementName` exactly when the text after the last `#`,
/// trimmed and freed of NUL characters, is empty, holds anything but decimal
/// digits, or denotes a number above 255.
pub fn atomic_number(name: &str) -> (number: Result<u8, StakeError>)
    ensures
        number == atomic_number_of(name@),
{
    let chars = characters(name);
    let n = chars.len();
    let mut start: usize = n;
    while start > 0 && chars[start - 1] != '#'
        invariant
            start <= n,
            n == chars@.len(),
            forall|j: int| start <= j < n ==> chars@[j] != '#',
        decreases start,
    {
        start -= 1;
    }
    let ghost segment = chars@.skip(start as int);
    proof {
        lemma_last_segment_start(chars@, start as int);
    }
    let mut from: usize = start;
    while from < n && white_space(chars[from])
        invariant
            start <= from <= n,
            n == chars@.len(),
            forall|j: int| start <= j < from ==> is_white_space(chars@[j]),
        decreases n - from,
    {
        from += 1;
    }
    let mut to: usize = n;
    while to > from && white_space(chars[to - 1])
        invariant
            from <= to <= n,
            n == chars@.len(),
            forall|j: int| to <= j < n ==> is_white_space(chars@[j]),
        decreases to,
    {
        to -= 1;
    }
    proof {
        lemma_leading_space(segment, from - start);
        if from < n {
            lemma_trailing_space(segment, n - to);
        }
        assert(trimmed(segment) =~= chars@.subrange(from as int, to as int));
    }
    let mut digits: usize = 0;
    let mut valid: bool = true;
    let mut value: u32 = 0;
    let mut i: usize = from;
    assert(chars@.subrange(from as int, from as int) =~= Seq::<char>::empty());
    while i < to
        invariant
            from <= i <= to <= n,
            n == chars@.len(),
            digits == without_nul(chars@.subrange(from as int, i as int)).len(),
            digits <= i - from,
            valid == (forall|j: int|
                0 <= j < without_nul(chars@.subrange(from as int, i as int)).len()
                    ==> is_decimal_digit(
                    #[trigger] without_nul(chars@.subrange(from as int, i as int))[j],
                )),
            valid ==> value == capped_value(without_nul(chars@.subrange(from as int, i as int))),
            value <= 256,
        decreases to - i,
    {
        let c = chars[i];
        let ghost before = without_nul(chars@.subrange(from as int, i as int));
        let ghost after = without_nul(chars@.subrange(from as int, i + 1));
        proof {
            assert(chars@.subrange(from as int, i + 1).drop_last() =~= chars@.subrange(
                from as int,
                i as int,
            ));
            assert(chars@.subrange(from as int, i + 1).last() == c);
        }
        if c != '\0' {
            assert(after == before.push(c));
            assert(after.drop_last() =~= before);
            digits += 1;
            if '0' <= c && c <= '9' {
                let d: u32 = c as u32 - '0' as u32;
                if value < 256 {
                    value = value * 10 + d;
                    if value > 256 {
                        value = 256;
                    }
                }
                assert(valid ==> forall|j: int|
                    0 <= j < after.len() ==> is_decimal_digit(#[trigger] after[j])) by {
                    if valid {
                        assert forall|j: int| 0 <= j < after.len() implies is_decimal_digit(
                            #[trigger] after[j],
                        ) by {
                            if j < before.len() {
                                assert(after[j] == before[j]);
                            }
                        }
                    }
                }
                assert(!valid ==> !(forall|j: int|
                    0 <= j < after.len() ==> is_decimal_digit(#[trigger] after[j]))) by {
                    if !valid {
                        let w = choose|j: int|
                            0 <= j < before.len() && !is_decimal_digit(#[trigger] before[j]);
                        assert(after[w] == before[w]);
                    }
                }
            } else {
                assert(!is_decimal_digit(after[after.len() - 1]));
                valid = false;
            }
        } else {
            assert(after == before);
        }
        i += 1;
    }
    proof {
        assert(number_text(name@) == without_nul(chars@.subrange(from as int, to as int)));
    }
    if valid && digits > 0 && value <= 255 {
        Ok(value as u8)
    } else {
        Err(StakeError::InvalidElementName)
    }
}

} // verus!
