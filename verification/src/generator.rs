//! Generated values: strings of a requested length over the printable ASCII
//! characters, without those that the caller excludes.
//!
//! Exclusions are written as items separated by two commas. The items
//! `symbol`, `digit`, `uppercase` and `lowercase` exclude a class of
//! characters; any other item excludes each of its own bytes.

use vstd::prelude::*;
use vstd::slice::slice_subrange;
use vstd::string::StringSliceAdditionalSpecFns;
use vstd::utf8::is_ascii_chars_encode_utf8;
use crate::failure::{Failure, FailureView};
use crate::random::random_below;
use crate::text::bytes_eq;

verus! {

/// The first printable character that is not a space.
pub const FIRST_PRINTABLE: u8 = 33;

/// The last printable character.
pub const LAST_PRINTABLE: u8 = 126;

/// The comma, two of which separate items.
pub const COMMA: u8 = 44;

/// Punctuation: the printable characters that are neither digits nor letters.
pub open spec fn is_symbol(c: u8) -> bool {
    33 <= c <= 47 || 58 <= c <= 64 || 91 <= c <= 96 || 123 <= c <= 126
}

/// The digits `0` to `9`.
pub open spec fn is_digit(c: u8) -> bool {
    48 <= c <= 57
}

/// The letters `A` to `Z`.
pub open spec fn is_uppercase(c: u8) -> bool {
    65 <= c <= 90
}

/// The letters `a` to `z`.
pub open spec fn is_lowercase(c: u8) -> bool {
    97 <= c <= 122
}

/// Whether one item excludes the byte `c`.
pub open spec fn item_excludes(item: Seq<u8>, c: u8) -> bool {
    if item == "symbol".spec_bytes() {
        is_symbol(c)
    } else if item == "digit".spec_bytes() {
        is_digit(c)
    } else if item == "uppercase".spec_bytes() {
        is_uppercase(c)
    } else if item == "lowercase".spec_bytes() {
        is_lowercase(c)
    } else {
        item.contains(c)
    }
}

/// The length of the first item of `s`: the position of the first two commas
/// in a row, or the length of `s` where there are none.
pub open spec fn first_item_len(s: Seq<u8>) -> int
    decreases s.len(),
{
    if s.len() < 2 {
        s.len() as int
    } else if s[0] == COMMA && s[1] == COMMA {
        0
    } else {
        1 + first_item_len(s.drop_first())
    }
}

/// Whether some item of the list `s` excludes the byte `c`.
pub open spec fn excludes(s: Seq<u8>, c: u8) -> bool
    decreases s.len(),
{
    let n = first_item_len(s);
    item_excludes(s.take(n), c) || (0 <= n && n + 2 <= s.len() && excludes(s.skip(n + 2), c))
}

/// Whether values may hold the byte `c` under the exclusions `s`.
pub open spec fn allowed(s: Seq<u8>, c: u8) -> bool {
    FIRST_PRINTABLE <= c <= LAST_PRINTABLE && !excludes(s, c)
}

/// Whether the character `ch` is one of the allowed bytes.
pub open spec fn drawn_from(s: Seq<u8>, ch: char) -> bool {
    exists|c: u8| allowed(s, c) && ch == c as char
}

/// Every printable character belongs to exactly one of the four classes.
pub proof fn lemma_classes_partition(c: u8)
    requires
        FIRST_PRINTABLE <= c <= LAST_PRINTABLE,
    ensures
        is_symbol(c) || is_digit(c) || is_uppercase(c) || is_lowercase(c),
        !(is_symbol(c) && is_digit(c)),
        !(is_symbol(c) && is_uppercase(c)),
        !(is_symbol(c) && is_lowercase(c)),
        !(is_digit(c) && is_uppercase(c)),
        !(is_digit(c) && is_lowercase(c)),
        !(is_uppercase(c) && is_lowercase(c)),
{
}

/// Whether `item` is one of the items of the list `s`.
pub open spec fn has_item(s: Seq<u8>, item: Seq<u8>) -> bool
    decreases s.len(),
{
    let n = first_item_len(s);
    s.take(n) == item || (0 <= n && n + 2 <= s.len() && has_item(s.skip(n + 2), item))
}

/// What an item of the list excludes, the list excludes.
pub proof fn lemma_item_excludes(s: Seq<u8>, item: Seq<u8>, c: u8)
    requires
        has_item(s, item),
        item_excludes(item, c),
    ensures
        excludes(s, c),
    decreases s.len(),
{
    let n = first_item_len(s);
    if s.take(n) != item {
        lemma_item_excludes(s.skip(n + 2), item, c);
    }
}

/// The names of the four classes are four different words.
pub proof fn lemma_class_names_differ()
    ensures
        "symbol".spec_bytes() != "digit".spec_bytes(),
        "symbol".spec_bytes() != "uppercase".spec_bytes(),
        "symbol".spec_bytes() != "lowercase".spec_bytes(),
        "digit".spec_bytes() != "uppercase".spec_bytes(),
        "digit".spec_bytes() != "lowercase".spec_bytes(),
        "uppercase".spec_bytes() != "lowercase".spec_bytes(),
{
    reveal_strlit("symbol");
    reveal_strlit("digit");
    reveal_strlit("uppercase");
    reveal_strlit("lowercase");
    is_ascii_chars_encode_utf8("symbol"@);
    is_ascii_chars_encode_utf8("digit"@);
    is_ascii_chars_encode_utf8("uppercase"@);
    is_ascii_chars_encode_utf8("lowercase"@);
    assert("uppercase"@[0] == 'u');
    assert("lowercase"@[0] == 'l');
}

/// Under a list that has the items `digit` and `symbol`, values hold letters only.
pub proof fn lemma_without_digits_and_symbols(s: Seq<u8>, c: u8)
    requires
        has_item(s, "digit".spec_bytes()),
        has_item(s, "symbol".spec_bytes()),
        allowed(s, c),
    ensures
        is_uppercase(c) || is_lowercase(c),
{
    lemma_class_names_differ();
    lemma_classes_partition(c);
    if is_digit(c) {
        lemma_item_excludes(s, "digit".spec_bytes(), c);
    }
    if is_symbol(c) {
        lemma_item_excludes(s, "symbol".spec_bytes(), c);
    }
}

/// Under a list that has all four classes as items, nothing is allowed.
pub proof fn lemma_all_classes_leave_nothing(s: Seq<u8>, c: u8)
    requires
        has_item(s, "symbol".spec_bytes()),
        has_item(s, "digit".spec_bytes()),
        has_item(s, "uppercase".spec_bytes()),
        has_item(s, "lowercase".spec_bytes()),
    ensures
        !allowed(s, c),
{
    lemma_class_names_differ();
    if FIRST_PRINTABLE <= c <= LAST_PRINTABLE {
        lemma_classes_partition(c);
        if is_symbol(c) {
            lemma_item_excludes(s, "symbol".spec_bytes(), c);
        } else if is_digit(c) {
            lemma_item_excludes(s, "digit".spec_bytes(), c);
        } else if is_uppercase(c) {
            lemma_item_excludes(s, "uppercase".spec_bytes(), c);
        } else {
            lemma_item_excludes(s, "lowercase".spec_bytes(), c);
        }
    }
}

/// The first item ends within the list.
pub proof fn lemma_first_item_len_bounds(s: Seq<u8>)
    ensures
        0 <= first_item_len(s) <= s.len(),
    decreases s.len(),
{
    if s.len() >= 2 && !(s[0] == COMMA && s[1] == COMMA) {
        lemma_first_item_len_bounds(s.drop_first());
    }
}

/// Whether the item excludes the byte.
pub fn item_excludes_byte(item: &[u8], c: u8) -> (r: bool)
    ensures
        r == item_excludes(item@, c),
{
    if bytes_eq(item, "symbol".as_bytes()) {
        (33 <= c && c <= 47) || (58 <= c && c <= 64) || (91 <= c && c <= 96) || (123 <= c && c
            <= 126)
    } else if bytes_eq(item, "digit".as_bytes()) {
        48 <= c && c <= 57
    } else if bytes_eq(item, "uppercase".as_bytes()) {
        65 <= c && c <= 90
    } else if bytes_eq(item, "lowercase".as_bytes()) {
        97 <= c && c <= 122
    } else {
        contains_byte(item, c)
    }
}

/// Whether the byte occurs in the slice.
pub fn contains_byte(bytes: &[u8], c: u8) -> (r: bool)
    ensures
        r == bytes@.contains(c),
{
    let mut i: usize = 0;
    while i < bytes.len()
        invariant
            i <= bytes@.len(),
            forall|j: int| 0 <= j < i ==> bytes@[j] != c,
        decreases bytes@.len() - i,
    {
        if bytes[i] == c {
            return true;
        }
        i += 1;
    }
    false
}

/// Where the item that starts at `start` ends.
pub fn item_end(list: &[u8], start: usize) -> (end: usize)
    requires
        start <= list@.len(),
    ensures
        end == start + first_item_len(list@.skip(start as int)),
        start <= end <= list@.len(),
{
    let mut i: usize = start;
    proof {
        lemma_first_item_len_bounds(list@.skip(start as int));
    }
    while i < list.len() && i + 1 < list.len()
        invariant
            start <= i <= list@.len(),
            first_item_len(list@.skip(start as int)) == (i - start) + first_item_len(
                list@.skip(i as int),
            ),
            0 <= first_item_len(list@.skip(start as int)) <= list@.len() - start,
        decreases list@.len() - i,
    {
        if list[i] == COMMA && list[i + 1] == COMMA {
            return i;
        }
        assert(list@.skip(i as int).drop_first() =~= list@.skip(i + 1));
        i += 1;
    }
    list.len()
}

/// Whether the list of exclusions excludes the byte.
pub fn is_excluded(list: &[u8], c: u8) -> (r: bool)
    ensures
        r == excludes(list@, c),
{
    let mut start: usize = 0;
    assert(list@.skip(0) =~= list@);
    loop
        invariant
            start <= list@.len(),
            excludes(list@, c) == excludes(list@.skip(start as int), c),
        decreases list@.len() - start,
    {
        let end = item_end(list, start);
        let item = slice_subrange(list, start, end);
        proof {
            let rest = list@.skip(start as int);
            assert(rest.take(end - start) =~= list@.subrange(start as int, end as int));
            if end + 2 <= list@.len() {
                assert(rest.skip(end - start + 2) =~= list@.skip(end + 2));
            }
        }
        if item_excludes_byte(item, c) {
            return true;
        }
        if end >= list.len() || list.len() - end < 2 {
            return false;
        }
        start = end + 2;
    }
}

/// The bytes that values are drawn from, in ascending order.
pub fn alphabet(disallow: &str) -> (r: Vec<u8>)
    ensures
        forall|c: u8| r@.contains(c) <==> allowed(disallow.spec_bytes(), c),
        forall|i: int, j: int| 0 <= i < j < r@.len() ==> r@[i] < r@[j],
{
    let list = disallow.as_bytes();
    let mut out: Vec<u8> = Vec::new();
    let mut c: u8 = FIRST_PRINTABLE;
    while c <= LAST_PRINTABLE
        invariant
            FIRST_PRINTABLE <= c <= LAST_PRINTABLE + 1,
            list@ == disallow.spec_bytes(),
            forall|b: u8| out@.contains(b) <==> b < c && allowed(list@, b),
            forall|i: int, j: int| 0 <= i < j < out@.len() ==> out@[i] < out@[j],
        decreases LAST_PRINTABLE + 1 - c,
    {
        if !is_excluded(list, c) {
            let ghost before = out@;
            out.push(c);
            proof {
                assert(out@.last() == c);
                assert forall|b: u8| out@.contains(b) <==> b < c + 1 && allowed(list@, b) by {
                    if before.contains(b) {
                        let i = choose|i: int| 0 <= i < before.len() && before[i] == b;
                        assert(out@[i] == b);
                    }
                    if out@.contains(b) && b != c {
                        let i = choose|i: int| 0 <= i < out@.len() && out@[i] == b;
                        assert(before[i] == b);
                    }
                }
                assert forall|i: int, j: int| 0 <= i < j < out@.len() implies out@[i] < out@[j] by {
                    if j == out@.len() - 1 {
                        assert(before.contains(before[i]));
                    }
                }
            }
        }
        c += 1;
    }
    out
}

/// The character for the byte at `index` of the alphabet.
pub fn letter_at(letters: &[u8], index: usize) -> (r: char)
    requires
        index < letters@.len(),
    ensures
        r == letters@[index as int] as char,
{
    letters[index] as char
}

/// A value of `length` characters, each drawn at random from the printable
/// characters that `disallow` leaves. This fails, whatever the length, where
/// it leaves none.
pub fn generate(length: usize, disallow: &str) -> (r: Result<String, Failure>)
    ensures
        match r {
            Ok(value) => value@.len() == length && forall|i: int|
                0 <= i < length ==> drawn_from(disallow.spec_bytes(), #[trigger] value@[i]),
            Err(e) => e@ == FailureView::EmptyAlphabet,
        },
        r is Err <==> forall|c: u8| !allowed(disallow.spec_bytes(), c),
{
    let letters = alphabet(disallow);
    if letters.len() == 0 {
        proof {
            assert forall|c: u8| !allowed(disallow.spec_bytes(), c) by {
                if allowed(disallow.spec_bytes(), c) {
                    assert(letters@.contains(c));
                }
            }
        }
        return Err(Failure::EmptyAlphabet);
    }
    proof {
        assert(letters@.contains(letters@[0]));
    }
    let mut value = String::new();
    let mut i: usize = 0;
    while i < length
        invariant
            i <= length,
            letters@.len() > 0,
            value@.len() == i,
            forall|c: u8| letters@.contains(c) <==> allowed(disallow.spec_bytes(), c),
            forall|k: int| 0 <= k < i ==> drawn_from(disallow.spec_bytes(), #[trigger] value@[k]),
        decreases length - i,
    {
        let pick = random_below(letters.len());
        let letter = letter_at(letters.as_slice(), pick);
        proof {
            assert(letters@.contains(letters@[pick as int]));
        }
        value.push(letter);
        i += 1;
    }
    Ok(value)
}

} // verus!
