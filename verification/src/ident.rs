//! Client identifiers: UUIDs, held as the 128-bit number that they are.

use uuid::Uuid;
use vstd::prelude::*;

verus! {

/// Whether `id` carries the marks of a random UUID: version 4 in the thirteenth
/// hex digit, and the RFC 4122 variant in the two top bits of the seventeenth.
pub open spec fn is_random_id(id: u128) -> bool {
    &&& (id >> 76u128) & 0xf == 4
    &&& (id >> 62u128) & 0x3 == 2
}

/// Draws a client id with `Uuid::new_v4`. Trusted: whatever is drawn has the
/// version and variant of a random UUID. Nothing is said of its other bits,
/// which come from the system's random source (where there is none, the outside
/// function panics).
#[verifier::external_body]
pub(crate) fn new_id() -> (id: u128)
    ensures
        is_random_id(id),
{
    Uuid::new_v4().as_u128()
}

/// Whether `id` is an outcome of drawing an id. That is known only of an id that
/// was drawn: no id that is made up meets it.
pub open(crate) spec fn drawn(id: u128) -> bool {
    call_ensures(new_id, (), id)
}

/// A hexadecimal digit, in lower case.
pub open spec fn hex_digit(value: u128) -> char {
    if value < 10 {
        ('0' as int + value) as char
    } else {
        ('a' as int + value - 10) as char
    }
}

/// The hex digit of `id` at `place`, counted from the most significant of 32.
pub open spec fn id_digit(id: u128, place: int) -> char {
    hex_digit((id >> ((4 * (31 - place)) as u128)) & 0xf)
}

/// The text of an id: 32 hex digits, most significant first, with a hyphen
/// after the 8th, 12th, 16th and 20th.
pub open spec fn id_text(id: u128) -> Seq<char> {
    Seq::new(8, |i: int| id_digit(id, i)) + seq!['-'] + Seq::new(4, |i: int| id_digit(id, 8 + i))
        + seq!['-'] + Seq::new(4, |i: int| id_digit(id, 12 + i)) + seq!['-'] + Seq::new(
        4,
        |i: int| id_digit(id, 16 + i),
    ) + seq!['-'] + Seq::new(12, |i: int| id_digit(id, 20 + i))
}

/// Where the text of an id holds the digit at `place`: behind the hyphens that
/// come before it.
pub open spec fn digit_position(place: int) -> int {
    place + if place >= 20 {
        4int
    } else if place >= 16 {
        3
    } else if place >= 12 {
        2
    } else if place >= 8 {
        1
    } else {
        0
    }
}

/// The text of an id has 36 characters: four hyphens, and its digits.
pub proof fn lemma_id_text(id: u128)
    ensures
        id_text(id).len() == 36,
        id_text(id)[8] == '-',
        id_text(id)[13] == '-',
        id_text(id)[18] == '-',
        id_text(id)[23] == '-',
        forall|place: int|
            0 <= place < 32 ==> id_text(id)[digit_position(place)] == #[trigger] id_digit(
                id,
                place,
            ),
{
}

/// A digit tells its value.
pub proof fn lemma_digit_value(id: u128, shift: u128)
    ensures
        (id >> shift) & 0xf < 16,
{
    let shifted = id >> shift;
    assert(shifted & 0xf < 16) by (bit_vector);
}

proof fn lemma_same_digit(a: u128, b: u128, place: int, shift: u128)
    requires
        0 <= place < 32,
        shift == 4 * (31 - place),
        id_text(a) == id_text(b),
    ensures
        (a >> shift) & 0xf == (b >> shift) & 0xf,
{
    lemma_id_text(a);
    lemma_id_text(b);
    assert(id_digit(a, place) == id_digit(b, place));
    lemma_digit_value(a, shift);
    lemma_digit_value(b, shift);
}

/// Different ids have different texts.
pub proof fn lemma_id_text_tells_the_id(a: u128, b: u128)
    requires
        id_text(a) == id_text(b),
    ensures
        a == b,
{
    lemma_same_digit(a, b, 0, 124);
    lemma_same_digit(a, b, 1, 120);
    lemma_same_digit(a, b, 2, 116);
    lemma_same_digit(a, b, 3, 112);
    lemma_same_digit(a, b, 4, 108);
    lemma_same_digit(a, b, 5, 104);
    lemma_same_digit(a, b, 6, 100);
    lemma_same_digit(a, b, 7, 96);
    lemma_same_digit(a, b, 8, 92);
    lemma_same_digit(a, b, 9, 88);
    lemma_same_digit(a, b, 10, 84);
    lemma_same_digit(a, b, 11, 80);
    lemma_same_digit(a, b, 12, 76);
    lemma_same_digit(a, b, 13, 72);
    lemma_same_digit(a, b, 14, 68);
    lemma_same_digit(a, b, 15, 64);
    lemma_same_digit(a, b, 16, 60);
    lemma_same_digit(a, b, 17, 56);
    lemma_same_digit(a, b, 18, 52);
    lemma_same_digit(a, b, 19, 48);
    lemma_same_digit(a, b, 20, 44);
    lemma_same_digit(a, b, 21, 40);
    lemma_same_digit(a, b, 22, 36);
    lemma_same_digit(a, b, 23, 32);
    lemma_same_digit(a, b, 24, 28);
    lemma_same_digit(a, b, 25, 24);
    lemma_same_digit(a, b, 26, 20);
    lemma_same_digit(a, b, 27, 16);
    lemma_same_digit(a, b, 28, 12);
    lemma_same_digit(a, b, 29, 8);
    lemma_same_digit(a, b, 30, 4);
    lemma_same_digit(a, b, 31, 0);
    assert(a == b) by (bit_vector)
        requires
            (a >> 124u128) & 0xf == (b >> 124u128) & 0xf,
            (a >> 120u128) & 0xf == (b >> 120u128) & 0xf,
            (a >> 116u128) & 0xf == (b >> 116u128) & 0xf,
            (a >> 112u128) & 0xf == (b >> 112u128) & 0xf,
            (a >> 108u128) & 0xf == (b >> 108u128) & 0xf,
            (a >> 104u128) & 0xf == (b >> 104u128) & 0xf,
            (a >> 100u128) & 0xf == (b >> 100u128) & 0xf,
            (a >> 96u128) & 0xf == (b >> 96u128) & 0xf,
            (a >> 92u128) & 0xf == (b >> 92u128) & 0xf,
            (a >> 88u128) & 0xf == (b >> 88u128) & 0xf,
            (a >> 84u128) & 0xf == (b >> 84u128) & 0xf,
            (a >> 80u128) & 0xf == (b >> 80u128) & 0xf,
            (a >> 76u128) & 0xf == (b >> 76u128) & 0xf,
            (a >> 72u128) & 0xf == (b >> 72u128) & 0xf,
            (a >> 68u128) & 0xf == (b >> 68u128) & 0xf,
            (a >> 64u128) & 0xf == (b >> 64u128) & 0xf,
            (a >> 60u128) & 0xf == (b >> 60u128) & 0xf,
            (a >> 56u128) & 0xf == (b >> 56u128) & 0xf,
            (a >> 52u128) & 0xf == (b >> 52u128) & 0xf,
            (a >> 48u128) & 0xf == (b >> 48u128) & 0xf,
            (a >> 44u128) & 0xf == (b >> 44u128) & 0xf,
            (a >> 40u128) & 0xf == (b >> 40u128) & 0xf,
            (a >> 36u128) & 0xf == (b >> 36u128) & 0xf,
            (a >> 32u128) & 0xf == (b >> 32u128) & 0xf,
            (a >> 28u128) & 0xf == (b >> 28u128) & 0xf,
            (a >> 24u128) & 0xf == (b >> 24u128) & 0xf,
            (a >> 20u128) & 0xf == (b >> 20u128) & 0xf,
            (a >> 16u128) & 0xf == (b >> 16u128) & 0xf,
            (a >> 12u128) & 0xf == (b >> 12u128) & 0xf,
            (a >> 8u128) & 0xf == (b >> 8u128) & 0xf,
            (a >> 4u128) & 0xf == (b >> 4u128) & 0xf,
            (a >> 0u128) & 0xf == (b >> 0u128) & 0xf,
    ;
}

/// Writes an id as text, with the `Display` of `Uuid`. Trusted: that is the
/// hyphenated form in lower case.
#[verifier::external_body]
pub(crate) fn format_id(id: u128) -> (text: String)
    ensures
        text@ == id_text(id),
{
    Uuid::from_u128(id).to_string()
}

} // verus!
