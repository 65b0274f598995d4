//! Text at the foreign boundary: strings that carry their length and
//! hold UTF-16 code units.

use vstd::prelude::*;

verus! {

/// The character that stands in for a code unit that no pairing explains.
pub const REPLACEMENT: char = '\u{FFFD}';

/// Whether a code unit is the first half of a surrogate pair.
pub open spec fn is_high_surrogate(unit: u16) -> bool {
    0xD800 <= unit <= 0xDBFF
}

/// Whether a code unit is the second half of a surrogate pair.
pub open spec fn is_low_surrogate(unit: u16) -> bool {
    0xDC00 <= unit <= 0xDFFF
}

/// The scalar value that a surrogate pair stands for.
pub open spec fn paired_scalar(high: u16, low: u16) -> u32 {
    (0x10000 + (high - 0xD800) * 0x400 + (low - 0xDC00)) as u32
}

/// The code units of one character: the scalar value itself below
/// 0x10000, and a surrogate pair above.
pub open spec fn utf16_of_char(c: char) -> Seq<u16> {
    let scalar = c as u32;
    if scalar < 0x10000 {
        seq![scalar as u16]
    } else {
        seq![
            (0xD800 + (scalar - 0x10000) / 0x400) as u16,
            (0xDC00 + (scalar - 0x10000) % 0x400) as u16,
        ]
    }
}

/// The UTF-16 code units of a text, character by character.
pub open spec fn utf16_of(text: Seq<char>) -> Seq<u16>
    decreases text.len(),
{
    if text.len() == 0 {
        Seq::empty()
    } else {
        utf16_of_char(text[0]) + utf16_of(text.skip(1))
    }
}

/// How many code units the first character of `units` takes: two for a
/// surrogate pair, else one.
pub open spec fn first_width(units: Seq<u16>) -> int {
    if units.len() >= 2 && is_high_surrogate(units[0]) && is_low_surrogate(units[1]) {
        2
    } else {
        1
    }
}

/// The first character of code units that are not empty. A pair of a
/// high and a low surrogate gives the character above 0x10000 that it
/// stands for. A surrogate outside such a pair gives the replacement
/// character. Every other unit is its own character.
pub open spec fn first_char(units: Seq<u16>) -> char {
    if first_width(units) == 2 {
        paired_scalar(units[0], units[1]) as char
    } else if is_high_surrogate(units[0]) || is_low_surrogate(units[0]) {
        REPLACEMENT
    } else {
        units[0] as char
    }
}

/// The text that code units stand for, read over their whole length. A
/// zero unit is the character U+0000 like any other and ends nothing.
pub open spec fn text_of_utf16(units: Seq<u16>) -> Seq<char>
    decreases units.len(),
{
    if units.len() == 0 {
        Seq::empty()
    } else {
        seq![first_char(units)] + text_of_utf16(units.skip(first_width(units)))
    }
}

/// `char::from_u32` of the standard library. Taken on trust, as its
/// documentation says: it gives the character with the given scalar
/// value, and nothing where the value is a surrogate or lies above
/// 0x10FFFF.
pub assume_specification[ char::from_u32 ](scalar: u32) -> (result: Option<char>)
    ensures
        result == if vstd::utf8::is_scalar(scalar) {
            Some(scalar as char)
        } else {
            None::<char>
        },
;

/// `String::push` of the standard library. Taken on trust, as its
/// documentation says: afterwards the string is what it was before with
/// the character added at its end.
pub assume_specification[ String::push ](text: &mut String, c: char)
    ensures
        final(text)@ == old(text)@.push(c),
;

/// Appending a character to a text appends its code units.
pub proof fn lemma_utf16_of_push(text: Seq<char>, c: char)
    ensures
        utf16_of(text.push(c)) == utf16_of(text) + utf16_of_char(c),
    decreases text.len(),
{
    if text.len() == 0 {
        assert(text.push(c).skip(1) =~= Seq::<char>::empty());
        assert(utf16_of(text.push(c)) =~= utf16_of_char(c) + utf16_of(Seq::empty()));
        assert(utf16_of(text.push(c)) =~= utf16_of(text) + utf16_of_char(c));
    } else {
        lemma_utf16_of_push(text.skip(1), c);
        assert(text.push(c).skip(1) =~= text.skip(1).push(c));
        assert(utf16_of(text.push(c)) =~= utf16_of(text) + utf16_of_char(c));
    }
}

/// Code units that begin with the units of a character read as that
/// character, followed by what the rest reads as.
pub proof fn lemma_text_of_char_units(c: char, rest: Seq<u16>)
    ensures
        text_of_utf16(utf16_of_char(c) + rest) == seq![c] + text_of_utf16(rest),
{
    broadcast use vstd::utf8::char_is_scalar, vstd::utf8::char_u32_cast;

    let scalar = c as u32;
    let units = utf16_of_char(c) + rest;
    assert(vstd::utf8::is_scalar(scalar));
    if scalar < 0x10000 {
        let unit = scalar as u16;
        assert(units[0] == unit);
        assert(!is_high_surrogate(unit) && !is_low_surrogate(unit));
        assert(first_width(units) == 1);
        assert(unit as u32 == scalar);
        assert(first_char(units) == c);
        assert(units.skip(1) =~= rest);
    } else {
        let high = (0xD800 + (scalar - 0x10000) / 0x400) as u16;
        let low = (0xDC00 + (scalar - 0x10000) % 0x400) as u16;
        assert(units[0] == high && units[1] == low);
        assert(is_high_surrogate(high) && is_low_surrogate(low));
        assert(first_width(units) == 2);
        assert(paired_scalar(high, low) == scalar);
        assert(first_char(units) == c);
        assert(units.skip(2) =~= rest);
    }
}

/// Reading the code units of a text gives the text back, whatever
/// characters it holds, U+0000 among them.
pub proof fn lemma_utf16_round_trip(text: Seq<char>)
    ensures
        text_of_utf16(utf16_of(text)) == text,
    decreases text.len(),
{
    if text.len() == 0 {
        assert(text_of_utf16(utf16_of(text)) =~= text);
    } else {
        lemma_utf16_round_trip(text.skip(1));
        lemma_text_of_char_units(text[0], utf16_of(text.skip(1)));
        assert(seq![text[0]] + text.skip(1) =~= text);
    }
}

/// The UTF-16 code units of a text, as a foreign string holds them: one
/// unit for a character below 0x10000 and a surrogate pair for one
/// above, with nothing added at the end.
pub fn encode_string(text: &str) -> (units: Vec<u16>)
    ensures
        units@ == utf16_of(text@),
        text_of_utf16(units@) == text@,
{
    let mut units: Vec<u16> = Vec::new();
    for c in it: text.chars()
        invariant
            it.seq() == text@,
            units@ == utf16_of(text@.take(it.index() as int)),
    {
        proof {
            let done = text@.take(it.index() as int);
            lemma_utf16_of_push(done, c);
            assert(text@.take(it.index() + 1) =~= done.push(c));
            vstd::utf8::char_is_scalar(c);
        }
        let scalar: u32 = c as u32;
        if scalar < 0x10000 {
            units.push(scalar as u16);
        } else {
            let offset: u32 = scalar - 0x10000;
            units.push((0xD800 + offset / 0x400) as u16);
            units.push((0xDC00 + offset % 0x400) as u16);
        }
        assert(units@ =~= utf16_of(text@.take(it.index() as int)) + utf16_of_char(c));
    }
    proof {
        assert(text@.take(text@.len() as int) =~= text@);
        lemma_utf16_round_trip(text@);
    }
    units
}

/// The text that a foreign string holds. Every code unit of the slice is
/// read, so a zero unit in the middle is a character and not an end. A
/// high surrogate with a low surrogate behind it is one character; a
/// surrogate without its partner becomes U+FFFD.
pub fn decode_string(units: &[u16]) -> (text: String)
    ensures
        text@ == text_of_utf16(units@),
{
    let mut text = String::new();
    let mut next: usize = 0;
    assert(text@ + text_of_utf16(units@.skip(0)) =~= text_of_utf16(units@)) by {
        assert(units@.skip(0) =~= units@);
    }
    while next < units.len()
        invariant
            next <= units@.len(),
            text_of_utf16(units@) == text@ + text_of_utf16(units@.skip(next as int)),
        decreases units@.len() - next,
    {
        let ghost rest = units@.skip(next as int);
        let first: u16 = units[next];
        let mut width: usize = 1;
        let mut scalar: u32 = first as u32;
        if 0xD800 <= first && first <= 0xDBFF && units.len() - next >= 2 {
            let second: u16 = units[next + 1];
            if 0xDC00 <= second && second <= 0xDFFF {
                width = 2;
                scalar = 0x10000 + (first - 0xD800) as u32 * 0x400 + (second - 0xDC00) as u32;
            }
        }
        let c = match char::from_u32(scalar) {
            Some(c) => c,
            None => REPLACEMENT,
        };
        text.push(c);
        proof {
            assert(rest[0] == first);
            assert(width == first_width(rest));
            assert(c == first_char(rest));
            assert(rest.skip(width as int) =~= units@.skip(next + width));
        }
        next = next + width;
    }
    assert(units@.skip(next as int) =~= Seq::<u16>::empty());
    text
}

} // verus!
