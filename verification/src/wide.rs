//! Text as the operating system takes it: UTF-16 code units closed by a
//! terminating zero.

use vstd::prelude::*;

verus! {

/// The UTF-16 code units of one character: the code point itself below
/// U+10000, a high and a low surrogate from there on.
pub open spec fn utf16_units(c: char) -> Seq<u16> {
    let code = c as u32;
    if code < 0x1_0000 {
        seq![code as u16]
    } else {
        seq![
            (0xD800 + (code - 0x1_0000) / 0x400) as u16,
            (0xDC00 + (code - 0x1_0000) % 0x400) as u16,
        ]
    }
}

/// The UTF-16 encoding of `text`: the units of its characters, in order.
pub open spec fn utf16(text: Seq<char>) -> Seq<u16>
    decreases text.len(),
{
    if text.len() == 0 {
        Seq::empty()
    } else {
        utf16(text.drop_last()) + utf16_units(text.last())
    }
}

/// `text` in UTF-16 with the terminating zero that ends a wide string.
pub open spec fn wide(text: Seq<char>) -> Seq<u16> {
    utf16(text).push(0u16)
}

/// Encodes `text` as a zero-terminated wide string.
pub fn wide_null(text: &str) -> (units: Vec<u16>)
    ensures
        units@ == wide(text@),
{
    let mut units: Vec<u16> = Vec::new();
    let source = text.chars();
    proof {
        vstd::string::axiom_spec_iter(text);
    }
    for c in it: source
        invariant
            it.seq() == text@,
            units@ == utf16(text@.take(it.index())),
    {
        proof {
            let done = text@.take(it.index() + 1);
            assert(done.drop_last() == text@.take(it.index()));
            assert(done.last() == c);
        }
        let ghost before = units@;
        proof {
            vstd::utf8::char_is_scalar(c);
        }
        let code: u32 = c as u32;
        if code < 0x1_0000 {
            units.push(code as u16);
        } else {
            let offset: u32 = code - 0x1_0000;
            units.push((0xD800 + offset / 0x400) as u16);
            units.push((0xDC00 + offset % 0x400) as u16);
        }
        assert(units@ =~= before + utf16_units(c));
    }
    assert(text@.take(text@.len() as int) == text@);
    units.push(0u16);
    units
}

/// Every character takes one or two units, so a wide string is never
/// shorter than its text and never more than twice as long, the terminator
/// aside.
pub proof fn utf16_length(text: Seq<char>)
    ensures
        text.len() <= utf16(text).len() <= 2 * text.len(),
    decreases text.len(),
{
    if text.len() > 0 {
        utf16_length(text.drop_last());
    }
}

} // verus!
