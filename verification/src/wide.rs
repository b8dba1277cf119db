//! Text as the host wants it: UTF-16 with a terminating zero.

use vstd::prelude::*;
use vstd::std_specs::iter::IteratorSpec;

verus! {

/// The UTF-16 code units of one character: the character itself where it
/// fits 16 bits, else a high and a low surrogate.
pub open spec fn utf16_units(c: char) -> Seq<u16> {
    let v = c as u32;
    if v < 0x10000 {
        seq![v as u16]
    } else {
        seq![(0xD800 + (v - 0x10000) / 0x400) as u16, (0xDC00 + (v - 0x10000) % 0x400) as u16]
    }
}

/// The UTF-16 code units of a text, character after character.
pub open spec fn utf16(text: Seq<char>) -> Seq<u16>
    decreases text.len(),
{
    if text.len() == 0 {
        Seq::empty()
    } else {
        utf16(text.drop_last()) + utf16_units(text.last())
    }
}

/// Encodes a text as UTF-16 and ends it with a zero.
pub fn to_wide_string(s: &str) -> (wide: Vec<u16>)
    ensures
        wide@ == utf16(s@).push(0),
{
    broadcast use vstd::string::axiom_spec_iter;

    let mut wide: Vec<u16> = Vec::new();
    for c in it: s.chars()
        invariant
            it.seq() == s@,
            wide@ == utf16(s@.take(it.index())),
    {
        let ghost done = s@.take(it.index());
        let ghost more = s@.take(it.index() + 1);
        assert(more.drop_last() =~= done);
        assert(more.last() == c);
        let v: u32 = c as u32;
        if v < 0x10000 {
            wide.push(v as u16);
        } else {
            let rest: u32 = v - 0x10000;
            wide.push((0xD800 + rest / 0x400) as u16);
            wide.push((0xDC00 + rest % 0x400) as u16);
        }
        assert(wide@ =~= utf16(done) + utf16_units(c));
    }
    proof {
        assert(s@.take(s@.len() as int) =~= s@);
    }
    wide.push(0);
    wide
}

} // verus!
