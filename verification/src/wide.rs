//! Strings in the form that the system's wide-character functions take.

use vstd::prelude::*;

verus! {

/// The UTF-16 code units of one character: the character itself where it fits in a unit, and
/// a pair of surrogates otherwise.
pub open spec fn utf16_units(c: char) -> Seq<u16> {
    let code = c as int;
    if code < 0x10000 {
        seq![code as u16]
    } else {
        seq![
            (0xD800 + (code - 0x10000) / 0x400) as u16,
            (0xDC00 + (code - 0x10000) % 0x400) as u16,
        ]
    }
}

/// The UTF-16 code units of a text.
pub open spec fn utf16(text: Seq<char>) -> Seq<u16>
    decreases text.len(),
{
    if text.len() == 0 {
        Seq::empty()
    } else {
        utf16(text.drop_last()) + utf16_units(text.last())
    }
}

/// Is `unit` the second half of a pair of surrogates?
pub open spec fn is_low_surrogate(unit: u16) -> bool {
    0xDC00 <= unit < 0xE000
}

/// Is `unit` the first half of a pair of surrogates?
pub open spec fn is_high_surrogate(unit: u16) -> bool {
    0xD800 <= unit < 0xDC00
}

/// The text that UTF-16 code units stand for.
pub open spec fn utf16_text(units: Seq<u16>) -> Seq<char>
    decreases units.len(),
{
    if units.len() == 0 {
        Seq::empty()
    } else if units.len() > 1 && is_low_surrogate(units.last()) && is_high_surrogate(
        units[units.len() - 2],
    ) {
        let high = units[units.len() - 2] as int;
        let low = units.last() as int;
        utf16_text(units.take(units.len() - 2)).push(
            (0x10000 + (high - 0xD800) * 0x400 + (low - 0xDC00)) as char,
        )
    } else {
        utf16_text(units.drop_last()).push(units.last() as char)
    }
}

/// Appends the zero that ends a wide string.
pub fn terminated(units: Vec<u16>) -> (res: Vec<u16>)
    ensures
        res@ == units@.push(0),
{
    let mut units = units;
    units.push(0);
    units
}

/// Converts a string into the representation for function variants with a "W" suffix, which
/// accept strings encoded in UTF-16 and ended by a zero.
pub fn win32_string(value: &str) -> (res: Vec<u16>)
    ensures
        res@ == utf16(value@).push(0),
{
    let mut units: Vec<u16> = Vec::new();
    for c in it: value.chars()
        invariant
            it.seq() == value@,
            units@ == utf16(value@.take(it.index() as int)),
    {
        proof {
            let i = it.index() as int;
            assert(value@.take(i + 1).drop_last() =~= value@.take(i));
            assert(value@.take(i + 1).last() == c);
        }
        push_units(&mut units, c);
    }
    assert(value@.take(value@.len() as int) =~= value@);
    terminated(units)
}

/// Appends the code units of one character.
fn push_units(units: &mut Vec<u16>, c: char)
    ensures
        final(units)@ == old(units)@ + utf16_units(c),
{
    let code: u32 = c as u32;
    if code < 0x10000 {
        units.push(code as u16);
    } else {
        let above: u32 = code - 0x10000;
        let high: u32 = 0xD800 + above / 0x400;
        let low: u32 = 0xDC00 + above % 0x400;
        units.push(high as u16);
        units.push(low as u16);
    }
}

/// The text is not changed by the conversion: it can be read back from the units before the
/// final zero.
pub proof fn law_wide_string_keeps_text(text: Seq<char>)
    ensures
        utf16_text(utf16(text).push(0).drop_last()) == text,
{
    assert(utf16(text).push(0).drop_last() =~= utf16(text));
    lemma_utf16_text(text);
}

/// A text without a zero character becomes a wide string whose only zero is the one at its
/// end, so that the string ends where the text does.
pub proof fn law_wide_string_ends_at_first_zero(text: Seq<char>)
    requires
        !text.contains('\0'),
    ensures
        utf16(text).push(0).index_of_first(0u16) == Some(utf16(text).len() as int),
{
    let units = utf16(text).push(0);
    assert forall|i: int| 0 <= i < utf16(text).len() implies #[trigger] units[i] != 0 by {
        lemma_no_zero_unit(text, i);
    }
    assert(units.contains(0u16)) by {
        assert(units[units.len() - 1] == 0);
    }
    units.index_of_first_ensures(0u16);
    let first = units.index_of_first(0u16)->0;
    assert(units[first] == 0);
    assert(units[utf16(text).len() as int] == 0);
}

/// A text is converted piece by piece, in order.
pub proof fn law_pieces_are_converted_apart(first: Seq<char>, second: Seq<char>)
    ensures
        utf16(first + second) == utf16(first) + utf16(second),
    decreases second.len(),
{
    if second.len() == 0 {
        assert(first + second =~= first);
        assert(utf16(first) + utf16(second) =~= utf16(first));
    } else {
        let before = second.drop_last();
        assert((first + second).drop_last() =~= first + before);
        law_pieces_are_converted_apart(first, before);
        assert(utf16(first + second) =~= utf16(first) + utf16(second));
    }
}

/// A character that fits in a unit is that unit. Any other character is two units, a first
/// half and a second half, which hold its upper and lower bits.
pub proof fn law_one_character_is_one_unit_or_a_pair(c: char)
    ensures
        (c as int) < 0x10000 ==> utf16(seq![c]).len() == 1 && utf16(seq![c])[0] as int == c as int,
        (c as int) >= 0x10000 ==> {
            let units = utf16(seq![c]);
            &&& units.len() == 2
            &&& 0xD800 <= units[0] < 0xDC00
            &&& 0xDC00 <= units[1] < 0xE000
            &&& (units[0] - 0xD800) * 0x400 + (units[1] - 0xDC00) + 0x10000 == c as int
        },
{
    lemma_scalar_value(c);
    assert(seq![c].drop_last() =~= Seq::<char>::empty());
    assert(utf16(Seq::<char>::empty()) =~= Seq::<u16>::empty());
    assert(utf16(seq![c]) =~= utf16_units(c));
}

/// A text whose characters all fit in a unit is one unit for each, equal to its code.
pub proof fn law_small_characters_are_their_own_units(text: Seq<char>)
    requires
        forall|i: int| 0 <= i < text.len() ==> (#[trigger] text[i] as int) < 0x10000,
    ensures
        utf16(text).len() == text.len(),
        forall|i: int| 0 <= i < text.len() ==> #[trigger] utf16(text)[i] as int == text[i] as int,
    decreases text.len(),
{
    if text.len() > 0 {
        let before = text.drop_last();
        law_small_characters_are_their_own_units(before);
        law_pieces_are_converted_apart(before, seq![text.last()]);
        law_one_character_is_one_unit_or_a_pair(text.last());
        assert(before + seq![text.last()] =~= text);
        assert(text[text.len() - 1] == text.last());
        assert forall|i: int| 0 <= i < text.len() implies #[trigger] utf16(text)[i] as int
            == text[i] as int by {
            if i < before.len() {
                assert(utf16(text)[i] == utf16(before)[i]);
                assert(before[i] == text[i]);
            }
        }
    }
}

/// The units of a text are well-formed: every second half of a pair comes right after a first
/// half, and every first half right before a second half.
pub proof fn law_wide_string_is_well_formed(text: Seq<char>)
    ensures
        forall|i: int|
            0 <= i < utf16(text).len() && 0xDC00 <= #[trigger] utf16(text)[i] < 0xE000 ==> 0 < i
                && 0xD800 <= utf16(text)[i - 1] < 0xDC00,
        forall|i: int|
            0 <= i < utf16(text).len() && 0xD800 <= #[trigger] utf16(text)[i] < 0xDC00 ==> i + 1
                < utf16(text).len() && 0xDC00 <= utf16(text)[i + 1] < 0xE000,
    decreases text.len(),
{
    if text.len() > 0 {
        let before = text.drop_last();
        let c = text.last();
        law_wide_string_is_well_formed(before);
        law_pieces_are_converted_apart(before, seq![c]);
        law_one_character_is_one_unit_or_a_pair(c);
        lemma_scalar_value(c);
        assert(before + seq![c] =~= text);
        let units = utf16(text);
        let head = utf16(before);
        let tail = utf16(seq![c]);
        assert(units == head + tail);
        assert forall|i: int|
            0 <= i < units.len() && 0xDC00 <= #[trigger] units[i] < 0xE000 implies 0 < i
            && 0xD800 <= units[i - 1] < 0xDC00 by {
            if i < head.len() {
                assert(units[i] == head[i]);
                assert(units[i - 1] == head[i - 1]);
            } else {
                assert(units[i] == tail[i - head.len()]);
                assert(i == head.len() + 1);
                assert(units[i - 1] == tail[0]);
            }
        }
        assert forall|i: int|
            0 <= i < units.len() && 0xD800 <= #[trigger] units[i] < 0xDC00 implies i + 1
            < units.len() && 0xDC00 <= units[i + 1] < 0xE000 by {
            if i < head.len() {
                assert(units[i] == head[i]);
                assert(units[i + 1] == head[i + 1]);
            } else {
                assert(units[i] == tail[i - head.len()]);
                assert(i == head.len());
                assert(units[i + 1] == tail[1]);
            }
        }
    }
}

/// Every character is a Unicode scalar value.
proof fn lemma_scalar_value(c: char)
    ensures
        0 <= c as int <= 0x10FFFF,
        !(0xD800 <= c as int && (c as int) < 0xE000),
{
}

proof fn lemma_utf16_text(text: Seq<char>)
    ensures
        utf16_text(utf16(text)) == text,
    decreases text.len(),
{
    if text.len() == 0 {
        assert(text =~= Seq::empty());
    } else {
        let before = text.drop_last();
        let c = text.last();
        lemma_scalar_value(c);
        lemma_utf16_text(before);
        let units = utf16(text);
        if (c as int) < 0x10000 {
            assert(units.drop_last() =~= utf16(before));
        } else {
            assert(units.take(units.len() - 2) =~= utf16(before));
        }
        assert(before.push(c) =~= text);
    }
}

proof fn lemma_no_zero_unit(text: Seq<char>, i: int)
    requires
        !text.contains('\0'),
        0 <= i < utf16(text).len(),
    ensures
        utf16(text)[i] != 0,
    decreases text.len(),
{
    let before = text.drop_last();
    assert(!before.contains('\0')) by {
        if before.contains('\0') {
            let k = before.index_of('\0');
            assert(text[k] == '\0');
        }
    }
    assert(text[text.len() - 1] == text.last());
    lemma_scalar_value(text.last());
    if i < utf16(before).len() {
        lemma_no_zero_unit(before, i);
    }
}

} // verus!
