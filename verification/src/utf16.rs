//! UTF-16, the encoding of every wide string the Win32 interface takes or hands out.
use vstd::prelude::*;

verus! {

/// Code units that open a surrogate pair.
pub open spec fn is_high_surrogate(u: u16) -> bool {
    0xd800 <= u <= 0xdbff
}

/// Code units that close a surrogate pair.
pub open spec fn is_low_surrogate(u: u16) -> bool {
    0xdc00 <= u <= 0xdfff
}

/// A character is a scalar value: at most U+10FFFF and no surrogate.
proof fn char_bounds(c: char)
    ensures
        c as u32 == c as int,
        0 <= c as int <= 0x10_ffff,
        !(0xd800 <= c as int <= 0xdfff),
{
}

/// The code units of one character.
pub open spec fn encode_char_spec(c: char) -> Seq<u16> {
    let v = c as int;
    if v < 0x1_0000 {
        seq![v as u16]
    } else {
        seq![(0xd800 + (v - 0x1_0000) / 0x400) as u16, (0xdc00 + (v - 0x1_0000) % 0x400) as u16]
    }
}

/// The code units of a text.
pub open spec fn encode_utf16_spec(s: Seq<char>) -> Seq<u16>
    decreases s.len(),
{
    if s.len() == 0 {
        seq![]
    } else {
        encode_char_spec(s.first()) + encode_utf16_spec(s.drop_first())
    }
}

/// The character of a surrogate pair.
pub open spec fn pair_char(high: u16, low: u16) -> char {
    (0x1_0000 + (high - 0xd800) * 0x400 + (low - 0xdc00)) as char
}

/// The text of a run of code units; every surrogate without its partner reads as U+FFFD.
pub open spec fn decode_lossy_spec(units: Seq<u16>) -> Seq<char>
    decreases units.len(),
{
    if units.len() == 0 {
        seq![]
    } else if !is_high_surrogate(units[0]) && !is_low_surrogate(units[0]) {
        seq![units[0] as char] + decode_lossy_spec(units.skip(1))
    } else if is_high_surrogate(units[0]) && units.len() > 1 && is_low_surrogate(units[1]) {
        seq![pair_char(units[0], units[1])] + decode_lossy_spec(units.skip(2))
    } else {
        seq!['\u{fffd}'] + decode_lossy_spec(units.skip(1))
    }
}

/// `char::from_u32` yields the character with the given scalar value, and nothing for a value
/// that is a surrogate or lies past U+10FFFF.
pub assume_specification[ char::from_u32 ](v: u32) -> (r: Option<char>)
    ensures
        r is Some <==> (v <= 0xd7ff || 0xe000 <= v <= 0x10_ffff),
        r matches Some(c) ==> c as u32 == v,
;

/// Appends the code units of `text` to `out`.
pub fn push_utf16(out: &mut Vec<u16>, text: &str)
    ensures
        final(out)@ == old(out)@ + encode_utf16_spec(text@),
{
    let ghost start = out@;
    assert(text@.skip(0) == text@);
    for c in it: text.chars()
        invariant
            it.seq() == text@,
            out@ + encode_utf16_spec(text@.skip(it.index())) =~= start + encode_utf16_spec(text@),
    {
        let ghost tail = text@.skip(it.index());
        assert(tail.first() == c);
        assert(tail.drop_first() == text@.skip(it.index() + 1));
        proof {
            char_bounds(c);
        }
        let v: u32 = c as u32;
        let ghost before = out@;
        if v < 0x1_0000 {
            out.push(v as u16);
        } else {
            out.push((0xd800 + (v - 0x1_0000) / 0x400) as u16);
            out.push((0xdc00 + (v - 0x1_0000) % 0x400) as u16);
        }
        assert(out@ =~= before + encode_char_spec(c));
    }
}

/// The code units of `text`.
pub fn encode_utf16(text: &str) -> (r: Vec<u16>)
    ensures
        r@ == encode_utf16_spec(text@),
{
    let mut out: Vec<u16> = Vec::new();
    push_utf16(&mut out, text);
    out
}

/// The code units of `text` followed by a terminating NUL.
pub fn encode_wide_nul(text: &str) -> (r: Vec<u16>)
    ensures
        r@ == encode_utf16_spec(text@).push(0),
{
    let mut out = encode_utf16(text);
    out.push(0);
    out
}

/// The text of `units`, with U+FFFD in place of every unpaired surrogate.
pub fn decode_lossy(units: &[u16]) -> (r: String)
    ensures
        r@ == decode_lossy_spec(units@),
{
    let mut out = String::new();
    let mut i: usize = 0;
    assert(units@.skip(0) == units@);
    while i < units.len()
        invariant
            i <= units.len(),
            out@ + decode_lossy_spec(units@.skip(i as int)) =~= decode_lossy_spec(units@),
        decreases units.len() - i,
    {
        let ghost rest = units@.skip(i as int);
        let u: u16 = units[i];
        assert(rest[0] == u);
        assert(rest.skip(1) == units@.skip(i + 1));
        if u < 0xd800 || u > 0xdfff {
            if let Some(c) = char::from_u32(u as u32) {
                proof {
                    char_bounds(c);
                }
                out.push(c);
            }
            i += 1;
        } else if u <= 0xdbff && i + 1 < units.len() && 0xdc00 <= units[i + 1] && units[i + 1]
            <= 0xdfff {
            let low: u16 = units[i + 1];
            assert(rest[1] == low);
            assert(rest.skip(2) == units@.skip(i + 2));
            let v: u32 = 0x1_0000 + (u - 0xd800) as u32 * 0x400 + (low - 0xdc00) as u32;
            if let Some(c) = char::from_u32(v) {
                proof {
                    char_bounds(c);
                }
                out.push(c);
            }
            i += 2;
        } else {
            assert(rest.len() > 1 ==> rest[1] == units@[i + 1]);
            out.push('\u{fffd}');
            i += 1;
        }
    }
    out
}

/// Decoding what was encoded gives the text back.
pub proof fn decode_undoes_encode(s: Seq<char>)
    ensures
        decode_lossy_spec(encode_utf16_spec(s)) == s,
    decreases s.len(),
{
    if s.len() > 0 {
        let c = s.first();
        let rest = encode_utf16_spec(s.drop_first());
        let units = encode_utf16_spec(s);
        decode_undoes_encode(s.drop_first());
        char_bounds(c);
        if (c as int) < 0x1_0000 {
            assert(units.skip(1) =~= rest);
        } else {
            assert(units.skip(2) =~= rest);
        }
        assert(decode_lossy_spec(units) =~= seq![c] + s.drop_first());
        assert(seq![c] + s.drop_first() =~= s);
    }
}

/// Texts with the same code units are the same text.
pub proof fn encode_utf16_injective(a: Seq<char>, b: Seq<char>)
    requires
        encode_utf16_spec(a) == encode_utf16_spec(b),
    ensures
        a == b,
{
    decode_undoes_encode(a);
    decode_undoes_encode(b);
}

/// The code units of a text are those of its characters, one after the other: those of two texts in
/// a row are those of the first and then those of the second.
pub proof fn encoding_is_character_by_character(a: Seq<char>, b: Seq<char>)
    ensures
        encode_utf16_spec(a + b) == encode_utf16_spec(a) + encode_utf16_spec(b),
    decreases a.len(),
{
    if a.len() == 0 {
        assert(a + b =~= b);
        assert(encode_utf16_spec(a) + encode_utf16_spec(b) =~= encode_utf16_spec(b));
    } else {
        encoding_is_character_by_character(a.drop_first(), b);
        assert((a + b).drop_first() =~= a.drop_first() + b);
        assert(encode_utf16_spec(a + b) =~= encode_utf16_spec(a) + encode_utf16_spec(b));
    }
}

/// A character of the basic plane is one code unit with its value. Any other is two: a high and a
/// low surrogate that between them hold the twenty bits of what the value is past the plane.
pub proof fn characters_take_one_unit_or_two(c: char)
    ensures
        ({
            let units = encode_utf16_spec(seq![c]);
            &&& (c as int) < 0x1_0000 ==> units.len() == 1 && units[0] == c as int
            &&& (c as int) >= 0x1_0000 ==> {
                &&& units.len() == 2
                &&& 0xd800 <= units[0] <= 0xdbff
                &&& 0xdc00 <= units[1] <= 0xdfff
                &&& (units[0] - 0xd800) * 0x400 + (units[1] - 0xdc00) + 0x1_0000 == c as int
            }
        }),
{
    char_bounds(c);
    let s = seq![c];
    assert(s.drop_first() =~= Seq::<char>::empty());
    assert(s.first() == c);
    assert(encode_utf16_spec(Seq::<char>::empty()) =~= Seq::<u16>::empty());
    assert(encode_utf16_spec(s) =~= encode_char_spec(c));
}

/// What a run of units begins with decides its first character and how many units that takes: a unit
/// that is no surrogate stands for itself, a high surrogate in front of a low one for the character
/// of the two, and any other surrogate for the replacement character.
pub proof fn units_are_read_from_the_front(units: Seq<u16>)
    requires
        units.len() > 0,
    ensures
        ({
            let text = decode_lossy_spec(units);
            let u = units[0];
            let high = 0xd800 <= u <= 0xdbff;
            let low = 0xdc00 <= u <= 0xdfff;
            let paired = high && units.len() > 1 && 0xdc00 <= units[1] <= 0xdfff;
            &&& text.len() > 0
            &&& !high && !low ==> text[0] as int == u && text.skip(1) == decode_lossy_spec(
                units.skip(1),
            )
            &&& paired ==> text[0] as int == 0x1_0000 + (u - 0xd800) * 0x400 + (units[1] - 0xdc00)
                && text.skip(1) == decode_lossy_spec(units.skip(2))
            &&& (high || low) && !paired ==> text[0] == '\u{fffd}' && text.skip(1)
                == decode_lossy_spec(units.skip(1))
        }),
{
    let text = decode_lossy_spec(units);
    let u = units[0];
    if !is_high_surrogate(u) && !is_low_surrogate(u) {
        assert(text.skip(1) =~= decode_lossy_spec(units.skip(1)));
    } else if is_high_surrogate(u) && units.len() > 1 && is_low_surrogate(units[1]) {
        assert(text.skip(1) =~= decode_lossy_spec(units.skip(2)));
    } else {
        assert(text.skip(1) =~= decode_lossy_spec(units.skip(1)));
    }
}

} // verus!
