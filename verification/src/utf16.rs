//! UTF-16 transcoding of message text.

use vstd::prelude::*;

verus! {

/// The UTF-16 code units of one `char`: itself where it lies in the basic
/// plane, a surrogate pair otherwise.
pub open spec fn encode_char(c: char) -> Seq<u16> {
    let v = c as u32;
    if v < 0x10000 {
        seq![v as u16]
    } else {
        seq![high_surrogate(v), low_surrogate(v)]
    }
}

/// The leading unit of the surrogate pair of a scalar above the basic plane.
pub open spec fn high_surrogate(v: u32) -> u16 {
    (0xD800u32 + ((v - 0x10000u32) as u32 >> 10)) as u16
}

/// The trailing unit of the surrogate pair of a scalar above the basic plane.
pub open spec fn low_surrogate(v: u32) -> u16 {
    (0xDC00u32 + ((v - 0x10000u32) as u32 & 0x3FF)) as u16
}

/// The UTF-16 encoding of a `char` sequence.
pub open spec fn encode_utf16(chars: Seq<char>) -> Seq<u16>
    decreases chars.len(),
{
    if chars.len() == 0 {
        seq![]
    } else {
        encode_char(chars[0]) + encode_utf16(chars.drop_first())
    }
}

/// Whether `u` is the leading unit of a surrogate pair.
pub open spec fn is_high_surrogate(u: u16) -> bool {
    0xD800 <= u <= 0xDBFF
}

/// Whether `u` is the trailing unit of a surrogate pair.
pub open spec fn is_low_surrogate(u: u16) -> bool {
    0xDC00 <= u <= 0xDFFF
}

/// The scalar that a surrogate pair stands for.
pub open spec fn join_surrogates(hi: u16, lo: u16) -> u32 {
    (0x10000u32 + (((hi - 0xD800) as u32) << 10) + ((lo - 0xDC00) as u32)) as u32
}

/// The `char` sequence that UTF-16 code units stand for. A surrogate that
/// is not part of a pair decodes to U+FFFD.
pub open spec fn decode_utf16(units: Seq<u16>) -> Seq<char>
    decreases units.len(),
{
    if units.len() == 0 {
        seq![]
    } else if is_high_surrogate(units[0]) && units.len() >= 2 && is_low_surrogate(units[1]) {
        seq![join_surrogates(units[0], units[1]) as char] + decode_utf16(units.skip(2))
    } else if is_high_surrogate(units[0]) || is_low_surrogate(units[0]) {
        seq!['\u{FFFD}'] + decode_utf16(units.skip(1))
    } else {
        seq![units[0] as char] + decode_utf16(units.skip(1))
    }
}

/// Encoding distributes over appending one more `char`.
pub proof fn lemma_encode_utf16_push(chars: Seq<char>, c: char)
    ensures
        encode_utf16(chars.push(c)) == encode_utf16(chars) + encode_char(c),
    decreases chars.len(),
{
    if chars.len() == 0 {
        assert(chars.push(c).drop_first() =~= chars);
        assert(encode_utf16(chars.push(c)) =~= encode_utf16(chars) + encode_char(c));
    } else {
        lemma_encode_utf16_push(chars.drop_first(), c);
        assert(chars.push(c).drop_first() =~= chars.drop_first().push(c));
        assert(encode_utf16(chars.push(c)) =~= encode_utf16(chars) + encode_char(c));
    }
}

/// A surrogate pair built from a scalar above the basic plane is well
/// formed and joins back to that scalar.
proof fn lemma_surrogates_join(v: u32)
    by (bit_vector)
    requires
        0x10000 <= v <= 0x10FFFF,
    ensures
        0xD800 <= 0xD800u32 + ((v - 0x10000u32) as u32 >> 10) <= 0xDBFF,
        0xDC00 <= 0xDC00u32 + ((v - 0x10000u32) as u32 & 0x3FF) <= 0xDFFF,
        0x10000u32 + (((v - 0x10000u32) as u32 >> 10) << 10) + ((v - 0x10000u32) as u32 & 0x3FF)
            == v,
{
}

/// Decoding undoes encoding: the code units of a text stand for that text.
pub proof fn lemma_decode_encode_utf16(chars: Seq<char>)
    ensures
        decode_utf16(encode_utf16(chars)) == chars,
    decreases chars.len(),
{
    if chars.len() > 0 {
        let c = chars[0];
        let v = c as u32;
        let rest = chars.drop_first();
        let units = encode_utf16(chars);
        lemma_decode_encode_utf16(rest);
        vstd::utf8::char_is_scalar(c);
        vstd::utf8::char_u32_cast(c, v);
        if v < 0x10000 {
            assert(units[0] == v);
            assert(units.skip(1) =~= encode_utf16(rest));
            assert(decode_utf16(units) =~= chars);
        } else {
            lemma_surrogates_join(v);
            assert(units[0] == high_surrogate(v));
            assert(units[1] == low_surrogate(v));
            assert(join_surrogates(units[0], units[1]) == v);
            assert(units.skip(2) =~= encode_utf16(rest));
            assert(decode_utf16(units) =~= chars);
        }
    }
}

/// Both halves of a scalar's offset above the basic plane fit in ten bits.
proof fn lemma_surrogate_offsets(w: u32)
    by (bit_vector)
    requires
        w < 0x100000,
    ensures
        (w >> 10) < 0x400,
        (w & 0x3FF) < 0x400,
{
}

/// Transcodes `s` to UTF-16.
pub fn to_utf16(s: &str) -> (units: Vec<u16>)
    ensures
        units@ == encode_utf16(s@),
{
    let mut units: Vec<u16> = Vec::new();
    for c in it: s.chars()
        invariant
            it.seq() == s@,
            units@ == encode_utf16(s@.take(it.index())),
    {
        proof {
            lemma_encode_utf16_push(s@.take(it.index()), c);
            assert(s@.take(it.index() + 1) =~= s@.take(it.index()).push(c));
        }
        let v: u32 = c as u32;
        if v < 0x10000 {
            units.push(v as u16);
        } else {
            let w: u32 = v - 0x10000;
            proof {
                vstd::utf8::char_is_scalar(c);
                lemma_surrogate_offsets(w);
            }
            units.push((0xD800 + (w >> 10)) as u16);
            units.push((0xDC00 + (w & 0x3FF)) as u16);
        }
    }
    proof {
        assert(s@.take(s@.len() as int) =~= s@);
    }
    units
}

} // verus!
