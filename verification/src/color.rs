//! CSS color strings of the renderers: `#rrggbb` from a packed 0xRRGGBB
//! color, and the quantized 3-bits-per-channel color keys of the 3D
//! renderer's face batches.

use vstd::prelude::*;
use crate::text::push_char;

verus! {

/// A lowercase hexadecimal digit (0 ..= 15).
pub open spec fn hex_digit(d: int) -> char {
    if d < 10 {
        (48 + d) as char
    } else {
        (87 + d) as char
    }
}

/// The `n` lowest hexadecimal digits of `v`, most significant first
/// (zero-padded to `n` digits).
pub open spec fn hex(v: nat, n: nat) -> Seq<char>
    decreases n,
{
    if n == 0 {
        Seq::<char>::empty()
    } else {
        hex(v / 16, (n - 1) as nat).push(hex_digit((v % 16) as int))
    }
}

/// The CSS color `#rrggbb` of the low 24 bits of `c`.
pub open spec fn css_rgb(c: u32) -> Seq<char> {
    seq!['#'] + hex((c % 0x100_0000) as nat, 6)
}

/// One channel of a color key: the 3-bit level `q` (0 ..= 7) spread over
/// 0 ..= 255 as `q * 32 + 16`.
pub open spec fn key_channel(q: int) -> nat {
    (q * 32 + 16) as nat
}

/// The CSS color of a quantized color key: bits 6..9 red, 3..6 green,
/// 0..3 blue, each written as two hexadecimal digits.
pub open spec fn css_key(key: u32) -> Seq<char> {
    seq!['#'] + hex(key_channel(((key / 64) % 8) as int), 2) + hex(
        key_channel(((key / 8) % 8) as int),
        2,
    ) + hex(key_channel((key % 8) as int), 2)
}

fn digit(d: u32) -> (c: char)
    requires
        d < 16,
    ensures
        c == hex_digit(d as int),
{
    let b: u8 = d as u8;
    if d < 10 {
        (48u8 + b) as char
    } else {
        (87u8 + b) as char
    }
}

/// Appends the `n` lowest hexadecimal digits of `v` to `out`.
fn push_hex(out: &mut String, v: u32, n: usize)
    ensures
        final(out)@ == old(out)@ + hex(v as nat, n as nat),
    decreases n,
{
    if n == 0 {
        assert(old(out)@ + hex(v as nat, 0) =~= old(out)@);
        return;
    }
    push_hex(out, v / 16, n - 1);
    push_char(out, digit(v % 16));
    assert(final(out)@ =~= old(out)@ + hex(v as nat, n as nat));
}

/// `#rrggbb` for a packed 0xRRGGBB color (bits above 24 are ignored).
pub fn rgb(c: u32) -> (s: String)
    ensures
        s@ == css_rgb(c),
{
    let low = c & 0xffffff;
    assert(low == c % 0x100_0000) by (bit_vector)
        requires
            low == c & 0xffffff,
    ;
    let mut s = String::new();
    push_char(&mut s, '#');
    push_hex(&mut s, low, 6);
    assert(s@ =~= css_rgb(c));
    s
}

/// `#rrggbb` for a packed 0xRRGGBB color, as the 3D renderer writes it.
pub fn rgb_u(c: u32) -> (s: String)
    ensures
        s@ == css_rgb(c),
{
    rgb(c)
}

/// Rebuild the quantized 3-bits-per-channel color key into a css string.
pub fn key_key_color(key: u32) -> (s: String)
    ensures
        s@ == css_key(key),
{
    let rq = (key >> 6) & 7;
    let gq = (key >> 3) & 7;
    let bq = key & 7;
    assert(rq == (key / 64) % 8 && gq == (key / 8) % 8 && bq == key % 8) by (bit_vector)
        requires
            rq == (key >> 6) & 7,
            gq == (key >> 3) & 7,
            bq == key & 7,
    ;
    let r = rq * 32 + 16;
    let g = gq * 32 + 16;
    let b = bq * 32 + 16;
    let mut s = String::new();
    push_char(&mut s, '#');
    push_hex(&mut s, r, 2);
    push_hex(&mut s, g, 2);
    push_hex(&mut s, b, 2);
    assert(s@ =~= css_key(key));
    s
}

/// A color key's channels are always two hexadecimal digits: each level
/// spreads to 16 ..= 240.
pub proof fn lemma_key_channel_bounds(q: int)
    requires
        0 <= q < 8,
    ensures
        16 <= key_channel(q) <= 240,
{
}

} // verus!
