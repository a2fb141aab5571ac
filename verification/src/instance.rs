//! One board cell as it is stored on the GPU: a colour packed into 32 bits.
use vstd::prelude::*;

verus! {

/// A board cell: its colour as four 8-bit channels, red in the lowest byte,
/// then green, blue and alpha in the highest byte.
#[derive(Clone, Copy, Debug, PartialEq, Eq, Structural)]
pub struct Instance {
    pub color: u32,
}

/// The value of `r | g << 8 | b << 16 | a << 24`, written as plain arithmetic.
pub open spec fn packed(r: u8, g: u8, b: u8, a: u8) -> int {
    r + g * 0x100 + b * 0x1_0000 + a * 0x100_0000
}

/// Channel `i` (0 = red, 1 = green, 2 = blue, 3 = alpha) of a packed colour.
pub open spec fn channel(color: u32, i: int) -> u8 {
    if i == 0 {
        (color % 0x100) as u8
    } else if i == 1 {
        ((color / 0x100) % 0x100) as u8
    } else if i == 2 {
        ((color / 0x1_0000) % 0x100) as u8
    } else {
        (color / 0x100_0000) as u8
    }
}

/// Packs four 8-bit channels into one colour word, red lowest and alpha highest.
pub fn pack_color(r: u8, g: u8, b: u8, a: u8) -> (color: u32)
    ensures
        color == packed(r, g, b, a),
{
    let r32 = r as u32;
    let g32 = g as u32;
    let b32 = b as u32;
    let a32 = a as u32;
    assert(r32 | (g32 << 8) | (b32 << 16) | (a32 << 24) == r32 + g32 * 0x100 + b32 * 0x1_0000
        + a32 * 0x100_0000) by (bit_vector)
        requires
            r32 < 0x100,
            g32 < 0x100,
            b32 < 0x100,
            a32 < 0x100,
    ;
    r32 | (g32 << 8) | (b32 << 16) | (a32 << 24)
}

/// Packing loses nothing: each channel of a packed colour is the channel that
/// was packed into it.
pub proof fn lemma_pack_channels(r: u8, g: u8, b: u8, a: u8)
    ensures
        0 <= packed(r, g, b, a) <= u32::MAX,
        channel(packed(r, g, b, a) as u32, 0) == r,
        channel(packed(r, g, b, a) as u32, 1) == g,
        channel(packed(r, g, b, a) as u32, 2) == b,
        channel(packed(r, g, b, a) as u32, 3) == a,
{
    let c = packed(r, g, b, a);
    assert(c == r + 0x100 * (g + 0x100 * (b + 0x100 * a)));
    assert(c % 0x100 == r && c / 0x100 == g + 0x100 * (b + 0x100 * a)) by {
        vstd::arithmetic::div_mod::lemma_fundamental_div_mod_converse(
            c,
            0x100,
            g + 0x100 * (b + 0x100 * a),
            r as int,
        );
    }
    let c1 = g + 0x100 * (b + 0x100 * a);
    assert(c1 % 0x100 == g && c1 / 0x100 == b + 0x100 * a) by {
        vstd::arithmetic::div_mod::lemma_fundamental_div_mod_converse(
            c1,
            0x100,
            b + 0x100 * a,
            g as int,
        );
    }
    let c2 = b + 0x100 * a;
    assert(c2 % 0x100 == b && c2 / 0x100 == a) by {
        vstd::arithmetic::div_mod::lemma_fundamental_div_mod_converse(c2, 0x100, a as int, b as int);
    }
    assert(c / 0x1_0000 == c1 / 0x100) by {
        vstd::arithmetic::div_mod::lemma_div_denominator(c, 0x100, 0x100);
    }
    assert(c / 0x100_0000 == c2 / 0x100) by {
        vstd::arithmetic::div_mod::lemma_div_denominator(c, 0x1_0000, 0x100);
        vstd::arithmetic::div_mod::lemma_div_denominator(c1, 0x100, 0x100);
    }
}

/// A colour word is the packing of its own channels, so storing a colour as
/// four little-endian bytes and reading it back gives the same colour.
pub proof fn lemma_channels_pack(color: u32)
    ensures
        packed(channel(color, 0), channel(color, 1), channel(color, 2), channel(color, 3))
            == color,
{
    let c = color as int;
    vstd::arithmetic::div_mod::lemma_fundamental_div_mod(c, 0x100);
    vstd::arithmetic::div_mod::lemma_fundamental_div_mod(c / 0x100, 0x100);
    vstd::arithmetic::div_mod::lemma_fundamental_div_mod(c / 0x1_0000, 0x100);
    vstd::arithmetic::div_mod::lemma_div_denominator(c, 0x100, 0x100);
    vstd::arithmetic::div_mod::lemma_div_denominator(c, 0x1_0000, 0x100);
    vstd::arithmetic::div_mod::lemma_div_pos_is_pos(c, 0x100_0000);
    vstd::arithmetic::div_mod::lemma_div_is_ordered(c, 0xffff_ffff, 0x100_0000);
}

/// The instances stored in `bytes`, four little-endian bytes each; trailing
/// bytes that do not make up a whole instance are ignored.
pub fn instances_from_le_bytes(bytes: &[u8]) -> (instances: Vec<Instance>)
    ensures
        instances@.len() == bytes@.len() / 4,
        forall|i: int|
            0 <= i < instances@.len() ==> (#[trigger] instances@[i]).color == packed(
                bytes@[4 * i],
                bytes@[4 * i + 1],
                bytes@[4 * i + 2],
                bytes@[4 * i + 3],
            ),
{
    let n = bytes.len();
    let count = n / 4;
    let mut instances: Vec<Instance> = Vec::new();
    let mut i: usize = 0;
    while i < count
        invariant
            n == bytes@.len(),
            count == bytes@.len() / 4,
            i <= count,
            instances@.len() == i,
            forall|j: int|
                0 <= j < instances@.len() ==> (#[trigger] instances@[j]).color == packed(
                    bytes@[4 * j],
                    bytes@[4 * j + 1],
                    bytes@[4 * j + 2],
                    bytes@[4 * j + 3],
                ),
        decreases count - i,
    {
        assert(4 * i + 3 < bytes@.len()) by {
            vstd::arithmetic::div_mod::lemma_fundamental_div_mod(bytes@.len() as int, 4);
            assert(4 * i + 4 <= 4 * count) by (nonlinear_arith)
                requires
                    i < count,
            ;
        }
        let base = 4 * i;
        let color = pack_color(bytes[base], bytes[base + 1], bytes[base + 2], bytes[base + 3]);
        instances.push(Instance { color });
        i = i + 1;
    }
    instances
}

} // verus!
