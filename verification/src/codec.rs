//! The pixel codec: conversion between the packed 32-bit-per-pixel
//! channel-interleaved representation the device works on and the
//! unpacked per-channel byte representation suitable for image export.

use vstd::prelude::*;

verus! {

/// The packed form of four 8-bit channels: R in the most significant byte,
/// then G, then B, then A in the least significant byte.
pub open spec fn spec_pack(r: u8, g: u8, b: u8, a: u8) -> u32 {
    ((r as u32) << 24) | ((g as u32) << 16) | ((b as u32) << 8) | (a as u32)
}

/// The red channel of a packed pixel: its most significant byte.
pub open spec fn spec_red(p: u32) -> u8 {
    ((p >> 24) & 0xFF) as u8
}

/// The green channel of a packed pixel: its second byte.
pub open spec fn spec_green(p: u32) -> u8 {
    ((p >> 16) & 0xFF) as u8
}

/// The blue channel of a packed pixel: its third byte.
pub open spec fn spec_blue(p: u32) -> u8 {
    ((p >> 8) & 0xFF) as u8
}

/// The alpha channel of a packed pixel: its least significant byte.
pub open spec fn spec_alpha(p: u32) -> u8 {
    (p & 0xFF) as u8
}

/// Combine four byte-range channel values into one packed 32-bit pixel,
/// R|G|B|A from most to least significant byte.
pub fn pack(r: u8, g: u8, b: u8, a: u8) -> (p: u32)
    ensures
        p == spec_pack(r, g, b, a),
{
    ((r as u32) << 24) | ((g as u32) << 16) | ((b as u32) << 8) | (a as u32)
}

/// Extract the four channel bytes of a packed pixel, in R, G, B, A order.
pub fn unpack(p: u32) -> (c: (u8, u8, u8, u8))
    ensures
        c == (spec_red(p), spec_green(p), spec_blue(p), spec_alpha(p)),
{
    (
        ((p >> 24) & 0xFF) as u8,
        ((p >> 16) & 0xFF) as u8,
        ((p >> 8) & 0xFF) as u8,
        (p & 0xFF) as u8,
    )
}

/// Round trip: unpacking a packed pixel gives back exactly the four
/// channel values that were packed, for all byte-range inputs.
pub proof fn lemma_unpack_of_pack(r: u8, g: u8, b: u8, a: u8)
    ensures
        spec_red(spec_pack(r, g, b, a)) == r,
        spec_green(spec_pack(r, g, b, a)) == g,
        spec_blue(spec_pack(r, g, b, a)) == b,
        spec_alpha(spec_pack(r, g, b, a)) == a,
{
    assert((((((r as u32) << 24) | ((g as u32) << 16) | ((b as u32) << 8) | (a as u32)) >> 24)
        & 0xFF) as u8 == r) by (bit_vector);
    assert((((((r as u32) << 24) | ((g as u32) << 16) | ((b as u32) << 8) | (a as u32)) >> 16)
        & 0xFF) as u8 == g) by (bit_vector);
    assert((((((r as u32) << 24) | ((g as u32) << 16) | ((b as u32) << 8) | (a as u32)) >> 8)
        & 0xFF) as u8 == b) by (bit_vector);
    assert(((((r as u32) << 24) | ((g as u32) << 16) | ((b as u32) << 8) | (a as u32)) & 0xFF)
        as u8 == a) by (bit_vector);
}

/// Packing the four extracted channels gives back the packed pixel: the
/// codec loses nothing in either direction.
pub proof fn lemma_pack_of_unpack(p: u32)
    ensures
        spec_pack(spec_red(p), spec_green(p), spec_blue(p), spec_alpha(p)) == p,
{
    assert(((((p >> 24) & 0xFF) as u8 as u32) << 24) | ((((p >> 16) & 0xFF) as u8 as u32) << 16)
        | ((((p >> 8) & 0xFF) as u8 as u32) << 8) | ((p & 0xFF) as u8 as u32) == p)
        by (bit_vector);
}

/// The channel-interleaved byte sequence of a sequence of packed pixels:
/// four bytes per pixel, in R, G, B, A order.
pub open spec fn spec_unpacked_bytes(pixels: Seq<u32>) -> Seq<u8> {
    Seq::new(4 * pixels.len(), |i: int| unpacked_byte_at(pixels, i))
}

/// The byte at position `i` of the channel-interleaved form: pixel `i / 4`,
/// channel `i % 4`.
pub open spec fn unpacked_byte_at(pixels: Seq<u32>, i: int) -> u8 {
    if i % 4 == 0 {
        spec_red(pixels[i / 4])
    } else if i % 4 == 1 {
        spec_green(pixels[i / 4])
    } else if i % 4 == 2 {
        spec_blue(pixels[i / 4])
    } else {
        spec_alpha(pixels[i / 4])
    }
}

/// Unpack a buffer of packed pixels into the raw channel-interleaved byte
/// sequence of the image, four bytes per pixel in R, G, B, A order.
pub fn unpack_pixels(pixels: &Vec<u32>) -> (bytes: Vec<u8>)
    requires
        4 * pixels@.len() <= usize::MAX,
    ensures
        bytes@ == spec_unpacked_bytes(pixels@),
{
    let mut bytes: Vec<u8> = Vec::new();
    let mut i: usize = 0;
    while i < pixels.len()
        invariant
            i <= pixels@.len(),
            4 * pixels@.len() <= usize::MAX,
            bytes@.len() == 4 * i,
            forall|j: int| 0 <= j < 4 * i ==> bytes@[j] == unpacked_byte_at(pixels@, j),
        decreases pixels@.len() - i,
    {
        let (r, g, b, a) = unpack(pixels[i]);
        bytes.push(r);
        bytes.push(g);
        bytes.push(b);
        bytes.push(a);
        i = i + 1;
    }
    assert(bytes@ =~= spec_unpacked_bytes(pixels@));
    bytes
}

} // verus!
