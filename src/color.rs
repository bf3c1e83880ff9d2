use vstd::prelude::*;

verus! {

/// The red, green and blue bytes of a colour written as `0xRRGGBB`; bits above
/// the lowest 24 play no part.
pub open spec fn hex_channels_spec(hex: u32) -> Seq<u8> {
    seq![((hex / 0x10000) % 0x100) as u8, ((hex / 0x100) % 0x100) as u8, (hex % 0x100) as u8]
}

/// Splits a colour written as `0xRRGGBB` into its red, green and blue bytes.
pub fn hex_channels(hex: u32) -> (r: [u8; 3])
    ensures
        r@ == hex_channels_spec(hex),
{
    let mask: u32 = 0xff;
    let b = hex & mask;
    let g = (hex >> 8u32) & mask;
    let red = (hex >> 16u32) & mask;
    assert(b == hex % 0x100) by (bit_vector)
        requires
            b == hex & 0xff,
    ;
    assert(g == (hex / 0x100) % 0x100) by (bit_vector)
        requires
            g == (hex >> 8u32) & 0xff,
    ;
    assert(red == (hex / 0x10000) % 0x100) by (bit_vector)
        requires
            red == (hex >> 16u32) & 0xff,
    ;
    let r = [red as u8, g as u8, b as u8];
    assert(r@ =~= hex_channels_spec(hex));
    r
}

} // verus!
