pub mod bcn;
pub mod imaging;
pub mod mips;
pub mod manifest;

pub use crate::schema;
pub use crate::schema::TextureDescArgs;

use vstd::arithmetic::power2::{lemma2_to64, lemma_pow2_strictly_increases, lemma_pow2_unfold, pow2};
use vstd::prelude::*;

verus! {

/// The channel layout of a decoded image, with its bits per channel.
#[derive(Clone, Copy, Debug, PartialEq, Eq, Structural)]
pub enum ColorType {
    Gray(u8),
    RGB(u8),
    Palette(u8),
    GrayA(u8),
    RGBA(u8),
    BGR(u8),
    BGRA(u8),
}

/// Whether pixels of this layout carry an alpha channel.
pub open spec fn has_alpha_channel(color_type: ColorType) -> bool {
    match color_type {
        ColorType::GrayA(_) | ColorType::RGBA(_) | ColorType::BGRA(_) => true,
        _ => false,
    }
}

/// Whether pixels of this layout carry an alpha channel. Palette images are not handled.
pub fn alpha_format(color_type: ColorType) -> (alpha: bool)
    requires
        !(color_type is Palette),
    ensures
        alpha == has_alpha_channel(color_type),
{
    match color_type {
        ColorType::Gray(_bit_depth) => false,
        ColorType::GrayA(_bit_depth) => true,
        ColorType::RGB(_bit_depth) => false,
        ColorType::RGBA(_bit_depth) => true,
        ColorType::BGRA(_bit_depth) => true,
        ColorType::BGR(_bit_depth) => false,
        ColorType::Palette(_bit_depth) => {
            assert(false);
            false
        },
    }
}

/// Law: the layouts with alpha are gray with alpha, RGBA and BGRA, whatever their bits per
/// channel; gray, RGB and BGR have none.
pub proof fn lemma_alpha_layouts(bits: u8)
    ensures
        has_alpha_channel(ColorType::GrayA(bits)),
        has_alpha_channel(ColorType::RGBA(bits)),
        has_alpha_channel(ColorType::BGRA(bits)),
        !has_alpha_channel(ColorType::Gray(bits)),
        !has_alpha_channel(ColorType::RGB(bits)),
        !has_alpha_channel(ColorType::BGR(bits)),
{
}

/// Number of levels of a full mip chain whose largest side is `extent`: every level halves
/// the previous one (rounding down) until a side of one texel is reached.
pub open spec fn mip_count(extent: nat) -> nat
    decreases extent,
{
    if extent <= 1 {
        1
    } else {
        1 + mip_count(extent / 2)
    }
}

/// The larger of two sides.
pub open spec fn max_side(width: u32, height: u32) -> nat {
    if width >= height {
        width as nat
    } else {
        height as nat
    }
}

/// Law: the larger side is at least each side, and is one of them.
pub proof fn lemma_max_side_is_larger(width: u32, height: u32)
    ensures
        max_side(width, height) >= width,
        max_side(width, height) >= height,
        max_side(width, height) == width || max_side(width, height) == height,
{
}

/// Number of levels of the full mip chain of a `width` x `height` texture:
/// one more than the base-two logarithm of the larger side, rounded down (one level for an
/// empty texture).
pub fn calculate_mip_count(width: u32, height: u32) -> (count: u32)
    ensures
        count == mip_count(max_side(width, height)),
        1 <= count <= 32,
{
    let mut extent: u32 = if width >= height { width } else { height };
    proof {
        lemma_mip_count_is_bit_length(extent as nat);
        if extent >= 1 {
            assert(pow2(32) == 0x1_0000_0000) by {
                lemma2_to64();
            }
            if mip_count(extent as nat) > 32 {
                lemma_pow2_strictly_increases(32, (mip_count(extent as nat) - 1) as nat);
            }
        }
    }
    let mut count: u32 = 1;
    while extent > 1
        invariant
            1 <= count,
            count + mip_count(extent as nat) - 1 == mip_count(max_side(width, height)),
            mip_count(max_side(width, height)) <= 32,
        decreases extent,
    {
        extent = extent / 2;
        count = count + 1;
    }
    count
}

/// Law: the mip count of a side of at least one texel is its length in binary digits,
/// `2^(count - 1) <= extent < 2^count`.
pub proof fn lemma_mip_count_is_bit_length(extent: nat)
    ensures
        mip_count(extent) >= 1,
        extent >= 1 ==> pow2((mip_count(extent) - 1) as nat) <= extent,
        extent >= 1 ==> extent < pow2(mip_count(extent)),
    decreases extent,
{
    if extent <= 1 {
        lemma2_to64();
    } else {
        lemma_mip_count_is_bit_length(extent / 2);
        let k = (mip_count(extent / 2) - 1) as nat;
        lemma_pow2_unfold(k + 1);
        lemma_pow2_unfold(k + 2);
        assert((k + 1) as nat == mip_count(extent) - 1);
    }
}

} // verus!
