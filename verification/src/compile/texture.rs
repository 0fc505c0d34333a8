use crate::process::bcn::{
    bc7_chain_bytes, chain_encodable, chain_fits_layer, compress_bc7_ultra_fast_2d, encodable_extent,
    is_chain_encodable, lemma_chain_encoded_size_by_extents, Bc7Quality, DdsBlockFormat,
};
use crate::process::imaging::{image_color, image_color_type, image_extent, Filter};
use crate::process::mips::{chain_resizable, kept_levels, level_extent, resized_chain, try_generate_mips};
use crate::process::{alpha_format, has_alpha_channel, ColorType};
use crate::utilities::{base58_text, compute_identity, sha256};
use vstd::prelude::*;

verus! {

/// Smallest width of a mip level that a texture build keeps.
pub const MIN_MIP_WIDTH: u32 = 4;

/// Smallest height of a mip level that a texture build keeps.
pub const MIN_MIP_HEIGHT: u32 = 4;

/// The smallest level size that a texture build keeps.
pub open spec fn build_min_size() -> Option<(u32, u32)> {
    Some((MIN_MIP_WIDTH, MIN_MIP_HEIGHT))
}

/// Whether `chain` is the mip chain that a texture build makes of `input`: the image itself,
/// then halved levels down to the smallest size kept, each of the size that resizing the
/// previous one gives.
pub open spec fn is_build_chain(input: image::DynamicImage, chain: Seq<image::DynamicImage>) -> bool {
    let (width, height) = image_extent(input);
    &&& chain.len() == kept_levels(width, height, build_min_size())
    &&& chain[0] == input
    &&& resized_chain(chain, width, height, Filter::Lanczos3)
    &&& forall|level: int|
        0 <= level < chain.len() ==> #[trigger] image_extent(chain[level]) == level_extent(
            width,
            height,
            level as nat,
        )
}

/// Whether `data` is the DDS file that a texture build makes of `input`: the encodable mip
/// chain of the build, encoded as BC7 level after level, alpha straight when the image has an
/// alpha channel, else opaque.
pub open spec fn built_texture_bytes(input: image::DynamicImage, data: Seq<u8>) -> bool {
    exists|chain: Seq<image::DynamicImage>|
        #![trigger is_build_chain(input, chain)]
        {
            &&& is_build_chain(input, chain)
            &&& chain_encodable(chain)
            &&& bc7_chain_bytes(Bc7Quality::UltraFast, false, has_alpha_channel(image_color(input)), chain, data)
        }
}

/// Whether a texture build of `input` succeeds: the image is not a palette image, every level
/// of its chain that is resized can be, and the chain can be handed to the encoders and
/// written into the surface that `ddsfile` makes for it.
pub open spec fn build_succeeds(input: image::DynamicImage) -> bool {
    &&& !(image_color(input) is Palette)
    &&& chain_resizable(image_extent(input).0, image_extent(input).1, build_min_size())
    &&& exists|chain: Seq<image::DynamicImage>|
        #![trigger is_build_chain(input, chain)]
        is_build_chain(input, chain) && chain_encodable(chain) && chain_fits_layer(
            DdsBlockFormat::Bc7Unorm,
            chain,
        )
}

/// A built texture: its DDS file, and the file's identity.
pub struct CompiledTexture {
    pub data: Vec<u8>,
    pub identity: String,
}

/// Two build chains of an image are encodable, and fit their surfaces, alike.
proof fn lemma_build_chains_encodable_alike(
    input: image::DynamicImage,
    a: Seq<image::DynamicImage>,
    b: Seq<image::DynamicImage>,
)
    requires
        is_build_chain(input, a),
        is_build_chain(input, b),
    ensures
        chain_encodable(a) == chain_encodable(b),
        chain_fits_layer(DdsBlockFormat::Bc7Unorm, a) == chain_fits_layer(DdsBlockFormat::Bc7Unorm, b),
{
    assert forall|i: int| 0 <= i < a.len() implies image_extent(#[trigger] a[i]) == image_extent(b[i]) by {
        let (width, height) = image_extent(input);
        assert(image_extent(a[i]) == level_extent(width, height, i as nat));
        assert(image_extent(b[i]) == level_extent(width, height, i as nat));
    }
    lemma_chain_encoded_size_by_extents(DdsBlockFormat::Bc7Unorm, a, b);
    assert(image_extent(a[0]) == image_extent(b[0]));
    if chain_encodable(a) {
        assert forall|i: int| 0 <= i < b.len() implies encodable_extent(#[trigger] image_extent(b[i])) by {
            assert(image_extent(a[i]) == image_extent(b[i]));
        }
    }
    if chain_encodable(b) {
        assert forall|i: int| 0 <= i < a.len() implies encodable_extent(#[trigger] image_extent(a[i])) by {
            assert(image_extent(a[i]) == image_extent(b[i]));
        }
    }
}

/// Builds a texture from a decoded image: its mip chain, resized with the Lanczos filter
/// down to levels of four by four texels, encoded as BC7 with the opaque ultra-fast preset
/// into a DDS file whose alpha is straight when the image has an alpha channel, else opaque;
/// with the identity of that file. `None` exactly where the build does not succeed (see
/// `build_succeeds`): for a palette image, for an image whose chain has a level that cannot
/// be resized (see `resizable`), whose levels the encoders cannot take, whose surface's layout
/// does not fit in 32 bits, or whose levels do not fit in the layer that `ddsfile` allocates.
pub fn compile_texture(input: image::DynamicImage) -> (out: Option<CompiledTexture>)
    ensures
        out is Some <==> build_succeeds(input),
        out matches Some(texture) ==> texture.identity@ == base58_text(sha256(texture.data@)),
        out matches Some(texture) ==> built_texture_bytes(input, texture.data@),
{
    let ghost source = input;
    let color_type = image_color_type(&input);
    if let ColorType::Palette(_) = color_type {
        return None;
    }
    let has_alpha = alpha_format(color_type);
    let images = match try_generate_mips(input, Filter::Lanczos3, Some((MIN_MIP_WIDTH, MIN_MIP_HEIGHT))) {
        Some(images) => images,
        None => return None,
    };
    assert(is_build_chain(source, images@));
    if !is_chain_encodable(&images) {
        proof {
            assert forall|chain: Seq<image::DynamicImage>| is_build_chain(source, chain) implies chain_encodable(
                chain,
            ) == chain_encodable(images@) by {
                lemma_build_chains_encodable_alike(source, chain, images@);
            }
            assert(!build_succeeds(source));
        }
        return None;
    }
    proof {
        assert forall|chain: Seq<image::DynamicImage>| is_build_chain(source, chain) implies chain_encodable(
            chain,
        ) by {
            lemma_build_chains_encodable_alike(source, chain, images@);
        }
    }
    match compress_bc7_ultra_fast_2d(&images, has_alpha) {
        Some(data) => {
            let identity = compute_identity(data.as_slice());
            proof {
                assert(built_texture_bytes(source, data@));
                assert(build_succeeds(source));
            }
            Some(CompiledTexture { data, identity })
        },
        None => {
            proof {
                assert forall|chain: Seq<image::DynamicImage>| is_build_chain(source, chain) implies !chain_fits_layer(
                    DdsBlockFormat::Bc7Unorm,
                    chain,
                ) by {
                    lemma_build_chains_encodable_alike(source, chain, images@);
                }
                assert(!build_succeeds(source));
            }
            None
        },
    }
}

} // verus!
