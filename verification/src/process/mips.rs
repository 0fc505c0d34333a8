use crate::process::imaging::{
    fitted_extent, image_dimensions, image_extent, image_resize, resizable, resize_extent, resizes_to, Filter,
};
use crate::process::{calculate_mip_count, max_side, mip_count};
use vstd::prelude::*;

verus! {

/// Size asked of level `level` of the mip chain of a `width` x `height` image: both sides
/// halved `level` times.
pub open spec fn requested_extent(width: u32, height: u32, level: nat) -> (u32, u32) {
    (width >> level, height >> level)
}

/// Whether level `level` is too small for `min_size`.
pub open spec fn below_min_size(width: u32, height: u32, level: nat, min_size: Option<(u32, u32)>) -> bool {
    match min_size {
        Some((min_width, min_height)) => {
            let (w, h) = requested_extent(width, height, level);
            w < min_width || h < min_height
        },
        None => false,
    }
}

/// Number of levels kept from level `level` on: levels are added while they are within the
/// full chain and not below `min_size`.
pub open spec fn kept_levels_from(
    width: u32,
    height: u32,
    min_size: Option<(u32, u32)>,
    level: nat,
) -> nat
    decreases mip_count(max_side(width, height)) - level,
{
    if level >= mip_count(max_side(width, height)) || below_min_size(width, height, level, min_size) {
        level
    } else {
        kept_levels_from(width, height, min_size, level + 1)
    }
}

/// Number of levels of the mip chain of a `width` x `height` image: the top level, then each
/// halved level until the full chain ends or a level is below `min_size`.
pub open spec fn kept_levels(width: u32, height: u32, min_size: Option<(u32, u32)>) -> nat {
    kept_levels_from(width, height, min_size, 1)
}

/// Size of level `level` of the chain generated from a `width` x `height` image: each level
/// is the previous one resized to fit in the requested size.
pub open spec fn level_extent(width: u32, height: u32, level: nat) -> (u32, u32)
    decreases level,
{
    if level == 0 {
        (width, height)
    } else {
        let (w, h) = requested_extent(width, height, level);
        resize_extent(level_extent(width, height, (level - 1) as nat), w, h)
    }
}

/// Whether each level of `images` after the first is a resampling of the previous one with `filter`
/// to fit in the size asked of it, both sides of a `width` x `height` top level halved once
/// more per level.
pub open spec fn resized_chain(images: Seq<image::DynamicImage>, width: u32, height: u32, filter: Filter) -> bool {
    forall|level: int|
        1 <= level < images.len() ==> resizes_to(
            images[level - 1],
            requested_extent(width, height, level as nat).0,
            requested_extent(width, height, level as nat).1,
            filter,
            #[trigger] images[level],
        )
}

/// Whether level `level` can be resized into the next level (see `resizable`).
pub open spec fn level_resizable(width: u32, height: u32, level: nat) -> bool {
    resizable(level_extent(width, height, level), requested_extent(width, height, level + 1).0)
}

/// Whether every level that is resized to make the chain can be resized.
pub open spec fn chain_resizable(width: u32, height: u32, min_size: Option<(u32, u32)>) -> bool {
    forall|level: nat|
        #![trigger level_resizable(width, height, level)]
        level + 1 < kept_levels(width, height, min_size) ==> level_resizable(width, height, level)
}

proof fn lemma_kept_levels_bounds(width: u32, height: u32, min_size: Option<(u32, u32)>, level: nat)
    requires
        1 <= level <= mip_count(max_side(width, height)),
    ensures
        level <= kept_levels_from(width, height, min_size, level) <= mip_count(max_side(width, height)),
    decreases mip_count(max_side(width, height)) - level,
{
    if !(level >= mip_count(max_side(width, height)) || below_min_size(width, height, level, min_size)) {
        lemma_kept_levels_bounds(width, height, min_size, level + 1);
    }
}

/// Law: a mip chain holds the top level and never more levels than the full chain.
pub proof fn lemma_chain_within_full_chain(width: u32, height: u32, min_size: Option<(u32, u32)>)
    ensures
        1 <= kept_levels(width, height, min_size) <= mip_count(max_side(width, height)),
{
    assert(mip_count(max_side(width, height)) >= 1);
    lemma_kept_levels_bounds(width, height, min_size, 1);
}

proof fn lemma_kept_from_meets_min_size(width: u32, height: u32, min_size: Option<(u32, u32)>, level: nat)
    requires
        1 <= level <= mip_count(max_side(width, height)),
    ensures
        forall|l: nat|
            level <= l < kept_levels_from(width, height, min_size, level) ==> !#[trigger] below_min_size(
                width,
                height,
                l,
                min_size,
            ),
        kept_levels_from(width, height, min_size, level) < mip_count(max_side(width, height))
            ==> below_min_size(width, height, kept_levels_from(width, height, min_size, level), min_size),
    decreases mip_count(max_side(width, height)) - level,
{
    if !(level >= mip_count(max_side(width, height)) || below_min_size(width, height, level, min_size)) {
        lemma_kept_from_meets_min_size(width, height, min_size, level + 1);
    }
}

/// Law: with a smallest size `(min_width, min_height)`, every level of the mip chain after
/// the first is asked a width of at least `min_width` and a height of at least `min_height`
/// (both sides of the top level halved once per level), and a chain shorter than the full
/// chain stops at the first level asked a width below `min_width` or a height below
/// `min_height`.
pub proof fn lemma_chain_meets_min_size(width: u32, height: u32, min_width: u32, min_height: u32)
    ensures
        forall|level: nat|
            #![trigger width >> level]
            1 <= level < kept_levels(width, height, Some((min_width, min_height))) ==> (width >> level)
                >= min_width && (height >> level) >= min_height,
        kept_levels(width, height, Some((min_width, min_height))) < mip_count(max_side(width, height))
            ==> (width >> kept_levels(width, height, Some((min_width, min_height)))) < min_width || (height
            >> kept_levels(width, height, Some((min_width, min_height)))) < min_height,
{
    assert(mip_count(max_side(width, height)) >= 1);
    lemma_kept_from_meets_min_size(width, height, Some((min_width, min_height)), 1);
    assert forall|level: nat|
        1 <= level < kept_levels(width, height, Some((min_width, min_height))) implies (width >> level)
        >= min_width && (height >> level) >= min_height by {
        assert(!below_min_size(width, height, level, Some((min_width, min_height))));
    }
}

/// Law: without a smallest size, the mip chain is the full chain.
pub proof fn lemma_unbounded_chain_is_full(width: u32, height: u32)
    ensures
        kept_levels(width, height, None) == mip_count(max_side(width, height)),
{
    assert(mip_count(max_side(width, height)) >= 1);
    lemma_unbounded_from(width, height, 1);
}

proof fn lemma_unbounded_from(width: u32, height: u32, level: nat)
    requires
        1 <= level <= mip_count(max_side(width, height)),
    ensures
        kept_levels_from(width, height, None, level) == mip_count(max_side(width, height)),
    decreases mip_count(max_side(width, height)) - level,
{
    if level < mip_count(max_side(width, height)) {
        lemma_unbounded_from(width, height, level + 1);
    }
}

/// Whether every level that the mip chain of a `width` x `height` image resizes can be
/// resized (see `chain_resizable`), found by following the chain's sizes level by level.
pub fn is_chain_resizable(width: u32, height: u32, min_size: Option<(u32, u32)>) -> (resizable_chain: bool)
    ensures
        resizable_chain == chain_resizable(width, height, min_size),
{
    let level_count = calculate_mip_count(width, height);
    proof {
        lemma_kept_levels_bounds(width, height, min_size, 1);
    }
    let mut extent: (u32, u32) = (width, height);
    let mut i: u32 = 1;
    while i < level_count
        invariant
            level_count == mip_count(max_side(width, height)),
            level_count <= 32,
            1 <= i <= level_count,
            extent == level_extent(width, height, (i - 1) as nat),
            kept_levels_from(width, height, min_size, 1) == kept_levels_from(width, height, min_size, i as nat),
            forall|level: nat| level + 1 < i ==> #[trigger] level_resizable(width, height, level),
        decreases level_count - i,
    {
        // Size asked of this level.
        let dst_width = width >> i;
        let dst_height = height >> i;
        if let Some((min_width, min_height)) = min_size {
            if dst_width < min_width || dst_height < min_height {
                assert(below_min_size(width, height, i as nat, min_size));
                assert(kept_levels(width, height, min_size) == i);
                return true;
            }
        }
        proof {
            assert(!below_min_size(width, height, i as nat, min_size));
            lemma_kept_levels_bounds(width, height, min_size, (i + 1) as nat);
            assert(requested_extent(width, height, i as nat) == (dst_width, dst_height));
        }
        if !(extent.0 > 0 || (dst_width > 0 && extent.1 > 0)) {
            assert(!level_resizable(width, height, (i - 1) as nat));
            assert(((i - 1) as nat) + 1 < kept_levels(width, height, min_size));
            return false;
        }
        assert(level_resizable(width, height, (i - 1) as nat));
        extent = fitted_extent(extent, dst_width, dst_height);
        i = i + 1;
    }
    assert(kept_levels(width, height, min_size) == level_count);
    true
}

/// The mip chain of `top_level`: the image itself, then each level resized with `filter` from
/// the previous one to half the top level's sides, as long as the full chain goes and the
/// requested size is not below `min_size`.
pub fn generate_mips(
    top_level: image::DynamicImage,
    filter: Filter,
    min_size: Option<(u32, u32)>,
) -> (images: Vec<image::DynamicImage>)
    requires
        chain_resizable(image_extent(top_level).0, image_extent(top_level).1, min_size),
    ensures
        images@.len() == kept_levels(image_extent(top_level).0, image_extent(top_level).1, min_size),
        images@.len() >= 1,
        images@[0] == top_level,
        resized_chain(images@, image_extent(top_level).0, image_extent(top_level).1, filter),
        forall|level: int|
            0 <= level < images@.len() ==> #[trigger] image_extent(images@[level]) == level_extent(
                image_extent(top_level).0,
                image_extent(top_level).1,
                level as nat,
            ),
        min_size matches Some((min_width, min_height)) ==> forall|level: nat|
            1 <= level < images@.len() ==> #[trigger] requested_extent(
                image_extent(top_level).0,
                image_extent(top_level).1,
                level,
            ).0 >= min_width && requested_extent(image_extent(top_level).0, image_extent(top_level).1, level).1
                >= min_height,
{
    let (width, height) = image_dimensions(&top_level);
    let level_count = calculate_mip_count(width, height);
    let ghost top = top_level;
    proof {
        lemma_kept_levels_bounds(width, height, min_size, 1);
    }

    let mut images: Vec<image::DynamicImage> = Vec::new();
    images.push(top_level);

    let mut i: u32 = 1;
    while i < level_count
        invariant
            top == top_level,
            (width, height) == image_extent(top),
            chain_resizable(width, height, min_size),
            level_count == mip_count(max_side(width, height)),
            level_count <= 32,
            1 <= i <= level_count,
            images@.len() == i,
            images@[0] == top,
            resized_chain(images@, width, height, filter),
            kept_levels_from(width, height, min_size, 1) == kept_levels_from(width, height, min_size, i as nat),
            forall|level: int|
                0 <= level < images@.len() ==> #[trigger] image_extent(images@[level]) == level_extent(
                    width,
                    height,
                    level as nat,
                ),
        ensures
            images@.len() == kept_levels(width, height, min_size),
            resized_chain(images@, width, height, filter),
            forall|level: int|
                0 <= level < images@.len() ==> #[trigger] image_extent(images@[level]) == level_extent(
                    width,
                    height,
                    level as nat,
                ),
        decreases level_count - i,
    {
        // Size asked of this level.
        let dst_width = width >> i;
        let dst_height = height >> i;
        if let Some((min_width, min_height)) = min_size {
            if dst_width < min_width || dst_height < min_height {
                assert(below_min_size(width, height, i as nat, min_size));
                break;
            }
        }
        proof {
            assert(!below_min_size(width, height, i as nat, min_size));
            lemma_kept_levels_bounds(width, height, min_size, (i + 1) as nat);
            assert(((i - 1) as nat) + 1 < kept_levels(width, height, min_size));
            assert(level_resizable(width, height, (i - 1) as nat));
            assert(image_extent(images@[(i - 1) as int]) == level_extent(width, height, (i - 1) as nat));
            assert(requested_extent(width, height, i as nat).0 == dst_width);
        }
        let src_image = &images[(i - 1) as usize];
        let dst_image = image_resize(src_image, dst_width, dst_height, filter);
        let ghost before = images@;
        images.push(dst_image);
        proof {
            assert forall|level: int| 1 <= level < images@.len() implies resizes_to(
                images@[level - 1],
                requested_extent(width, height, level as nat).0,
                requested_extent(width, height, level as nat).1,
                filter,
                #[trigger] images@[level],
            ) by {
                if level < i {
                    assert(images@[level] == before[level]);
                    assert(images@[level - 1] == before[level - 1]);
                }
            }
            assert(image_extent(images@[i as int]) == level_extent(width, height, i as nat));
        }
        i = i + 1;
    }
    proof {
        if let Some((min_width, min_height)) = min_size {
            lemma_chain_meets_min_size(width, height, min_width, min_height);
            assert forall|level: nat| 1 <= level < images@.len() implies #[trigger] requested_extent(
                width,
                height,
                level,
            ).0 >= min_width && requested_extent(width, height, level).1 >= min_height by {
                assert(width >> level >= min_width);
            }
        }
    }
    images
}

/// The mip chain of `top_level` as `generate_mips` makes it, or `None` when a level that
/// would have to be resized cannot be (see `resizable`; `generate_mips` does not take such an
/// image).
pub fn try_generate_mips(
    top_level: image::DynamicImage,
    filter: Filter,
    min_size: Option<(u32, u32)>,
) -> (chain: Option<Vec<image::DynamicImage>>)
    ensures
        chain is None <==> !chain_resizable(image_extent(top_level).0, image_extent(top_level).1, min_size),
        chain matches Some(images) ==> {
            &&& images@.len() == kept_levels(image_extent(top_level).0, image_extent(top_level).1, min_size)
            &&& images@.len() >= 1
            &&& images@[0] == top_level
            &&& resized_chain(images@, image_extent(top_level).0, image_extent(top_level).1, filter)
            &&& forall|level: int|
                0 <= level < images@.len() ==> #[trigger] image_extent(images@[level]) == level_extent(
                    image_extent(top_level).0,
                    image_extent(top_level).1,
                    level as nat,
                )
            &&& min_size matches Some((min_width, min_height)) ==> forall|level: nat|
                1 <= level < images@.len() ==> #[trigger] requested_extent(
                    image_extent(top_level).0,
                    image_extent(top_level).1,
                    level,
                ).0 >= min_width && requested_extent(image_extent(top_level).0, image_extent(top_level).1, level).1
                    >= min_height
        },
{
    let (width, height) = image_dimensions(&top_level);
    if !is_chain_resizable(width, height, min_size) {
        return None;
    }
    let ghost top = top_level;
    let images = generate_mips(top_level, filter, min_size);
    proof {
        if let Some((min_width, min_height)) = min_size {
            assert forall|level: nat| 1 <= level < images@.len() implies #[trigger] requested_extent(
                image_extent(top).0,
                image_extent(top).1,
                level,
            ).0 >= min_width && requested_extent(image_extent(top).0, image_extent(top).1, level).1
                >= min_height by {
                assert(requested_extent(image_extent(top).0, image_extent(top).1, level).0 >= min_width);
            }
        }
    }
    Some(images)
}

} // verus!
