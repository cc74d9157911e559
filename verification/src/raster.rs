//! The order in which the pixels of an image are computed.

use vstd::prelude::*;
use vstd::arithmetic::div_mod::*;
use vstd::arithmetic::mul::*;

verus! {

/// The number of pixels of an image.
pub fn pixel_count(width: u32, height: u32) -> (count: u64)
    ensures
        count == width * height,
{
    proof {
        lemma_mul_upper_bound(width as int, u32::MAX as int, height as int, u32::MAX as int);
    }
    width as u64 * height as u64
}

/// The column and row of the pixel at `index`, counting row by row from
/// the top left.
pub open spec fn position_of(index: nat, width: nat) -> (nat, nat) {
    (index % width, index / width)
}

/// Every index below the number of pixels lies inside the image, and its
/// column and row lead back to it: no pixel is computed twice, none left out.
pub proof fn lemma_position_in_image(index: nat, width: nat, height: nat)
    requires
        index < width * height,
    ensures
        width > 0,
        position_of(index, width).0 < width,
        position_of(index, width).1 < height,
        position_of(index, width).1 * width + position_of(index, width).0 == index,
{
    if width == 0 {
        assert(width * height == 0) by (nonlinear_arith)
            requires
                width == 0,
        ;
    }
    lemma_fundamental_div_mod(index as int, width as int);
    lemma_mod_bound(index as int, width as int);
    assert(width * height == height * width) by (nonlinear_arith);
    lemma_div_by_multiple_is_strongly_ordered(
        index as int,
        (height * width) as int,
        height as int,
        width as int,
    );
    lemma_div_multiples_vanish(height as int, width as int);
    let row = index / width;
    assert(width * row == row * width) by (nonlinear_arith);
}

/// The column and row of the pixel at `index` in an image of the given
/// width, counting row by row from the top left.
pub fn pixel_at(index: u64, width: u32) -> (at: (u32, u32))
    requires
        width > 0,
        index / (width as u64) <= u32::MAX,
    ensures
        at.0 == position_of(index as nat, width as nat).0,
        at.1 == position_of(index as nat, width as nat).1,
{
    proof {
        lemma_mod_bound(index as int, width as int);
    }
    ((index % width as u64) as u32, (index / width as u64) as u32)
}

} // verus!
