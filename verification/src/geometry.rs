//! Arithmetic facts about row-major pixel indices.
use vstd::prelude::*;
use vstd::arithmetic::div_mod::{lemma_fundamental_div_mod, lemma_fundamental_div_mod_converse};

verus! {

/// The pixel at `row`, `col` of a `width`-wide, `height`-high buffer sits at
/// index `row * width + col`, which lies inside the buffer and splits back
/// into that row and column.
pub proof fn lemma_pixel_index(row: int, col: int, width: int, height: int)
    requires
        0 <= row < height,
        0 <= col < width,
    ensures
        0 <= row * width + col < width * height,
        (row * width + col) / width == row,
        (row * width + col) % width == col,
{
    assert(0 <= row * width) by (nonlinear_arith)
        requires 0 <= row, 0 <= width;
    assert(row * width + col < width * height) by (nonlinear_arith)
        requires 0 <= row < height, 0 <= col < width;
    lemma_fundamental_div_mod_converse(row * width + col, width, row, col);
}

/// Every index inside a `width`-wide, `height`-high buffer splits into a row
/// below `height` and a column below `width`.
pub proof fn lemma_index_split(i: int, width: int, height: int)
    requires
        0 <= i < width * height,
        height >= 0,
    ensures
        width > 0,
        0 <= i % width < width,
        0 <= i / width < height,
        i == (i / width) * width + i % width,
{
    if width <= 0 {
        assert(width * height <= 0) by (nonlinear_arith)
            requires width <= 0, height >= 0;
    }
    lemma_fundamental_div_mod(i, width);
    assert(0 <= i % width < width) by {
        vstd::arithmetic::div_mod::lemma_mod_pos_bound(i, width);
    }
    assert(i / width >= 0) by {
        vstd::arithmetic::div_mod::lemma_div_pos_is_pos(i, width);
    }
    assert(i / width < height) by (nonlinear_arith)
        requires i == width * (i / width) + i % width, 0 <= i % width, i < width * height, width > 0;
    assert(i == (i / width) * width + i % width) by (nonlinear_arith)
        requires i == width * (i / width) + i % width;
}

} // verus!
