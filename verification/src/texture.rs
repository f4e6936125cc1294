//! A texture: a 2-D grid of color samples with an identifying index,
//! sampled by normalized coordinates with the clamp policy.

use vstd::prelude::*;
use crate::fx::{fx_clamp_range, fx_clamp_range_spec, FX_ONE};
use crate::vector::Color3;

verus! {

/// An immutable 2-D grid of color texels, row-major, plus an index.
#[derive(Clone, Debug)]
pub struct Texture {
    pub id: i32,
    pub width: usize,
    pub height: usize,
    pub texels: Vec<Color3>,
}

/// Bounded products keep their bound.
proof fn lemma_mul_le(a: int, b: int, x: int, y: int)
    by (nonlinear_arith)
    requires
        0 <= a <= x,
        0 <= b <= y,
    ensures
        a * b <= x * y,
{
}

/// A row-major pixel index stays inside the grid.
pub proof fn lemma_grid_index(w: int, h: int, col: int, row: int)
    by (nonlinear_arith)
    requires
        0 <= col < w,
        0 <= row < h,
    ensures
        0 <= row * w + col,
        row * w + col < w * h,
{
}

impl Texture {
    /// The grid is non-empty and exactly covers its texel store.
    pub open spec fn wf(self) -> bool {
        &&& self.width > 0
        &&& self.height > 0
        &&& self.texels@.len() == (self.width as int) * (self.height as int)
    }

    /// Column selected by a normalized horizontal coordinate under the
    /// clamp policy: coordinate 0 is the first column, 1 the last.
    pub open spec fn sample_col_spec(self, u: int) -> int {
        let uc = fx_clamp_range_spec(u, 0, 65536);
        let c = (uc * (self.width as int)) / 65536;
        if c >= self.width as int {
            self.width as int - 1
        } else {
            c
        }
    }

    /// Row selected by a normalized vertical coordinate under the clamp
    /// policy: coordinate 0 is the first row, 1 the last.
    pub open spec fn sample_row_spec(self, v: int) -> int {
        let vc = fx_clamp_range_spec(v, 0, 65536);
        let r = (vc * (self.height as int)) / 65536;
        if r >= self.height as int {
            self.height as int - 1
        } else {
            r
        }
    }

    /// The texel a normalized coordinate pair selects.
    pub open spec fn sample_spec(self, u: int, v: int) -> Color3 {
        self.texels@[self.sample_row_spec(v) * (self.width as int) + self.sample_col_spec(u)]
    }

    /// A texture from its decoded grid.
    pub fn new(id: i32, width: usize, height: usize, texels: Vec<Color3>) -> (r: Texture)
        requires
            width > 0,
            height > 0,
            texels@.len() == (width as int) * (height as int),
        ensures
            r.id == id,
            r.width == width,
            r.height == height,
            r.texels@ == texels@,
            r.wf(),
    {
        Texture { id, width, height, texels }
    }

    /// Sample the grid at a normalized coordinate pair; coordinates outside
    /// `[0, 1]` clamp to the border, never an out-of-bounds read.
    pub fn sample(&self, u: i64, v: i64) -> (r: Color3)
        requires
            self.wf(),
        ensures
            r == self.sample_spec(u as int, v as int),
    {
        let uc = fx_clamp_range(u, 0, FX_ONE);
        let vc = fx_clamp_range(v, 0, FX_ONE);
        proof {
            lemma_mul_le(uc as int, self.width as int, 65536, usize::MAX as int);
            lemma_mul_le(vc as int, self.height as int, 65536, usize::MAX as int);
        }
        let cw: u128 = ((uc as u128) * (self.width as u128)) / 65536;
        let rh: u128 = ((vc as u128) * (self.height as u128)) / 65536;
        let col: usize = if cw >= self.width as u128 {
            self.width - 1
        } else {
            cw as usize
        };
        let row: usize = if rh >= self.height as u128 {
            self.height - 1
        } else {
            rh as usize
        };
        let n: usize = self.texels.len();
        proof {
            lemma_grid_index(self.width as int, self.height as int, col as int, row as int);
            assert(row * self.width + col < n);
        }
        self.texels[row * self.width + col]
    }

    /// Sampling at coordinate (0, 0) returns the texel of the first row and
    /// column; sampling at (1, 1) returns the texel of the last row and
    /// column, under the clamp policy.
    pub proof fn lemma_sample_corners(self)
        requires
            self.wf(),
        ensures
            self.sample_spec(0, 0) == self.texels@[0],
            self.sample_spec(65536, 65536) == self.texels@[self.texels@.len() - 1],
    {
        let w = self.width as int;
        let h = self.height as int;
        assert(0 * w == 0);
        assert(self.sample_col_spec(0) == 0);
        assert(self.sample_row_spec(0) == 0);
        assert(self.sample_spec(0, 0) == self.texels@[0 * w + 0]);
        assert((65536 * w) / 65536 == w) by (nonlinear_arith)
            requires
                w > 0,
        ;
        assert((65536 * h) / 65536 == h) by (nonlinear_arith)
            requires
                h > 0,
        ;
        assert((h - 1) * w + (w - 1) == w * h - 1) by (nonlinear_arith);
    }
}

} // verus!
