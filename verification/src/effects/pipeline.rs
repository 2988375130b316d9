//! The per-row and per-pixel decisions of the cyberpunk pass.

use vstd::prelude::*;
use crate::cli::DiscreteSettings;
use crate::effects::math::{clamp_coord, random_shift, sample_rgb, spec_random_shift};
use crate::raster::{pixel_at, rgb_frame_dims, RgbFrame};

verus! {

/// Salt of the red channel's row shift.
pub const RED_SHIFT_SALT: u64 = 17;

/// Salt of the blue channel's row shift.
pub const BLUE_SHIFT_SALT: u64 = 23;

/// What the pass decides once per row.
#[derive(Clone, Copy, Debug)]
pub struct RowContext {
    pub y_u32: u32,
    pub y_i32: i32,
    /// Whether this row is a strong glitch row.
    pub row_glitch: bool,
    /// Horizontal offset at which the red channel is read.
    pub red_shift: i32,
    /// Horizontal offset at which the blue channel is read.
    pub blue_shift: i32,
}

/// The largest channel offset that `glitch_shift` allows: the shift itself,
/// or none when it is not positive.
pub open spec fn spec_shift_limit(glitch_shift: i32) -> int {
    if glitch_shift > 0 {
        glitch_shift as int
    } else {
        0
    }
}

/// The red shift of row `y`: its seeded base shift, pushed right by the
/// shift limit on a glitch row, and never beyond that limit.
pub open spec fn spec_red_shift(seed: u64, glitch_shift: i32, y: u64, row_glitch: bool) -> int {
    let limit = spec_shift_limit(glitch_shift);
    let pushed = spec_random_shift(seed, y, glitch_shift, RED_SHIFT_SALT) + if row_glitch {
        limit
    } else {
        0
    };
    if pushed > limit {
        limit
    } else {
        pushed
    }
}

/// The blue shift of row `y`: its seeded base shift, pushed left by the
/// shift limit on a glitch row, and never beyond that limit.
pub open spec fn spec_blue_shift(seed: u64, glitch_shift: i32, y: u64, row_glitch: bool) -> int {
    let limit = spec_shift_limit(glitch_shift);
    let pushed = spec_random_shift(seed, y, glitch_shift, BLUE_SHIFT_SALT) - if row_glitch {
        limit
    } else {
        0
    };
    if pushed < -limit {
        -limit
    } else {
        pushed
    }
}

/// Builds the context of row `y`; whether the row glitches is decided by
/// the caller from the row's random unit value and the glitch rate.
/// Both channel offsets stay within the glitch shift.
pub fn build_row_context(settings: &DiscreteSettings, y: usize, row_glitch: bool) -> (ctx: RowContext)
    ensures
        ctx.y_u32 == y as u32,
        ctx.y_i32 == y as i32,
        ctx.row_glitch == row_glitch,
        ctx.red_shift == spec_red_shift(settings.seed, settings.glitch_shift, y as u64, row_glitch),
        ctx.blue_shift == spec_blue_shift(settings.seed, settings.glitch_shift, y as u64, row_glitch),
        -spec_shift_limit(settings.glitch_shift) <= ctx.red_shift <= spec_shift_limit(
            settings.glitch_shift,
        ),
        -spec_shift_limit(settings.glitch_shift) <= ctx.blue_shift <= spec_shift_limit(
            settings.glitch_shift,
        ),
{
    let seed = settings.seed;
    let glitch_shift = settings.glitch_shift;
    let y_u32 = y as u32;
    let y_u64 = y as u64;
    let y_i32 = y as i32;
    let limit: i64 = if glitch_shift > 0 {
        glitch_shift as i64
    } else {
        0
    };
    let base_red_shift = random_shift(seed, y_u64, glitch_shift, RED_SHIFT_SALT) as i64;
    let base_blue_shift = random_shift(seed, y_u64, glitch_shift, BLUE_SHIFT_SALT) as i64;
    let row_boost: i64 = if row_glitch {
        limit
    } else {
        0
    };
    let pushed_red = base_red_shift + row_boost;
    let pushed_blue = base_blue_shift - row_boost;
    let red_shift = if pushed_red > limit {
        limit
    } else {
        pushed_red
    };
    let blue_shift = if pushed_blue < -limit {
        -limit
    } else {
        pushed_blue
    };
    RowContext { y_u32, y_i32, row_glitch, red_shift: red_shift as i32, blue_shift: blue_shift as i32 }
}

impl RowContext {
    /// Whether the glitch tint applies to this row: a glitch row whose
    /// index is a multiple of seven.
    pub fn glitch_tinted(&self) -> (tinted: bool)
        ensures
            tinted == (self.row_glitch && self.y_u32 % 7 == 0),
    {
        self.row_glitch && self.y_u32 % 7 == 0
    }
}

/// The channels that pixel `x` of a row starts from: red read at
/// `x + red_shift`, green at `x`, blue at `x + blue_shift`, each clamped
/// to the image.
pub fn shifted_channels(src: &RgbFrame, x: u32, ctx: &RowContext) -> (rgb: [u8; 3])
    requires
        0 < rgb_frame_dims(*src).0,
        0 < rgb_frame_dims(*src).1,
        rgb_frame_dims(*src).0 - 1 <= i32::MAX,
        rgb_frame_dims(*src).1 - 1 <= i32::MAX,
        x <= i32::MAX,
        i32::MIN <= x + ctx.red_shift <= i32::MAX,
        i32::MIN <= x + ctx.blue_shift <= i32::MAX,
    ensures
        ({
            let max_x = rgb_frame_dims(*src).0 - 1;
            let row = clamp_coord(ctx.y_i32 as int, rgb_frame_dims(*src).1 - 1);
            &&& rgb[0] == pixel_at(*src, clamp_coord(x + ctx.red_shift, max_x), row)[0]
            &&& rgb[1] == pixel_at(*src, clamp_coord(x as int, max_x), row)[1]
            &&& rgb[2] == pixel_at(*src, clamp_coord(x + ctx.blue_shift, max_x), row)[2]
        }),
{
    let x_i32 = x as i32;
    let src_r = sample_rgb(src, x_i32 + ctx.red_shift, ctx.y_i32);
    let src_g = sample_rgb(src, x_i32, ctx.y_i32);
    let src_b = sample_rgb(src, x_i32 + ctx.blue_shift, ctx.y_i32);
    [src_r[0], src_g[1], src_b[2]]
}

/// The three kinds of scanline row.
#[derive(Clone, Copy, Debug, PartialEq, Eq, Structural)]
pub enum ScanlinePhase {
    /// The first row of each period: darkened.
    Dark,
    /// The second row of each period: brightened.
    Bright,
    /// The other rows: lightly lifted.
    Lifted,
}

/// The phase of row `y` for a scanline period of `step` rows.
pub open spec fn spec_scanline_phase(y: u32, step: u32) -> ScanlinePhase {
    let phase = y % step;
    if phase == 0 {
        ScanlinePhase::Dark
    } else if phase == 1 {
        ScanlinePhase::Bright
    } else {
        ScanlinePhase::Lifted
    }
}

/// The scanline treatment of pixel `(x, y)`.
#[derive(Clone, Copy, Debug, PartialEq, Eq, Structural)]
pub struct ScanlineCell {
    pub phase: ScanlinePhase,
    /// Whether the pixel's column is the lit one of its aperture triple.
    pub lit_column: bool,
}

/// Classifies pixel `(x, y)` for the scanline pass with period `step`.
pub fn scanline_cell(x: u32, y: u32, step: u32) -> (cell: ScanlineCell)
    requires
        step > 0,
    ensures
        cell.phase == spec_scanline_phase(y, step),
        cell.lit_column == (x % 3 == 0),
{
    let phase = y % step;
    let phase = if phase == 0 {
        ScanlinePhase::Dark
    } else if phase == 1 {
        ScanlinePhase::Bright
    } else {
        ScanlinePhase::Lifted
    };
    ScanlineCell { phase, lit_column: x % 3 == 0 }
}

/// A row is dark exactly when it starts a scanline period, bright exactly
/// when it is the second row of a period, and lifted on every other row.
pub proof fn lemma_scanline_phase_by_position(y: u32, step: u32)
    requires
        step > 0,
    ensures
        (spec_scanline_phase(y, step) == ScanlinePhase::Dark) <==> y % step == 0,
        (spec_scanline_phase(y, step) == ScanlinePhase::Bright) <==> y % step == 1,
        (spec_scanline_phase(y, step) == ScanlinePhase::Lifted) <==> y % step >= 2,
{
}

/// The scanline pattern repeats every `step` rows.
pub proof fn lemma_scanline_periodic(y: u32, step: u32)
    requires
        step > 0,
        y + step <= u32::MAX,
    ensures
        spec_scanline_phase((y + step) as u32, step) == spec_scanline_phase(y, step),
{
    assert(((y + step) as u32) % step == y % step) by (nonlinear_arith)
        requires
            step > 0,
            y + step <= u32::MAX,
    ;
}

} // verus!
