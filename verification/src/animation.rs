//! The flash animation: which frame is shown when, and how large the
//! frames are encoded.

use vstd::prelude::*;
use crate::raster::{rgb_frame_dims, rgb_frame_samples, triangle_resized_samples, RgbFrame};

verus! {

/// How long a keyframe is held, in milliseconds.
pub const KEYFRAME_HOLD_MS: u32 = 1_200;

/// How long a flashed frame is shown, in milliseconds.
pub const FLASH_MS: u32 = 70;

/// How long the keyframe is shown between two flashes, in milliseconds.
pub const RETURN_MS: u32 = 150;

/// One entry of the animation: a frame index and how long it is shown.
#[derive(Clone, Copy, Debug, PartialEq, Eq, Structural)]
pub struct FrameShow {
    pub frame: usize,
    pub duration_ms: u32,
}

/// The entry showing `frame` for `ms` milliseconds.
pub open spec fn show(frame: int, ms: u32) -> FrameShow {
    FrameShow { frame: frame as usize, duration_ms: ms }
}

/// Frames `lo .. hi` flashed in turn, each followed by a return to
/// frame `key`; after the last one only when `close` holds.
pub open spec fn flash_run(key: int, lo: int, hi: int, close: bool) -> Seq<FrameShow>
    decreases hi - lo,
{
    if lo >= hi {
        seq![]
    } else {
        seq![show(lo, FLASH_MS)] + (if lo + 1 < hi || close {
            seq![show(key, RETURN_MS)]
        } else {
            seq![]
        }) + flash_run(key, lo + 1, hi, close)
    }
}

/// The animation of `n` frames. Frame 0 is held first. With more than
/// four frames, frames 1 to 3 flash with a return to frame 0 after each,
/// frame 4 is held as the second keyframe, and frames 5 onwards flash
/// with a return to frame 4 between them. With four or fewer, frames 1
/// onwards flash with a return to frame 0 between them.
pub open spec fn spec_flash_schedule(n: int) -> Seq<FrameShow> {
    if n > 4 {
        seq![show(0, KEYFRAME_HOLD_MS)] + flash_run(0, 1, 4, true) + seq![show(4, KEYFRAME_HOLD_MS)]
            + flash_run(4, 5, n, false)
    } else {
        seq![show(0, KEYFRAME_HOLD_MS)] + flash_run(0, 1, n, false)
    }
}

/// Whether frame `i` is flashed somewhere in `shows`.
pub open spec fn flashes(shows: Seq<FrameShow>, i: int) -> bool {
    exists|k: int| 0 <= k < shows.len() && #[trigger] shows[k] == show(i, FLASH_MS)
}

/// Whether frame `i` is held or flashed (not merely returned to)
/// somewhere in `shows`.
pub open spec fn features(shows: Seq<FrameShow>, i: int) -> bool {
    exists|k: int|
        0 <= k < shows.len() && #[trigger] shows[k].frame == i && shows[k].duration_ms != RETURN_MS
}

/// In a flash run, every entry is either a flash of a frame in
/// `lo .. hi` or a return to `key`, and every frame in `lo .. hi` flashes.
pub proof fn lemma_flash_run_entries(key: int, lo: int, hi: int, close: bool)
    requires
        0 <= key <= usize::MAX,
        0 <= lo,
        hi <= usize::MAX + 1,
    ensures
        forall|k: int|
            0 <= k < flash_run(key, lo, hi, close).len() ==> {
                let e = #[trigger] flash_run(key, lo, hi, close)[k];
                ||| e == show(key, RETURN_MS) && e.frame == key
                ||| e.duration_ms == FLASH_MS && lo <= e.frame < hi
            },
        forall|i: int| lo <= i < hi ==> #[trigger] flashes(flash_run(key, lo, hi, close), i),
    decreases hi - lo,
{
    if lo < hi {
        lemma_flash_run_entries(key, lo + 1, hi, close);
        let rest = flash_run(key, lo + 1, hi, close);
        let head = seq![show(lo, FLASH_MS)] + (if lo + 1 < hi || close {
            seq![show(key, RETURN_MS)]
        } else {
            seq![]
        });
        let run = flash_run(key, lo, hi, close);
        assert(run == head + rest);
        assert forall|k: int| 0 <= k < run.len() implies {
            let e = #[trigger] run[k];
            ||| e == show(key, RETURN_MS) && e.frame == key
            ||| e.duration_ms == FLASH_MS && lo <= e.frame < hi
        } by {
            if k >= head.len() {
                assert(run[k] == rest[k - head.len()]);
            }
        }
        assert forall|i: int| lo <= i < hi implies #[trigger] flashes(run, i) by {
            if i == lo {
                assert(run[0] == show(i, FLASH_MS));
            } else {
                assert(flashes(rest, i));
                let k = choose|k: int| 0 <= k < rest.len() && #[trigger] rest[k] == show(i, FLASH_MS);
                assert(run[k + head.len()] == rest[k]);
            }
        }
    }
}

/// Appends `flash_run(key, lo, hi, close)` to `shows`.
fn push_flash_run(shows: &mut Vec<FrameShow>, key: usize, lo: usize, hi: usize, close: bool)
    requires
        lo <= hi,
    ensures
        final(shows)@ == old(shows)@ + flash_run(key as int, lo as int, hi as int, close),
{
    let ghost target = shows@ + flash_run(key as int, lo as int, hi as int, close);
    let mut i = lo;
    while i < hi
        invariant
            lo <= i <= hi,
            shows@ + flash_run(key as int, i as int, hi as int, close) == target,
        decreases hi - i,
    {
        let ghost before = shows@;
        shows.push(FrameShow { frame: i, duration_ms: FLASH_MS });
        if i + 1 < hi || close {
            shows.push(FrameShow { frame: key, duration_ms: RETURN_MS });
            assert(before + flash_run(key as int, i as int, hi as int, close) =~= shows@
                + flash_run(key as int, i + 1, hi as int, close));
        } else {
            assert(before + flash_run(key as int, i as int, hi as int, close) =~= shows@
                + flash_run(key as int, i + 1, hi as int, close));
        }
        i = i + 1;
    }
    assert(shows@ + flash_run(key as int, i as int, hi as int, close) =~= shows@);
}

/// Every entry of the animation shows one of its `n` frames, and every
/// one of the `n` frames is held or flashed at least once.
pub proof fn lemma_schedule_frames(n: int)
    requires
        0 < n <= usize::MAX,
    ensures
        forall|k: int|
            0 <= k < spec_flash_schedule(n).len() ==> #[trigger] spec_flash_schedule(n)[k].frame < n,
        forall|i: int| 0 <= i < n ==> #[trigger] features(spec_flash_schedule(n), i),
{
    let sched = spec_flash_schedule(n);
    let first = seq![show(0, KEYFRAME_HOLD_MS)];
    if n > 4 {
        lemma_flash_run_entries(0, 1, 4, true);
        lemma_flash_run_entries(4, 5, n, false);
        let a = flash_run(0, 1, 4, true);
        let b = flash_run(4, 5, n, false);
        let mid = seq![show(4, KEYFRAME_HOLD_MS)];
        assert(sched == first + a + mid + b);
        let la: int = 1 + a.len() as int;
        let lm: int = la + 1;
        assert forall|k: int| 0 <= k < sched.len() implies #[trigger] sched[k].frame < n by {
            if 1 <= k < la {
                assert(sched[k] == a[k - 1]);
            } else if lm <= k {
                assert(sched[k] == b[k - lm]);
            }
        }
        assert forall|i: int| 0 <= i < n implies #[trigger] features(sched, i) by {
            if i == 0 {
                assert(sched[0].frame == i);
            } else if i < 4 {
                assert(flashes(a, i));
                let k = choose|k: int| 0 <= k < a.len() && #[trigger] a[k] == show(i, FLASH_MS);
                assert(sched[k + 1] == a[k]);
                assert(sched[k + 1].frame == i);
            } else if i == 4 {
                assert(sched[la] == show(4, KEYFRAME_HOLD_MS));
                assert(sched[la].frame == i);
            } else {
                assert(flashes(b, i));
                let k = choose|k: int| 0 <= k < b.len() && #[trigger] b[k] == show(i, FLASH_MS);
                assert(sched[k + lm] == b[k]);
                assert(sched[k + lm].frame == i);
            }
        }
    } else {
        lemma_flash_run_entries(0, 1, n, false);
        let a = flash_run(0, 1, n, false);
        assert(sched == first + a);
        assert forall|k: int| 0 <= k < sched.len() implies #[trigger] sched[k].frame < n by {
            if 1 <= k {
                assert(sched[k] == a[k - 1]);
            }
        }
        assert forall|i: int| 0 <= i < n implies #[trigger] features(sched, i) by {
            if i == 0 {
                assert(sched[0].frame == i);
            } else {
                assert(flashes(a, i));
                let k = choose|k: int| 0 <= k < a.len() && #[trigger] a[k] == show(i, FLASH_MS);
                assert(sched[k + 1] == a[k]);
                assert(sched[k + 1].frame == i);
            }
        }
    }
}

/// The frame order of the flash animation of `frame_count` frames; there
/// is none without frames.
pub fn flash_schedule(frame_count: usize) -> (shows: Option<Vec<FrameShow>>)
    ensures
        shows is None <==> frame_count == 0,
        shows matches Some(v) ==> v@ == spec_flash_schedule(frame_count as int),
        shows matches Some(v) ==> forall|k: int| 0 <= k < v.len() ==> #[trigger] v[k].frame < frame_count,
        shows matches Some(v) ==> forall|i: int| 0 <= i < frame_count ==> #[trigger] features(v@, i),
{
    if frame_count == 0 {
        return None;
    }
    let mut shows: Vec<FrameShow> = Vec::new();
    shows.push(FrameShow { frame: 0, duration_ms: KEYFRAME_HOLD_MS });
    if frame_count > 4 {
        push_flash_run(&mut shows, 0, 1, 4, true);
        shows.push(FrameShow { frame: 4, duration_ms: KEYFRAME_HOLD_MS });
        push_flash_run(&mut shows, 4, 5, frame_count, false);
    } else {
        push_flash_run(&mut shows, 0, 1, frame_count, false);
    }
    assert(shows@ =~= spec_flash_schedule(frame_count as int));
    proof {
        lemma_schedule_frames(frame_count as int);
    }
    Some(shows)
}


/// The widest frame the animation is encoded at.
pub const GIF_MAX_WIDTH: u32 = 800;

/// The tallest frame the animation is encoded at.
pub const GIF_MAX_HEIGHT: u32 = 600;

/// `num / den` rounded to the nearest integer, halves up, and at least 1.
pub open spec fn scaled_side(num: int, den: int) -> int {
    let rounded = (2 * num + den) / (2 * den);
    if rounded < 1 {
        1
    } else {
        rounded
    }
}

/// The size a `width` x `height` frame is encoded at: unchanged when it
/// fits in 800 x 600, otherwise scaled down to fit, keeping its aspect
/// ratio, with the binding side at its limit.
pub open spec fn spec_gif_target_size(width: int, height: int) -> (int, int) {
    if width <= GIF_MAX_WIDTH && height <= GIF_MAX_HEIGHT {
        (width, height)
    } else if width * GIF_MAX_HEIGHT >= height * GIF_MAX_WIDTH {
        (GIF_MAX_WIDTH as int, scaled_side(height * GIF_MAX_WIDTH, width))
    } else {
        (scaled_side(width * GIF_MAX_HEIGHT, height), GIF_MAX_HEIGHT as int)
    }
}

/// `scaled_side(num, den)` is `num / den` to within half a unit, except
/// where that quotient is below one half and the side is kept at 1.
pub proof fn lemma_scaled_side(num: int, den: int)
    requires
        num >= 0,
        den > 0,
    ensures
        -den <= 2 * num - 2 * scaled_side(num, den) * den <= den || (scaled_side(num, den) == 1
            && 2 * num < den),
{
    let r = (2 * num + den) / (2 * den);
    assert(r * (2 * den) <= 2 * num + den < r * (2 * den) + 2 * den) by (nonlinear_arith)
        requires
            den > 0,
            r == (2 * num + den) / (2 * den),
    ;
    assert(r >= 0) by (nonlinear_arith)
        requires
            den > 0,
            num >= 0,
            r == (2 * num + den) / (2 * den),
    ;
    if r >= 1 {
        assert(-den <= 2 * num - 2 * r * den <= den) by (nonlinear_arith)
            requires
                r * (2 * den) <= 2 * num + den < r * (2 * den) + 2 * den,
        ;
    } else {
        assert(2 * num < den) by (nonlinear_arith)
            requires
                r == 0,
                2 * num + den < r * (2 * den) + 2 * den,
        ;
    }
}

/// A frame that is scaled down keeps its aspect ratio: the side that is
/// not at its limit is the exact proportional length to within half a
/// pixel (or 1 where that length is below half a pixel).
pub proof fn lemma_gif_size_keeps_aspect(width: int, height: int)
    requires
        0 <= width,
        0 <= height,
        width > GIF_MAX_WIDTH || height > GIF_MAX_HEIGHT,
    ensures
        ({
            let (tw, th) = spec_gif_target_size(width, height);
            if width * GIF_MAX_HEIGHT >= height * GIF_MAX_WIDTH {
                &&& tw == GIF_MAX_WIDTH
                &&& (-width <= 2 * height * GIF_MAX_WIDTH - 2 * th * width <= width || (th == 1
                    && 2 * height * GIF_MAX_WIDTH < width))
            } else {
                &&& th == GIF_MAX_HEIGHT
                &&& (-height <= 2 * width * GIF_MAX_HEIGHT - 2 * tw * height <= height || (tw == 1
                    && 2 * width * GIF_MAX_HEIGHT < height))
            }
        }),
{
    if width * GIF_MAX_HEIGHT >= height * GIF_MAX_WIDTH {
        assert(width > 0) by (nonlinear_arith)
            requires
                width * 600 >= height * 800,
                width > 800 || height > 600,
                height >= 0,
        ;
        lemma_scaled_side(height * GIF_MAX_WIDTH, width);
    } else {
        assert(height > 0) by (nonlinear_arith)
            requires
                width * 600 < height * 800,
                width >= 0,
        ;
        lemma_scaled_side(width * GIF_MAX_HEIGHT, height);
    }
}

/// The size at which a frame of `width` x `height` is encoded.
pub fn gif_target_size(width: u32, height: u32) -> (size: (u32, u32))
    ensures
        size.0 == spec_gif_target_size(width as int, height as int).0,
        size.1 == spec_gif_target_size(width as int, height as int).1,
        size.0 <= GIF_MAX_WIDTH && size.1 <= GIF_MAX_HEIGHT,
        size.0 <= width || size.0 == 1,
        size.1 <= height || size.1 == 1,
        (width > GIF_MAX_WIDTH || height > GIF_MAX_HEIGHT) ==> size.0 >= 1 && size.1 >= 1,
{
    if width <= GIF_MAX_WIDTH && height <= GIF_MAX_HEIGHT {
        return (width, height);
    }
    let w = width as u64;
    let h = height as u64;
    let max_w = GIF_MAX_WIDTH as u64;
    let max_h = GIF_MAX_HEIGHT as u64;
    if w * max_h >= h * max_w {
        assert(w > max_w) by (nonlinear_arith)
            requires
                w * max_h >= h * max_w,
                !(w <= max_w && h <= max_h),
                max_w == 800,
                max_h == 600,
        ;
        let rounded = (2 * h * max_w + w) / (2 * w);
        assert(rounded <= max_h) by (nonlinear_arith)
            requires
                w * max_h >= h * max_w,
                w > 0,
                max_h == 600,
                rounded == (2 * h * max_w + w) / (2 * w),
        ;
        assert(rounded <= h) by (nonlinear_arith)
            requires
                w > max_w,
                max_w == 800,
                rounded == (2 * h * max_w + w) / (2 * w),
        ;
        let th = if rounded < 1 {
            1
        } else {
            rounded
        };
        (GIF_MAX_WIDTH, th as u32)
    } else {
        assert(h > max_h) by (nonlinear_arith)
            requires
                w * max_h < h * max_w,
                !(w <= max_w && h <= max_h),
                max_w == 800,
                max_h == 600,
        ;
        let rounded = (2 * w * max_h + h) / (2 * h);
        assert(rounded <= max_w) by (nonlinear_arith)
            requires
                w * max_h < h * max_w,
                h > 0,
                max_w == 800,
                rounded == (2 * w * max_h + h) / (2 * h),
        ;
        assert(rounded <= w) by (nonlinear_arith)
            requires
                h > max_h,
                max_h == 600,
                rounded == (2 * w * max_h + h) / (2 * h),
        ;
        let tw = if rounded < 1 {
            1
        } else {
            rounded
        };
        (tw as u32, GIF_MAX_HEIGHT)
    }
}


/// Shrinks a frame that does not fit in 800 x 600 to the size
/// `gif_target_size` gives, with a Triangle filter; a frame that fits is
/// copied as it is.
pub fn resize_for_gif(src: &RgbFrame) -> (out: RgbFrame)
    requires
        !(rgb_frame_dims(*src).0 <= GIF_MAX_WIDTH && rgb_frame_dims(*src).1 <= GIF_MAX_HEIGHT)
            ==> 16 * rgb_frame_dims(*src).0 * spec_gif_target_size(
            rgb_frame_dims(*src).0 as int,
            rgb_frame_dims(*src).1 as int,
        ).1 <= isize::MAX,
    ensures
        rgb_frame_dims(out).0 == spec_gif_target_size(
            rgb_frame_dims(*src).0 as int,
            rgb_frame_dims(*src).1 as int,
        ).0,
        rgb_frame_dims(out).1 == spec_gif_target_size(
            rgb_frame_dims(*src).0 as int,
            rgb_frame_dims(*src).1 as int,
        ).1,
        rgb_frame_samples(out) == if rgb_frame_dims(*src).0 <= GIF_MAX_WIDTH
            && rgb_frame_dims(*src).1 <= GIF_MAX_HEIGHT {
            rgb_frame_samples(*src)
        } else {
            triangle_resized_samples(
                rgb_frame_samples(*src),
                rgb_frame_dims(*src).0,
                rgb_frame_dims(*src).1,
                rgb_frame_dims(out).0,
                rgb_frame_dims(out).1,
            )
        },
{
    let (width, height) = src.dimensions();
    if width <= GIF_MAX_WIDTH && height <= GIF_MAX_HEIGHT {
        return src.clone();
    }
    let (target_w, target_h) = gif_target_size(width, height);
    assert(3 * target_w * target_h <= 3 * 800 * 600 <= isize::MAX) by (nonlinear_arith)
        requires
            target_w <= 800,
            target_h <= 600,
    ;
    src.resize_triangle(target_w, target_h)
}

/// The RGBA samples of a frame: each pixel's three samples followed by
/// an opaque alpha of 255.
pub open spec fn spec_rgba_samples(frame: RgbFrame) -> Seq<u8> {
    let (w, h) = rgb_frame_dims(frame);
    Seq::new(
        (4 * w * h) as nat,
        |i: int|
            if i % 4 == 3 {
                255u8
            } else {
                rgb_frame_samples(frame)[3 * (i / 4) + i % 4]
            },
    )
}

/// Converts an RGB frame to RGBA samples with full opacity.
pub fn rgb_to_rgba(frame: &RgbFrame) -> (rgba: Vec<u8>)
    requires
        4 * rgb_frame_dims(*frame).0 * rgb_frame_dims(*frame).1 <= usize::MAX,
    ensures
        rgba@ == spec_rgba_samples(*frame),
{
    let (width, height) = frame.dimensions();
    let ghost target = spec_rgba_samples(*frame);
    let mut out: Vec<u8> = Vec::new();
    if width == 0 || height == 0 {
        assert(4 * width * height == 0) by (nonlinear_arith)
            requires
                width == 0 || height == 0,
        ;
        assert(out@ =~= target);
        return out;
    }
    let ghost total: int = width * height;
    assert(4 * width * height == 4 * total && 3 * width * height == 3 * total) by (nonlinear_arith)
        requires
            total == width * height,
    ;
    let mut x: u32 = 0;
    let mut y: u32 = 0;
    let mut p: usize = 0;
    while y < height
        invariant
            0 < width,
            0 < height,
            (width, height) == rgb_frame_dims(*frame),
            total == width * height,
            3 * total <= rgb_frame_samples(*frame).len(),
            target == spec_rgba_samples(*frame),
            target.len() == 4 * total,
            4 * total <= usize::MAX,
            x < width,
            y <= height,
            p == y * width + x,
            y == height ==> x == 0,
            p <= total,
            out@.len() == 4 * p,
            forall|i: int| 0 <= i < out@.len() ==> out@[i] == target[i],
        decreases total - p,
    {
        assert(p < total) by (nonlinear_arith)
            requires
                p == y * width + x,
                x < width,
                y < height,
                total == width * height,
        ;
        let px = frame.pixel(x, y);
        let ghost before = out@;
        out.push(px[0]);
        out.push(px[1]);
        out.push(px[2]);
        out.push(255u8);
        assert(out@ == before + seq![px[0], px[1], px[2], 255u8]);
        let ghost base: int = 3 * (y * width + x);
        assert(px@ == rgb_frame_samples(*frame).subrange(base, base + 3));
        assert forall|i: int| 0 <= i < out@.len() implies out@[i] == target[i] by {
            if i >= 4 * p {
                let c = i - 4 * p;
                assert(i / 4 == p && i % 4 == c);
                assert(3 * (i / 4) + i % 4 == base + c);
                if c < 3 {
                    assert(out@[i] == px@[c]);
                    assert(px@[c] == rgb_frame_samples(*frame)[base + c]);
                }
            } else {
                assert(out@[i] == before[i]);
            }
        }
        let ghost y0 = y;
        p = p + 1;
        if x + 1 == width {
            x = 0;
            y = y + 1;
            assert(p == y * width + x) by (nonlinear_arith)
                requires
                    p == y0 * width + width,
                    y == y0 + 1,
                    x == 0,
            ;
        } else {
            x = x + 1;
        }
    }
    assert(p == total);
    assert(out@ =~= target);
    out
}

} // verus!
