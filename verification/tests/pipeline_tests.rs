use cymg::effects::bloom::clamped_neighbors;
use cymg::cli::DiscreteSettings;
use cymg::effects::math::random_shift;
use cymg::effects::pipeline::{
    build_row_context, scanline_cell, shifted_channels, ScanlinePhase, BLUE_SHIFT_SALT,
    RED_SHIFT_SALT,
};
use cymg::raster::RgbFrame;

fn settings(seed: u64, glitch_shift: i32) -> DiscreteSettings {
    DiscreteSettings { seed, glitch_shift, ..DiscreteSettings::default() }
}

#[test]
fn quiet_row_uses_base_shifts() {
    let ctx = build_row_context(&settings(2077, 9), 3, false);
    assert_eq!(ctx.y_u32, 3);
    assert_eq!(ctx.y_i32, 3);
    assert!(!ctx.row_glitch);
    assert_eq!(ctx.red_shift, -7);
    assert_eq!(ctx.blue_shift, -1);
}

#[test]
fn glitch_row_pushes_channels_apart() {
    let ctx = build_row_context(&settings(2077, 9), 3, true);
    assert!(ctx.row_glitch);
    assert_eq!(ctx.red_shift, -7 + 9);
    assert_eq!(ctx.blue_shift, -9);
    assert_eq!(ctx.red_shift, (random_shift(2077, 3, 9, RED_SHIFT_SALT) + 9).min(9));
    assert_eq!(ctx.blue_shift, (random_shift(2077, 3, 9, BLUE_SHIFT_SALT) - 9).max(-9));
}

#[test]
fn glitch_offsets_never_exceed_the_glitch_shift() {
    let ctx = build_row_context(&settings(1, 9), 0, true);
    assert!(ctx.red_shift <= 9 && ctx.blue_shift >= -9);
    for seed in 0..20u64 {
        for y in 0..50usize {
            for glitch in [false, true] {
                let ctx = build_row_context(&settings(seed, 14), y, glitch);
                assert!((-14..=14).contains(&ctx.red_shift));
                assert!((-14..=14).contains(&ctx.blue_shift));
            }
        }
    }
}

#[test]
fn negative_or_huge_glitch_shift_is_safe() {
    let ctx = build_row_context(&settings(3, -5), 2, true);
    assert_eq!((ctx.red_shift, ctx.blue_shift), (0, 0));
    let ctx = build_row_context(&settings(3, i32::MAX), 2, true);
    assert!(ctx.red_shift <= i32::MAX && ctx.blue_shift >= -i32::MAX);
}

#[test]
fn zero_glitch_shift_keeps_channels_aligned() {
    for y in 0..20 {
        let ctx = build_row_context(&settings(5, 0), y, true);
        assert_eq!(ctx.red_shift, 0);
        assert_eq!(ctx.blue_shift, 0);
    }
}

#[test]
fn glitch_tint_every_seventh_glitch_row() {
    assert!(build_row_context(&settings(1, 9), 14, true).glitch_tinted());
    assert!(build_row_context(&settings(1, 9), 0, true).glitch_tinted());
    assert!(!build_row_context(&settings(1, 9), 15, true).glitch_tinted());
    assert!(!build_row_context(&settings(1, 9), 14, false).glitch_tinted());
}

#[test]
fn shifted_channels_reads_each_channel_at_its_offset() {
    let mut data = Vec::new();
    for x in 0..5u8 {
        data.push(10 + x);
        data.push(20 + x);
        data.push(30 + x);
    }
    let frame = RgbFrame::from_raw(5, 1, data).unwrap();
    let mut ctx = build_row_context(&settings(2077, 0), 0, false);
    ctx.red_shift = 2;
    ctx.blue_shift = -1;
    assert_eq!(shifted_channels(&frame, 1, &ctx), [13, 21, 30]);
    assert_eq!(shifted_channels(&frame, 4, &ctx), [14, 24, 33]);
    assert_eq!(shifted_channels(&frame, 0, &ctx), [12, 20, 30]);
}

#[test]
fn scanline_phases_cycle_with_the_step() {
    let phases: Vec<ScanlinePhase> = (0..6).map(|y| scanline_cell(0, y, 3).phase).collect();
    assert_eq!(
        phases,
        vec![
            ScanlinePhase::Dark,
            ScanlinePhase::Bright,
            ScanlinePhase::Lifted,
            ScanlinePhase::Dark,
            ScanlinePhase::Bright,
            ScanlinePhase::Lifted,
        ]
    );
}

#[test]
fn scanline_step_one_is_always_dark() {
    for y in 0..10 {
        assert_eq!(scanline_cell(0, y, 1).phase, ScanlinePhase::Dark);
    }
}

#[test]
fn scanline_step_two_alternates() {
    assert_eq!(scanline_cell(0, 4, 2).phase, ScanlinePhase::Dark);
    assert_eq!(scanline_cell(0, 5, 2).phase, ScanlinePhase::Bright);
}

#[test]
fn aperture_lights_every_third_column() {
    let lit: Vec<bool> = (0..7).map(|x| scanline_cell(x, 0, 2).lit_column).collect();
    assert_eq!(lit, vec![true, false, false, true, false, false, true]);
}

#[test]
fn blur_neighbors_repeat_the_edges() {
    assert_eq!(clamped_neighbors(0, 5), (0, 1));
    assert_eq!(clamped_neighbors(2, 5), (1, 3));
    assert_eq!(clamped_neighbors(4, 5), (3, 4));
    assert_eq!(clamped_neighbors(0, 1), (0, 0));
}
