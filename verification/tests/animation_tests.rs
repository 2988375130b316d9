use cymg::animation::{
    flash_schedule, gif_target_size, resize_for_gif, rgb_to_rgba, FrameShow, FLASH_MS,
    KEYFRAME_HOLD_MS, RETURN_MS,
};
use cymg::raster::RgbFrame;

fn entry(frame: usize, duration_ms: u32) -> FrameShow {
    FrameShow { frame, duration_ms }
}

#[test]
fn ten_frame_animation_follows_the_readme() {
    let shows = flash_schedule(10).unwrap();
    let expected = vec![
        entry(0, KEYFRAME_HOLD_MS),
        entry(1, FLASH_MS),
        entry(0, RETURN_MS),
        entry(2, FLASH_MS),
        entry(0, RETURN_MS),
        entry(3, FLASH_MS),
        entry(0, RETURN_MS),
        entry(4, KEYFRAME_HOLD_MS),
        entry(5, FLASH_MS),
        entry(4, RETURN_MS),
        entry(6, FLASH_MS),
        entry(4, RETURN_MS),
        entry(7, FLASH_MS),
        entry(4, RETURN_MS),
        entry(8, FLASH_MS),
        entry(4, RETURN_MS),
        entry(9, FLASH_MS),
    ];
    assert_eq!(shows, expected);
    assert_eq!((KEYFRAME_HOLD_MS, FLASH_MS, RETURN_MS), (1200, 70, 150));
}

#[test]
fn short_animations_return_to_the_first_keyframe() {
    assert_eq!(flash_schedule(1).unwrap(), vec![entry(0, KEYFRAME_HOLD_MS)]);
    assert_eq!(
        flash_schedule(3).unwrap(),
        vec![entry(0, KEYFRAME_HOLD_MS), entry(1, FLASH_MS), entry(0, RETURN_MS), entry(2, FLASH_MS)]
    );
    assert_eq!(flash_schedule(4).unwrap().len(), 6);
}

#[test]
fn five_frames_have_both_keyframes() {
    let shows = flash_schedule(5).unwrap();
    assert_eq!(shows.len(), 8);
    assert_eq!(shows[7], entry(4, KEYFRAME_HOLD_MS));
}

#[test]
fn no_frames_no_animation() {
    assert!(flash_schedule(0).is_none());
}

#[test]
fn every_frame_appears_and_indices_stay_in_range() {
    for n in 1..30usize {
        let shows = flash_schedule(n).unwrap();
        assert!(shows.iter().all(|s| s.frame < n));
        for i in 0..n {
            assert!(shows.iter().any(|s| s.frame == i && s.duration_ms != RETURN_MS));
        }
    }
}

#[test]
fn gif_sizes_fit_the_box() {
    assert_eq!(gif_target_size(640, 480), (640, 480));
    assert_eq!(gif_target_size(800, 600), (800, 600));
    assert_eq!(gif_target_size(1600, 1200), (800, 600));
    assert_eq!(gif_target_size(1920, 1080), (800, 450));
    assert_eq!(gif_target_size(1080, 1920), (338, 600));
    assert_eq!(gif_target_size(1000, 100), (800, 80));
    assert_eq!(gif_target_size(5000, 1), (800, 1));
    assert_eq!(gif_target_size(0, 1000), (1, 600));
    assert_eq!(gif_target_size(u32::MAX, u32::MAX), (600, 600));
}

#[test]
fn resize_for_gif_keeps_small_frames() {
    let data: Vec<u8> = (0..12).collect();
    let frame = RgbFrame::from_raw(2, 2, data.clone()).unwrap();
    let out = resize_for_gif(&frame);
    assert_eq!(out.dimensions(), (2, 2));
    assert_eq!(out.into_raw(), data);
}

#[test]
fn resize_for_gif_shrinks_large_frames() {
    let frame = RgbFrame::from_raw(1000, 10, vec![200; 30_000]).unwrap();
    let out = resize_for_gif(&frame);
    assert_eq!(out.dimensions(), (800, 8));
    let raw = out.into_raw();
    assert_eq!(raw.len(), 800 * 8 * 3);
}

#[test]
fn rgba_adds_opaque_alpha() {
    let frame = RgbFrame::from_raw(2, 1, vec![1, 2, 3, 4, 5, 6]).unwrap();
    assert_eq!(rgb_to_rgba(&frame), vec![1, 2, 3, 255, 4, 5, 6, 255]);
    let empty = RgbFrame::from_raw(0, 3, vec![]).unwrap();
    assert!(rgb_to_rgba(&empty).is_empty());
}
