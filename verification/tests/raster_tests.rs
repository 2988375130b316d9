use cymg::raster::RgbFrame;

#[test]
fn from_raw_needs_enough_samples() {
    assert!(RgbFrame::from_raw(2, 2, vec![0; 12]).is_some());
    assert!(RgbFrame::from_raw(2, 2, vec![0; 11]).is_none());
    assert!(RgbFrame::from_raw(2, 2, vec![0; 13]).is_some());
    assert!(RgbFrame::from_raw(0, 0, vec![]).is_some());
}

#[test]
fn frame_keeps_dimensions_and_samples() {
    let data: Vec<u8> = (0..18).collect();
    let frame = RgbFrame::from_raw(3, 2, data.clone()).unwrap();
    assert_eq!(frame.dimensions(), (3, 2));
    let copy = frame.clone();
    assert_eq!(copy.dimensions(), (3, 2));
    assert_eq!(frame.into_raw(), data);
    assert_eq!(copy.into_raw(), data);
}
