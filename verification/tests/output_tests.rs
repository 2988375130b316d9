use cymg::output::{animation_file_name, indexed_output_file_name, output_file_name};

#[test]
fn photo_jpg_becomes_photo_cyber_jpg() {
    assert_eq!(output_file_name("photo", "jpg"), "photo.cyber.jpg");
}

#[test]
fn output_name_keeps_inner_dots_and_unicode() {
    assert_eq!(output_file_name("my.holiday", "png"), "my.holiday.cyber.png");
    assert_eq!(output_file_name("写真", "webp"), "写真.cyber.webp");
}

#[test]
fn random_batch_names_are_numbered() {
    assert_eq!(indexed_output_file_name("photo", 0, "jpg"), "photo.cyber.0.jpg");
    assert_eq!(indexed_output_file_name("photo", 9, "jpg"), "photo.cyber.9.jpg");
    assert_eq!(indexed_output_file_name("a", 1234567890, "png"), "a.cyber.1234567890.png");
    assert_eq!(indexed_output_file_name("a", u32::MAX, "png"), "a.cyber.4294967295.png");
    assert_eq!(indexed_output_file_name("a", 10, "png"), "a.cyber.10.png");
}

#[test]
fn animation_name_is_gif() {
    assert_eq!(animation_file_name("photo"), "photo.cyber.gif");
}
