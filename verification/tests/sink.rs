use egui::TextureOptions;
use egui_cameras::{FrameSink, Presentation, RgbImage};

fn image(level: u8) -> RgbImage {
    RgbImage { width: 1, height: 1, data: vec![level, level, level] }
}

fn shown(level: u8, options: TextureOptions) -> Option<Presentation> {
    Some(Presentation { image: image(level), options })
}

#[test]
fn new_sink_has_nothing_to_take() {
    let mut sink = FrameSink::new();
    assert!(!sink.has_pending());
    assert_eq!(sink.try_take(TextureOptions::NEAREST), None);
}

#[test]
fn published_image_is_taken_once() {
    let mut sink = FrameSink::new();
    sink.publish(image(1));
    assert!(sink.has_pending());
    assert_eq!(sink.try_take(TextureOptions::LINEAR), shown(1, TextureOptions::LINEAR));
    assert!(!sink.has_pending());
    assert_eq!(sink.try_take(TextureOptions::LINEAR), None);
}

#[test]
fn second_image_replaces_the_first() {
    let mut sink = FrameSink::new();
    sink.publish(image(10));
    sink.publish(image(20));
    assert_eq!(sink.try_take(TextureOptions::NEAREST), shown(20, TextureOptions::NEAREST));
    assert_eq!(sink.try_take(TextureOptions::NEAREST), None);
}

#[test]
fn image_is_handed_over_under_the_options_of_the_take() {
    let mut sink = FrameSink::new();
    sink.publish(image(5));
    let handed = sink.try_take(TextureOptions::LINEAR).unwrap();
    assert_eq!(handed.options, TextureOptions::LINEAR);
    assert_ne!(handed.options, TextureOptions::NEAREST);
    assert_eq!(handed.image, image(5));
}

#[test]
fn sink_can_be_filled_again_after_a_take() {
    let mut sink = FrameSink::new();
    sink.publish(image(1));
    assert_eq!(sink.try_take(TextureOptions::NEAREST), shown(1, TextureOptions::NEAREST));
    sink.publish(image(2));
    assert_eq!(sink.try_take(TextureOptions::NEAREST), shown(2, TextureOptions::NEAREST));
}
