use screen_capture_kit::configuration::{Color, StreamConfiguration, TimeInterval};
use screen_capture_kit::geometry::Rect;

#[test]
fn new_configuration_is_neutral() {
    let c = StreamConfiguration::new();
    assert_eq!(c.get_width(), 0);
    assert_eq!(c.get_height(), 0);
    assert_eq!(c.get_minimum_frame_interval(), TimeInterval::new(0, 0));
    assert_eq!(c.get_pixel_format(), 0);
    assert!(!c.get_scales_to_fit());
    assert!(!c.get_show_cursor());
    assert_eq!(c.get_background_color(), Color::new(0, 0, 0, 0));
    assert_eq!(c.get_source_rect(), Rect::zero());
    assert_eq!(c.get_destination_rect(), Rect::zero());
    assert_eq!(c.get_queue_depth(), 0);
    assert_eq!(c.get_color_matrix(), "");
    assert_eq!(c.get_color_space_name(), "");
    assert!(!c.get_captures_audio());
    assert_eq!(c.get_sample_rate(), 0);
    assert_eq!(c.get_channel_count(), 0);
    assert!(!c.get_excludes_current_process_audio());
}

#[test]
fn each_setter_updates_only_its_parameter() {
    let mut c = StreamConfiguration::new();
    c.set_width(1920);
    c.set_height(1080);
    assert_eq!(c.get_width(), 1920);
    assert_eq!(c.get_height(), 1080);
    c.set_minimum_frame_interval(TimeInterval::new(1, 60));
    assert_eq!(c.get_minimum_frame_interval(), TimeInterval::new(1, 60));
    c.set_pixel_format(0x42475241);
    assert_eq!(c.get_pixel_format(), 0x42475241);
    c.set_scales_to_fit(true);
    assert!(c.get_scales_to_fit());
    c.set_show_cursor(true);
    assert!(c.get_show_cursor());
    c.set_background_color(Color::new(10, 20, 30, 255));
    assert_eq!(c.get_background_color(), Color::new(10, 20, 30, 255));
    c.set_source_rect(Rect::new(0, 0, 800, 600));
    assert_eq!(c.get_source_rect(), Rect::new(0, 0, 800, 600));
    c.set_destination_rect(Rect::new(10, 10, 400, 300));
    assert_eq!(c.get_destination_rect(), Rect::new(10, 10, 400, 300));
    c.set_queue_depth(8);
    assert_eq!(c.get_queue_depth(), 8);
    c.set_color_matrix("ITU_R_709_2".to_string());
    assert_eq!(c.get_color_matrix(), "ITU_R_709_2");
    c.set_color_space_name("sRGB".to_string());
    assert_eq!(c.get_color_space_name(), "sRGB");
    c.set_captures_audio(true);
    assert!(c.get_captures_audio());
    c.set_sample_rate(48000);
    assert_eq!(c.get_sample_rate(), 48000);
    c.set_channel_count(2);
    assert_eq!(c.get_channel_count(), 2);
    c.set_excludes_current_process_audio(true);
    assert!(c.get_excludes_current_process_audio());
    // Earlier parameters were not disturbed by later setters.
    assert_eq!(c.get_width(), 1920);
    assert_eq!(c.get_height(), 1080);
    assert_eq!(c.get_pixel_format(), 0x42475241);
    assert_eq!(c.get_color_matrix(), "ITU_R_709_2");
}
