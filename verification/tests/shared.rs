use starcolorkeyboard::outputs::{get_size_from_display, output_position, record_logical_size, KEYBOARD_HEIGHT};
use starcolorkeyboard::shm::{buffer_layout, can_lay_out_buffer};

#[test]
fn keyboard_takes_display_width() {
    let sizes = vec![(1920, 1080), (2560, 1440)];
    assert_eq!(get_size_from_display(&sizes, 0), (1920, 300));
    assert_eq!(get_size_from_display(&sizes, 1), (2560, KEYBOARD_HEIGHT));
}

#[test]
fn output_position_finds_first() {
    let ids = vec![7, 3, 7];
    assert_eq!(output_position(&ids, 7), Some(0));
    assert_eq!(output_position(&ids, 3), Some(1));
    assert_eq!(output_position(&ids, 9), None);
}

#[test]
fn logical_sizes_are_appended_then_replaced() {
    let outputs = vec![10, 11];
    let mut sizes = Vec::new();
    assert!(!record_logical_size(&mut sizes, &outputs, 11, (800, 600)));
    assert_eq!(sizes, vec![(800, 600)]);
    assert!(!record_logical_size(&mut sizes, &outputs, 10, (1920, 1080)));
    assert_eq!(sizes, vec![(800, 600), (1920, 1080)]);
    assert!(!record_logical_size(&mut sizes, &outputs, 11, (1024, 768)));
    assert_eq!(sizes, vec![(800, 600), (1024, 768)]);
    assert!(record_logical_size(&mut sizes, &outputs, 10, (1280, 720)));
    assert_eq!(sizes, vec![(1280, 720), (1024, 768)]);
    assert!(!record_logical_size(&mut sizes, &outputs, 99, (1, 1)));
    assert_eq!(sizes, vec![(1280, 720), (1024, 768)]);
}

#[test]
fn shm_buffer_layout() {
    assert!(can_lay_out_buffer(1920, 300));
    assert_eq!(buffer_layout(1920, 300), (2_304_000, 7_680));
    assert_eq!(buffer_layout(0, 300), (0, 0));
    assert!(!can_lay_out_buffer(100_000, 100_000));
    assert!(!can_lay_out_buffer(30_000, 30_000));
    assert!(!can_lay_out_buffer(i32::MAX, 0));
    assert!(can_lay_out_buffer(20_000, 20_000));
    assert_eq!(buffer_layout(20_000, 20_000), (1_600_000_000, 80_000));
}
