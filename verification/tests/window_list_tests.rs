use win_canvas::window_list::{
    admits_window, build_sources, pick_icon, read_title, title_buffer_len, wants_thumbnail,
    WindowInfo, WindowProbe,
};

fn probe() -> WindowProbe {
    WindowProbe { visible: true, style: 0x10CF_0000, ex_style: 0x0000_0100, title_len: 7, cloaked: Some(0) }
}

#[test]
fn an_ordinary_window_is_admitted() {
    assert!(admits_window(&probe()));
    assert!(admits_window(&WindowProbe { cloaked: None, ..probe() }));
}

#[test]
fn each_filter_rejects() {
    assert!(!admits_window(&WindowProbe { visible: false, ..probe() }));
    assert!(!admits_window(&WindowProbe { style: 0x4000_0000, ..probe() }));
    assert!(!admits_window(&WindowProbe { ex_style: 0x80, ..probe() }));
    assert!(!admits_window(&WindowProbe { ex_style: 0x0800_0000, ..probe() }));
    assert!(!admits_window(&WindowProbe { title_len: 0, ..probe() }));
    assert!(!admits_window(&WindowProbe { cloaked: Some(2), ..probe() }));
}

#[test]
fn negative_style_words_are_read_as_bit_patterns() {
    // WS_POPUP (0x80000000) makes the style word negative as an i32.
    assert!(admits_window(&WindowProbe { style: 0x8000_0000u32 as i32, ..probe() }));
    assert!(!admits_window(&WindowProbe { style: 0xC000_0000u32 as i32, ..probe() }));
}

#[test]
fn title_buffer_has_room_for_the_null() {
    assert_eq!(title_buffer_len(7), 8);
}

#[test]
fn titles_are_decoded_and_blank_ones_dropped() {
    let buf: Vec<u16> = "Notepad\0".encode_utf16().collect();
    assert_eq!(read_title(&buf, 7), Some("Notepad".to_string()));
    assert_eq!(read_title(&buf, 3), Some("Not".to_string()));
    let blank: Vec<u16> = " \u{3000}\t\0".encode_utf16().collect();
    assert_eq!(read_title(&blank, 3), None);
    assert_eq!(read_title(&buf, 0), None);
    let broken = vec![0xD800u16, 0x41];
    assert_eq!(read_title(&broken, 2), Some("\u{FFFD}A".to_string()));
}

#[test]
fn icon_falls_back_to_the_class_icon() {
    assert_eq!(pick_icon(0x1234, 0x99), 0x1234);
    assert_eq!(pick_icon(0, 0x99), 0x99);
    assert_eq!(pick_icon(0, 0), 0);
}

fn info(hwnd: isize, title: &str) -> WindowInfo {
    WindowInfo { hwnd, title: title.to_string(), icon: hwnd * 10 }
}

#[test]
fn sources_get_consecutive_thumbnails() {
    let windows = vec![info(1, "a"), info(2, "canvas"), info(3, "b"), info(4, "c"), info(5, "d")];
    assert!(wants_thumbnail(&windows[0], 2));
    assert!(!wants_thumbnail(&windows[1], 2));
    let registered = vec![Some((800, 600)), None, None, Some((1024, 768)), Some((0, 0))];
    let sources = build_sources(&windows, 2, &registered);
    assert_eq!(sources.len(), 3);
    let summary: Vec<(usize, i32, i32, String, isize)> = sources
        .iter()
        .map(|s| (s.thumb_index, s.width, s.height, s.title.clone(), s.icon))
        .collect();
    assert_eq!(
        summary,
        vec![
            (0, 800, 600, "a".to_string(), 10),
            (1, 1024, 768, "c".to_string(), 40),
            (2, 0, 0, "d".to_string(), 50),
        ]
    );
}

#[test]
fn the_canvas_window_is_never_a_source() {
    let windows = vec![info(9, "canvas")];
    let sources = build_sources(&windows, 9, &vec![Some((10, 10))]);
    assert!(sources.is_empty());
}
