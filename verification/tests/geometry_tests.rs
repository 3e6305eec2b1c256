use win_canvas::geometry::{
    dib_buffer_len, dib_row_pitch, label_layout, plan_thumbnail_updates, rect_on_screen,
    thumbnail_update_flags, zoom_indicator_rect, LabelLayout, Rect, ThumbnailUpdate,
};

fn rect(left: i32, top: i32, right: i32, bottom: i32) -> Rect {
    Rect { left, top, right, bottom }
}

#[test]
fn on_screen_tests() {
    assert!(rect_on_screen(rect(10, 10, 100, 100), 1920, 1080));
    assert!(rect_on_screen(rect(-50, -50, 1, 1), 1920, 1080));
    assert!(!rect_on_screen(rect(-50, 10, 0, 100), 1920, 1080));
    assert!(!rect_on_screen(rect(1920, 10, 2000, 100), 1920, 1080));
    assert!(!rect_on_screen(rect(10, 1080, 100, 1200), 1920, 1080));
}

#[test]
fn plan_shows_hides_and_skips() {
    let targets = vec![
        (0usize, rect(0, 0, 400, 225)),
        (1, rect(-900, 0, -500, 225)),
        (7, rect(0, 0, 10, 10)),
        (2, rect(1900, 1000, 2300, 1200)),
    ];
    let plan = plan_thumbnail_updates(&targets, 3, 1920, 1080);
    assert_eq!(
        plan,
        vec![
            ThumbnailUpdate::Show { thumb: 0, rect: rect(0, 0, 400, 225) },
            ThumbnailUpdate::Hide { thumb: 1 },
            ThumbnailUpdate::Show { thumb: 2, rect: rect(1900, 1000, 2300, 1200) },
        ]
    );
    assert!(plan_thumbnail_updates(&Vec::new(), 3, 1920, 1080).is_empty());
}

#[test]
fn label_with_icon() {
    let l = label_layout(rect(100, 50, 500, 275), 120, true);
    assert_eq!(
        l,
        LabelLayout {
            start_x: 100 + (400 - 146) / 2,
            pill_x: 227 - 14,
            pill_y: 305,
            pill_w: 146 + 28,
            pill_h: 32,
            icon_y: 311,
            text_x: 227 + 26,
            text_box_w: 500 - 253,
        }
    );
}

#[test]
fn label_without_icon() {
    let l = label_layout(rect(0, 0, 400, 200), 100, false);
    assert_eq!(l.start_x, 150);
    assert_eq!(l.text_x, 150);
    assert_eq!(l.pill_x, 136);
    assert_eq!(l.pill_w, 128);
    assert_eq!(l.text_box_w, 250);
}

#[test]
fn label_wider_than_thumbnail_rounds_toward_zero_and_keeps_a_pixel() {
    // (100 - 307) / 2 rounds toward zero to -103.
    let l = label_layout(rect(0, 0, 100, 50), 281, true);
    assert_eq!(l.start_x, -103);
    assert_eq!(l.text_x, -77);
    let narrow = label_layout(rect(0, 0, 10, 50), 5000, false);
    assert_eq!(narrow.start_x, -2495);
    assert_eq!(narrow.text_box_w, 2505);
}

#[test]
fn label_text_box_is_at_least_one_pixel() {
    let l = label_layout(rect(0, 0, 10, 50), 5000, false);
    assert_eq!(l.start_x, (10 - 5000) / 2);
    assert_eq!(l.text_box_w, 10 - l.text_x);
    let l = label_layout(rect(0, 0, 10, 50), 30, true);
    assert_eq!(l.text_x, (10 - 56) / 2 + 26);
    assert_eq!(l.text_box_w, 10 - l.text_x);
    let l = label_layout(rect(0, 0, 0, 50), 0, true);
    assert_eq!(l.text_x, -13 + 26);
    assert_eq!(l.text_box_w, 1);
}

#[test]
fn zoom_indicator_in_the_corner() {
    assert_eq!(zoom_indicator_rect(1920, 1080), rect(1800, 1040, 1910, 1070));
}

#[test]
fn dib_sizes() {
    assert_eq!(dib_buffer_len(1920, 1080), 1920 * 1080 * 4);
    assert_eq!(dib_buffer_len(0, 1080), 0);
    assert_eq!(dib_row_pitch(1920), 7680);
}

#[test]
fn thumbnail_flags() {
    assert_eq!(thumbnail_update_flags(false), 0x0D);
    assert_eq!(thumbnail_update_flags(true), 0x1D);
}

#[test]
fn pill_is_centred_under_the_thumbnail() {
    for &(left, right, tw, icon) in &[(0, 400, 120, true), (10, 411, 33, false), (0, 50, 300, true)] {
        let r = rect(left, 0, right, 100);
        let l = label_layout(r, tw, icon);
        let gap_left = l.pill_x - r.left;
        let gap_right = r.right - (l.pill_x + l.pill_w);
        assert!((gap_right - gap_left).abs() <= 1);
        assert_eq!(l.start_x - l.pill_x, 14);
    }
}

#[test]
fn every_planned_update_names_a_registered_thumbnail() {
    let targets: Vec<(usize, Rect)> =
        (0..8).map(|i| (i * 2, rect(i as i32 * 300 - 600, 0, i as i32 * 300 - 200, 200))).collect();
    for update in plan_thumbnail_updates(&targets, 9, 1920, 1080) {
        match update {
            ThumbnailUpdate::Show { thumb, rect } => {
                assert!(thumb < 9);
                assert!(rect_on_screen(rect, 1920, 1080));
            }
            ThumbnailUpdate::Hide { thumb } => assert!(thumb < 9),
        }
    }
}
