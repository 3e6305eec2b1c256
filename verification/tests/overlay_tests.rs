use win_canvas::overlay::{
    fade_alpha, OverlayState, ToggleCommand, ANIM_STEPS, TARGET_ALPHA, TEXT_ANIM_STEPS,
};

fn ease_out(t: f64) -> f64 {
    1.0 - (1.0 - t).powi(3)
}

#[test]
fn fade_alpha_matches_the_floating_point_ease_out() {
    for step in 0..=ANIM_STEPS {
        let t = step as f64 / ANIM_STEPS as f64;
        let expected = (TARGET_ALPHA as f64 * ease_out(t)) as u8;
        assert_eq!(fade_alpha(step), expected, "step {}", step);
    }
}

#[test]
fn fade_alpha_values() {
    assert_eq!(fade_alpha(0), 0);
    assert_eq!(fade_alpha(1), 69);
    assert_eq!(fade_alpha(5), 223);
    assert_eq!(fade_alpha(10), 255);
}

#[test]
fn new_state_is_hidden_and_idle() {
    let s = OverlayState::new();
    assert!(!s.is_visible());
    assert!(!s.anim_active());
    assert!(!s.text_anim_active());
    assert_eq!(s.current_alpha(), 0);
    assert_eq!(s.click_target(), None);
    assert_eq!(s.toggle_command(), ToggleCommand::Show);
}

#[test]
fn toggle_alternates() {
    let mut s = OverlayState::new();
    s.begin_show();
    s.start_fade_in();
    assert_eq!(s.toggle_command(), ToggleCommand::Hide);
    s.hide_overlay();
    assert_eq!(s.toggle_command(), ToggleCommand::Show);
    assert!(!s.anim_active());
    assert!(!s.text_anim_active());
}

#[test]
fn fade_in_runs_for_exactly_ten_ticks() {
    let mut s = OverlayState::new();
    s.begin_show();
    s.start_fade_in();
    for k in 1..ANIM_STEPS {
        assert!(!s.tick_animation());
        assert!(s.anim_active());
        assert_eq!(s.anim_step(), k);
        assert_eq!(s.current_alpha(), fade_alpha(k));
    }
    assert!(s.tick_animation());
    assert!(!s.anim_active());
    assert_eq!(s.anim_step(), ANIM_STEPS);
    assert_eq!(s.current_alpha(), 255);
    assert!(s.text_anim_active());
    assert_eq!(s.text_anim_step(), 0);
    assert_eq!(s.text_alpha(), 0);
}

#[test]
fn text_fade_follows_and_stops() {
    let mut s = OverlayState::new();
    s.begin_show();
    s.start_fade_in();
    while !s.tick_animation() {}
    for k in 1..TEXT_ANIM_STEPS {
        assert!(!s.tick_text_animation());
        assert_eq!(s.text_anim_step(), k);
    }
    assert!(s.tick_text_animation());
    assert!(!s.text_anim_active());
    assert_eq!(s.text_alpha(), 255);
}

#[test]
fn a_stray_tick_after_the_fade_restarts_the_text_fade() {
    let mut s = OverlayState::new();
    s.start_fade_in();
    while !s.tick_animation() {}
    s.tick_text_animation();
    s.tick_text_animation();
    assert!(s.tick_animation());
    assert_eq!(s.anim_step(), ANIM_STEPS);
    assert_eq!(s.text_anim_step(), 0);
    assert!(s.text_anim_active());
}

#[test]
fn showing_again_resets_opacity() {
    let mut s = OverlayState::new();
    s.begin_show();
    s.start_fade_in();
    while !s.tick_animation() {}
    s.hide_overlay();
    s.begin_show();
    assert!(s.is_visible());
    assert_eq!(s.current_alpha(), 0);
}

#[test]
fn click_is_press_then_release() {
    let mut s = OverlayState::new();
    s.press(Some(2));
    assert_eq!(s.click_target(), Some(2));
    assert_eq!(s.release(), Some(2));
    assert_eq!(s.click_target(), None);
    assert_eq!(s.release(), None);
}

#[test]
fn a_drag_cancels_the_click() {
    let mut s = OverlayState::new();
    s.press(Some(1));
    s.note_drag();
    assert_eq!(s.release(), None);
    s.press(None);
    assert_eq!(s.release(), None);
}

#[test]
fn fade_alpha_never_decreases() {
    for i in 0..=ANIM_STEPS {
        for j in i..=ANIM_STEPS {
            assert!(fade_alpha(i) <= fade_alpha(j));
        }
    }
}
