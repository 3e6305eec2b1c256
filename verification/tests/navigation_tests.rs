use win_canvas::navigation::{
    activation_target, next_window, prev_window, set_active_window, settle_active_window,
};

#[test]
fn next_wraps_around() {
    assert_eq!(next_window(Some(0), 3), Some(1));
    assert_eq!(next_window(Some(2), 3), Some(0));
    assert_eq!(next_window(None, 3), Some(1));
    assert_eq!(next_window(Some(0), 1), Some(0));
}

#[test]
fn prev_wraps_around() {
    assert_eq!(prev_window(Some(0), 3), Some(2));
    assert_eq!(prev_window(Some(2), 3), Some(1));
    assert_eq!(prev_window(None, 3), Some(2));
}

#[test]
fn moves_do_nothing_without_windows() {
    assert_eq!(next_window(Some(4), 0), None);
    assert_eq!(prev_window(None, 0), None);
}

#[test]
fn stale_selection_moves_as_the_arithmetic_says() {
    // A selection left over from a larger row.
    assert_eq!(next_window(Some(7), 3), Some(2));
    assert_eq!(prev_window(Some(7), 3), Some(6));
    assert_eq!(next_window(Some(usize::MAX), 3), Some(((usize::MAX as u128 + 1) % 3) as usize));
}

#[test]
fn prev_undoes_next_and_next_undoes_prev() {
    for count in 1..6usize {
        for i in 0..count {
            let n = next_window(Some(i), count);
            assert_eq!(prev_window(n, count), Some(i));
            let p = prev_window(Some(i), count);
            assert_eq!(next_window(p, count), Some(i));
        }
    }
}

#[test]
fn a_full_cycle_returns_to_the_start() {
    let count = 5;
    let mut active = Some(3);
    for _ in 0..count {
        active = next_window(active, count);
    }
    assert_eq!(active, Some(3));
}

#[test]
fn set_active_accepts_only_existing_windows() {
    assert_eq!(set_active_window(2, 3), Some(2));
    assert_eq!(set_active_window(3, 3), None);
    assert_eq!(set_active_window(0, 0), None);
}

#[test]
fn layout_keeps_a_valid_selection_and_centres_otherwise() {
    assert_eq!(settle_active_window(Some(1), 4), Some(1));
    assert_eq!(settle_active_window(Some(4), 4), Some(2));
    assert_eq!(settle_active_window(None, 5), Some(2));
    assert_eq!(settle_active_window(None, 1), Some(0));
    assert_eq!(settle_active_window(Some(9), 0), Some(9));
    assert_eq!(settle_active_window(None, 0), None);
}

#[test]
fn activation_follows_window_to_thumbnail() {
    let thumbs = vec![0usize, 1, 5];
    assert_eq!(activation_target(Some(1), &thumbs, 3), Some(1));
    assert_eq!(activation_target(Some(2), &thumbs, 3), None);
    assert_eq!(activation_target(Some(3), &thumbs, 3), None);
    assert_eq!(activation_target(None, &thumbs, 3), None);
}

#[test]
fn settling_twice_keeps_the_selection() {
    for count in 0..5usize {
        for prev in [None, Some(0), Some(2), Some(7)] {
            let once = settle_active_window(prev, count);
            assert_eq!(settle_active_window(once, count), once);
        }
    }
}
