use capsglow::events::{
    auto_hide_tick, caps_lock_on, plan_redraw, poll_caps_lock, AutoHideTick, CapsLockPoll,
    IndicatorDrawing, RedrawPlan,
};

#[test]
fn caps_lock_state_is_the_low_bit() {
    assert!(!caps_lock_on(0));
    assert!(caps_lock_on(1));
    // Key held down and toggled on: high bit and low bit set.
    assert!(caps_lock_on(-127));
    // Key held down, toggled off.
    assert!(!caps_lock_on(-128));
    assert!(!caps_lock_on(2));
    assert!(caps_lock_on(i16::MAX));
    assert!(!caps_lock_on(i16::MIN));
}

#[test]
fn poll_redraws_only_on_change() {
    assert_eq!(poll_caps_lock(false, 1), CapsLockPoll { shown: true, redraw: true });
    assert_eq!(poll_caps_lock(true, 1), CapsLockPoll { shown: true, redraw: false });
    assert_eq!(poll_caps_lock(true, 0), CapsLockPoll { shown: false, redraw: true });
    assert_eq!(poll_caps_lock(false, -128), CapsLockPoll { shown: false, redraw: false });
}

#[test]
fn auto_hide_counts_then_hides() {
    assert_eq!(auto_hide_tick(0, false), AutoHideTick { elapsed: 1, hide: false });
    assert_eq!(auto_hide_tick(1, false), AutoHideTick { elapsed: 0, hide: true });
    assert_eq!(auto_hide_tick(5, false), AutoHideTick { elapsed: 0, hide: true });
    assert_eq!(auto_hide_tick(1, true), AutoHideTick { elapsed: 2, hide: false });
    assert_eq!(auto_hide_tick(0, true), AutoHideTick { elapsed: 1, hide: false });
    assert_eq!(auto_hide_tick(u64::MAX, true), AutoHideTick { elapsed: 0, hide: false });
}

#[test]
fn auto_hide_never_hides_twice_in_a_row() {
    let mut elapsed = 0;
    let mut last_hid = false;
    for minute in 0..20u32 {
        let shown = minute % 7 == 3;
        let t = auto_hide_tick(elapsed, shown);
        assert!(!(t.hide && last_hid));
        assert!(!(t.hide && shown));
        last_hid = t.hide;
        elapsed = t.elapsed;
    }
}

#[test]
fn fresh_count_hides_on_second_tick() {
    let first = auto_hide_tick(0, false);
    assert!(!first.hide);
    assert!(auto_hide_tick(first.elapsed, false).hide);
}

#[test]
fn redraw_without_window_creates_it() {
    assert_eq!(plan_redraw(None, true, true), RedrawPlan::CreateWindow);
    assert_eq!(plan_redraw(None, false, false), RedrawPlan::CreateWindow);
}

#[test]
fn redraw_draws_indicator_only_when_shown() {
    assert_eq!(plan_redraw(Some((40, 30)), false, true), RedrawPlan::Draw { indicator: None });
    assert_eq!(
        plan_redraw(Some((40, 30)), true, true),
        RedrawPlan::Draw { indicator: Some(IndicatorDrawing::CustomIcon { extent: 30 }) }
    );
    assert_eq!(
        plan_redraw(Some((24, 48)), true, false),
        RedrawPlan::Draw { indicator: Some(IndicatorDrawing::Font { extent: 24 }) }
    );
}
