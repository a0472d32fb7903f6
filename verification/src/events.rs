use vstd::prelude::*;

verus! {

/// The events that the application sends to its own event loop.
#[derive(Clone, Copy, PartialEq, Eq, Structural, Debug, Hash)]
pub enum AppEvent {
    HideWindow,
    Exit,
    MoveWindow,
    Restart,
    ShowAboutDialog,
    RedrawRequested,
}

/// Whether a key state, as the system reports it for the caps-lock key, says that caps
/// lock is on: the toggle state is the lowest bit, so the state is odd.
pub open spec fn spec_caps_lock_on(key_state: i16) -> bool {
    key_state % 2 != 0
}

/// Whether a key state, as the system reports it for the caps-lock key, says that caps
/// lock is on.
pub fn caps_lock_on(key_state: i16) -> (r: bool)
    ensures
        r == spec_caps_lock_on(key_state),
{
    assert(((key_state & 0x0001i16) != 0) == (key_state % 2 != 0)) by (bit_vector);
    (key_state & 0x0001) != 0
}

/// The outcome of one poll of the caps-lock key.
#[derive(Clone, Copy, PartialEq, Eq, Structural, Debug)]
pub struct CapsLockPoll {
    /// Whether the indicator is to be shown from now on.
    pub shown: bool,
    /// Whether the window must be redrawn.
    pub redraw: bool,
}

/// One poll of the caps-lock key: the indicator follows the caps-lock state, and the
/// window is redrawn exactly when that state changed since the last poll.
pub fn poll_caps_lock(last_shown: bool, key_state: i16) -> (r: CapsLockPoll)
    ensures
        r.shown == spec_caps_lock_on(key_state),
        r.redraw == (r.shown != last_shown),
{
    let current = caps_lock_on(key_state);
    if current != last_shown {
        CapsLockPoll { shown: current, redraw: true }
    } else {
        CapsLockPoll { shown: last_shown, redraw: false }
    }
}

/// The outcome of one tick of the timer that hides the idle window.
#[derive(Clone, Copy, PartialEq, Eq, Structural, Debug)]
pub struct AutoHideTick {
    /// The tick count from now on.
    pub elapsed: u64,
    /// Whether the window is to be hidden.
    pub hide: bool,
}

/// One tick of the hide timer: the count goes up by one (wrapping); once a tick finds it at
/// one or more while the indicator is not shown, the window is hidden and the count starts
/// again from zero.
pub open spec fn spec_auto_hide_tick(elapsed: u64, indicator_shown: bool) -> AutoHideTick {
    if elapsed >= 1 && !indicator_shown {
        AutoHideTick { elapsed: 0, hide: true }
    } else {
        AutoHideTick {
            elapsed: if elapsed == u64::MAX {
                0
            } else {
                (elapsed + 1) as u64
            },
            hide: false,
        }
    }
}

/// One tick of the hide timer.
pub fn auto_hide_tick(elapsed: u64, indicator_shown: bool) -> (r: AutoHideTick)
    ensures
        r == spec_auto_hide_tick(elapsed, indicator_shown),
{
    let previous = elapsed;
    let counted = elapsed.wrapping_add(1);
    if previous >= 1 && !indicator_shown {
        AutoHideTick { elapsed: 0, hide: true }
    } else {
        AutoHideTick { elapsed: counted, hide: false }
    }
}

/// The window is never hidden while the indicator is shown, and never on two ticks in a
/// row: after a tick that hides it, the next tick does not.
pub proof fn lemma_auto_hide_spaced(elapsed: u64, first_shown: bool, second_shown: bool)
    ensures
        first_shown ==> !spec_auto_hide_tick(elapsed, first_shown).hide,
        spec_auto_hide_tick(elapsed, first_shown).hide ==> !spec_auto_hide_tick(
            spec_auto_hide_tick(elapsed, first_shown).elapsed,
            second_shown,
        ).hide,
{
}

/// From a fresh count, with the indicator hidden, the window is hidden on the second tick
/// and not on the first.
pub proof fn lemma_auto_hide_second_tick()
    ensures
        !spec_auto_hide_tick(0, false).hide,
        spec_auto_hide_tick(spec_auto_hide_tick(0, false).elapsed, false).hide,
{
}

/// What the indicator window shows.
#[derive(Clone, Copy, PartialEq, Eq, Structural, Debug)]
pub enum IndicatorDrawing {
    /// The custom icon, themed for a square of side `extent`.
    CustomIcon { extent: u32 },
    /// The built-in glyph, in the font colour of the theme for a square of side `extent`.
    Font { extent: u32 },
}

/// What a redraw request does.
#[derive(Clone, Copy, PartialEq, Eq, Structural, Debug)]
pub enum RedrawPlan {
    /// There is no window yet: create it.
    CreateWindow,
    /// Show the window, clear it, draw the indicator if there is one, and present it.
    Draw { indicator: Option<IndicatorDrawing> },
}

/// What a redraw request does, given the window's inner size (if there is a window),
/// whether the indicator is to be shown, and whether a custom icon was found.
pub open spec fn spec_plan_redraw(
    window_size: Option<(u32, u32)>,
    show_indicator: bool,
    has_custom_icon: bool,
) -> RedrawPlan {
    match window_size {
        None => RedrawPlan::CreateWindow,
        Some((width, height)) => {
            let extent = if width <= height {
                width
            } else {
                height
            };
            RedrawPlan::Draw {
                indicator: if !show_indicator {
                    None
                } else if has_custom_icon {
                    Some(IndicatorDrawing::CustomIcon { extent })
                } else {
                    Some(IndicatorDrawing::Font { extent })
                },
            }
        },
    }
}

/// What a redraw request does.
pub fn plan_redraw(window_size: Option<(u32, u32)>, show_indicator: bool, has_custom_icon: bool) -> (r:
    RedrawPlan)
    ensures
        r == spec_plan_redraw(window_size, show_indicator, has_custom_icon),
{
    match window_size {
        None => RedrawPlan::CreateWindow,
        Some((window_width, window_height)) => {
            if show_indicator {
                let extent = if window_width <= window_height {
                    window_width
                } else {
                    window_height
                };
                if has_custom_icon {
                    RedrawPlan::Draw { indicator: Some(IndicatorDrawing::CustomIcon { extent }) }
                } else {
                    RedrawPlan::Draw { indicator: Some(IndicatorDrawing::Font { extent }) }
                }
            } else {
                RedrawPlan::Draw { indicator: None }
            }
        },
    }
}

/// A tick adds one minute while the window may not be hidden yet, and hides it, starting the
/// count again, as soon as one full idle minute has been counted and the indicator is off.
pub proof fn lemma_auto_hide_tick_behaviour(elapsed: u64, indicator_shown: bool)
    ensures
        !indicator_shown && elapsed >= 1 ==> spec_auto_hide_tick(elapsed, indicator_shown).hide
            && spec_auto_hide_tick(elapsed, indicator_shown).elapsed == 0,
        indicator_shown || elapsed == 0 ==> !spec_auto_hide_tick(elapsed, indicator_shown).hide,
        (indicator_shown || elapsed == 0) && elapsed < u64::MAX ==> spec_auto_hide_tick(
            elapsed,
            indicator_shown,
        ).elapsed == elapsed + 1,
        indicator_shown && elapsed == u64::MAX ==> spec_auto_hide_tick(
            elapsed,
            indicator_shown,
        ).elapsed == 0,
{
}

/// A redraw with no window creates it; with a window it never draws the indicator while the
/// indicator is off, and while it is on it draws the custom icon if there is one, else the
/// glyph, sized to the shorter side of the window.
pub proof fn lemma_redraw_behaviour(
    window_size: Option<(u32, u32)>,
    show_indicator: bool,
    has_custom_icon: bool,
)
    ensures
        window_size is None ==> spec_plan_redraw(window_size, show_indicator, has_custom_icon)
            == RedrawPlan::CreateWindow,
        window_size is Some && !show_indicator ==> spec_plan_redraw(
            window_size,
            show_indicator,
            has_custom_icon,
        ) == (RedrawPlan::Draw { indicator: None }),
        ({
            let (w, h) = window_size->0;
            let extent = if w <= h { w } else { h };
            window_size is Some && show_indicator && has_custom_icon ==> spec_plan_redraw(
                window_size,
                show_indicator,
                has_custom_icon,
            ) == (RedrawPlan::Draw { indicator: Some(IndicatorDrawing::CustomIcon { extent }) })
        }),
        ({
            let (w, h) = window_size->0;
            let extent = if w <= h { w } else { h };
            window_size is Some && show_indicator && !has_custom_icon ==> spec_plan_redraw(
                window_size,
                show_indicator,
                has_custom_icon,
            ) == (RedrawPlan::Draw { indicator: Some(IndicatorDrawing::Font { extent }) })
        }),
        forall|w: u32, h: u32, e: u32|
            spec_plan_redraw(Some((w, h)), show_indicator, has_custom_icon) == (RedrawPlan::Draw {
                indicator: Some(IndicatorDrawing::CustomIcon { extent: e }),
            }) || spec_plan_redraw(Some((w, h)), show_indicator, has_custom_icon) == (
            RedrawPlan::Draw { indicator: Some(IndicatorDrawing::Font { extent: e }) })
                ==> e <= w && e <= h && (e == w || e == h),
{
}

/// Caps lock counts as on exactly when the lowest bit of the key state is set, whatever the
/// other bits (such as the key-down bit) say.
pub proof fn lemma_caps_lock_low_bit(key_state: i16)
    ensures
        spec_caps_lock_on(key_state) == ((key_state & 1i16) != 0),
{
    assert(((key_state & 1i16) != 0) == (key_state % 2 != 0)) by (bit_vector);
}

} // verus!

