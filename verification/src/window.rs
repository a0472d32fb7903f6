use vstd::prelude::*;

verus! {

/// Where on the monitor the indicator window is placed.
#[derive(Clone, Copy, PartialEq, Eq, Structural, Debug, Hash)]
pub enum WindowPosition {
    Center,
    Left,
    Right,
    Top,
    Bottom,
    TopLeft,
    TopRight,
    BottomLeft,
    BottomRight,
}

/// The positions in the order in which the position submenu lists them.
pub open spec fn spec_window_positions() -> Seq<WindowPosition> {
    seq![
        WindowPosition::Center,
        WindowPosition::Left,
        WindowPosition::Right,
        WindowPosition::Top,
        WindowPosition::Bottom,
        WindowPosition::TopLeft,
        WindowPosition::TopRight,
        WindowPosition::BottomLeft,
        WindowPosition::BottomRight,
    ]
}

/// The positions in the order in which the position submenu lists them.
pub fn window_positions() -> (r: Vec<WindowPosition>)
    ensures
        r@ == spec_window_positions(),
{
    let r = vec![
        WindowPosition::Center,
        WindowPosition::Left,
        WindowPosition::Right,
        WindowPosition::Top,
        WindowPosition::Bottom,
        WindowPosition::TopLeft,
        WindowPosition::TopRight,
        WindowPosition::BottomLeft,
        WindowPosition::BottomRight,
    ];
    assert(r@ =~= spec_window_positions());
    r
}

/// Every position occurs in the list exactly once.
pub proof fn lemma_window_positions_complete(p: WindowPosition)
    ensures
        spec_window_positions().contains(p),
        spec_window_positions().no_duplicates(),
{
    let s = spec_window_positions();
    match p {
        WindowPosition::Center => assert(s[0] == p),
        WindowPosition::Left => assert(s[1] == p),
        WindowPosition::Right => assert(s[2] == p),
        WindowPosition::Top => assert(s[3] == p),
        WindowPosition::Bottom => assert(s[4] == p),
        WindowPosition::TopLeft => assert(s[5] == p),
        WindowPosition::TopRight => assert(s[6] == p),
        WindowPosition::BottomLeft => assert(s[7] == p),
        WindowPosition::BottomRight => assert(s[8] == p),
    }
}

} // verus!
