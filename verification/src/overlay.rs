//! The floating status pill shown bottom-center of the primary display while
//! dictating: its states, their labels, and where the pill sits.

use vstd::prelude::*;

verus! {

/// What the pill shows.
#[derive(Debug, Clone, Copy, PartialEq, Eq, Structural)]
pub enum State {
    Hidden,
    Recording,
    DownloadingModel,
    Transcribing,
    Error,
}

/// Width of the pill in pixels.
pub const WIDTH: i32 = 280;
/// Height of the pill in pixels.
pub const HEIGHT: i32 = 48;
/// Gap between the pill and the bottom of the screen in pixels.
pub const BOTTOM_GAP: i32 = 60;

impl State {
    /// The text painted on the pill.
    pub fn label(self) -> (r: &'static str)
        ensures
            self == State::Recording ==> r@ == "\u{25cf} Recording"@,
            self == State::DownloadingModel ==> r@ == "Downloading local model\u{2026}"@,
            self == State::Transcribing ==> r@ == "Transcribing\u{2026}"@,
            self == State::Error ==> r@ == "Couldn't transcribe - see log"@,
            self == State::Hidden ==> r@ == ""@,
    {
        match self {
            State::Recording => "\u{25cf} Recording",
            State::DownloadingModel => "Downloading local model\u{2026}",
            State::Transcribing => "Transcribing\u{2026}",
            State::Error => "Couldn't transcribe - see log",
            State::Hidden => "",
        }
    }
}

/// The state after the commands queued since the last poll: the last one
/// received, or the current state when none arrived; and whether anything
/// arrived at all.
pub fn latest_state(current: State, received: &Vec<State>) -> (r: (State, bool))
    ensures
        received@.len() == 0 ==> r == (current, false),
        received@.len() > 0 ==> r == (received@.last(), true),
{
    let mut state = current;
    let mut changed = false;
    let mut i: usize = 0;
    while i < received.len()
        invariant
            0 <= i <= received@.len(),
            i == 0 ==> state == current && !changed,
            i > 0 ==> state == received@[i - 1] && changed,
        decreases received@.len() - i,
    {
        state = received[i];
        changed = true;
        i = i + 1;
    }
    (state, changed)
}

/// What the pill window does when its state changes.
#[derive(Debug, Clone, Copy, PartialEq, Eq, Structural)]
pub enum WindowAction {
    /// Hide the window.
    Hide,
    /// Move the window to the bottom center, show it without taking focus
    /// and repaint it.
    ShowAndRepaint,
}

/// The window action for a newly current state.
pub fn window_action(state: State) -> (a: WindowAction)
    ensures
        a == (if state == State::Hidden { WindowAction::Hide } else { WindowAction::ShowAndRepaint }),
{
    match state {
        State::Hidden => WindowAction::Hide,
        _ => WindowAction::ShowAndRepaint,
    }
}

/// Half of `x`, rounded toward zero (integer division of `i32`).
pub open spec fn half_toward_zero(x: int) -> int {
    if x >= 0 {
        x / 2
    } else {
        -((-x) / 2)
    }
}

/// Top-left corner of the pill on a screen of `screen_w` by `screen_h`
/// pixels: horizontally centered, `BOTTOM_GAP` above the bottom edge.
pub fn bottom_center(screen_w: i32, screen_h: i32) -> (p: (i32, i32))
    requires
        screen_w >= i32::MIN + WIDTH,
        screen_h >= i32::MIN + HEIGHT + BOTTOM_GAP,
    ensures
        p.0 == half_toward_zero(screen_w - WIDTH),
        p.1 == screen_h - HEIGHT - BOTTOM_GAP,
{
    ((screen_w - WIDTH) / 2, screen_h - HEIGHT - BOTTOM_GAP)
}

} // verus!
