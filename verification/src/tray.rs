//! The tray icon: its engine menu and the icon's pixels.

use crate::config::Engine;
use vstd::prelude::*;

verus! {

/// Check marks of the engine menu items (local, Groq, OpenAI) for `engine`:
/// exactly the selected engine is checked.
pub fn engine_checks(engine: Engine) -> (c: (bool, bool, bool))
    ensures
        c == (engine == Engine::Local, engine == Engine::Groq, engine == Engine::OpenAI),
{
    (engine == Engine::Local, engine == Engine::Groq, engine == Engine::OpenAI)
}

/// The engine an engine menu click selects: local or Groq by their items,
/// OpenAI otherwise.
pub fn engine_for_click(is_local_item: bool, is_groq_item: bool) -> (e: Engine)
    ensures
        e == (if is_local_item {
            Engine::Local
        } else if is_groq_item {
            Engine::Groq
        } else {
            Engine::OpenAI
        }),
{
    if is_local_item {
        Engine::Local
    } else if is_groq_item {
        Engine::Groq
    } else {
        Engine::OpenAI
    }
}

/// What a tray menu click asks for.
#[derive(Debug, Clone, Copy, PartialEq, Eq, Structural)]
pub enum MenuChoice {
    /// Leave the application.
    Quit,
    /// Open the settings window.
    OpenSettings,
    /// Turn launch-at-login off when it is on, on when it is off.
    ToggleLaunch,
    /// Make this engine the configured one.
    SelectEngine(Engine),
    /// A click on no item of interest.
    Ignore,
}

/// The choice a click on the menu makes, given which item was clicked:
/// checked in menu order (quit, settings, launch at login, then the engine
/// items).
pub fn menu_choice(
    is_quit: bool,
    is_settings: bool,
    is_launch: bool,
    is_local: bool,
    is_groq: bool,
    is_openai: bool,
) -> (m: MenuChoice)
    ensures
        m == (if is_quit {
            MenuChoice::Quit
        } else if is_settings {
            MenuChoice::OpenSettings
        } else if is_launch {
            MenuChoice::ToggleLaunch
        } else if is_local {
            MenuChoice::SelectEngine(Engine::Local)
        } else if is_groq {
            MenuChoice::SelectEngine(Engine::Groq)
        } else if is_openai {
            MenuChoice::SelectEngine(Engine::OpenAI)
        } else {
            MenuChoice::Ignore
        }),
{
    if is_quit {
        MenuChoice::Quit
    } else if is_settings {
        MenuChoice::OpenSettings
    } else if is_launch {
        MenuChoice::ToggleLaunch
    } else if is_local || is_groq || is_openai {
        MenuChoice::SelectEngine(engine_for_click(is_local, is_groq))
    } else {
        MenuChoice::Ignore
    }
}

/// Side of the square icon in pixels.
pub const ICON_SIZE: u32 = 32;
/// Width of the transparent frame around the icon in pixels.
pub const ICON_BORDER: u32 = 2;

/// Whether pixel (`x`, `y`) lies in the transparent frame of the icon.
pub open spec fn icon_edge(x: int, y: int) -> bool {
    x < 2 || y < 2 || x >= 32 - 2 || y >= 32 - 2
}

/// Channel `c` (red, green, blue, alpha) of pixel (`x`, `y`): transparent in
/// the frame, opaque green (0x00E67A) inside.
pub open spec fn icon_channel(x: int, y: int, c: int) -> u8 {
    if icon_edge(x, y) {
        0
    } else if c == 0 {
        0x00
    } else if c == 1 {
        0xE6
    } else if c == 2 {
        0x7A
    } else {
        0xFF
    }
}

/// Byte `k` of the icon's row-major RGBA buffer.
pub open spec fn icon_byte(k: int) -> u8 {
    let p: int = k / 4;
    icon_channel(p % 32, p / 32, k % 4)
}

/// The tray icon as a row-major 32x32 RGBA buffer: a green rounded-square
/// stand-in mark with a 2-pixel transparent frame.
pub fn icon_rgba() -> (rgba: Vec<u8>)
    ensures
        rgba@.len() == 32 * 32 * 4,
        forall|k: int| 0 <= k < rgba@.len() ==> rgba@[k] == icon_byte(k),
{
    let mut rgba: Vec<u8> = Vec::with_capacity(32 * 32 * 4);
    let mut y: u32 = 0;
    while y < ICON_SIZE
        invariant
            y <= 32,
            rgba@.len() == 128 * y,
            forall|k: int| 0 <= k < rgba@.len() ==> rgba@[k] == icon_byte(k),
        decreases 32 - y,
    {
        let mut x: u32 = 0;
        while x < ICON_SIZE
            invariant
                y < 32,
                x <= 32,
                rgba@.len() == 128 * y + 4 * x,
                forall|k: int| 0 <= k < rgba@.len() ==> rgba@[k] == icon_byte(k),
            decreases 32 - x,
        {
            let edge = x < ICON_BORDER || y < ICON_BORDER || x >= ICON_SIZE - ICON_BORDER || y
                >= ICON_SIZE - ICON_BORDER;
            let base: usize = rgba.len();
            let ghost p: int = 32 * y + x;
            if edge {
                rgba.push(0);
                rgba.push(0);
                rgba.push(0);
                rgba.push(0);
            } else {
                rgba.push(0x00);
                rgba.push(0xE6);
                rgba.push(0x7A);
                rgba.push(0xFF);
            }
            assert forall|k: int| 0 <= k < rgba@.len() implies rgba@[k] == icon_byte(k) by {
                if k >= base {
                    assert(k / 4 == p);
                    assert(p % 32 == x);
                    assert(p / 32 == y);
                }
            }
            x = x + 1;
        }
        y = y + 1;
    }
    rgba
}

} // verus!
