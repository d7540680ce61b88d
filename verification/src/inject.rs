//! Delivering the transcript to the focused window: the clipboard is stashed,
//! the transcript put on it, Ctrl+V synthesized, and the clipboard restored
//! only when it still holds the transcript.

use vstd::prelude::*;
use vstd::string::StrSliceExecFns;

verus! {

/// Virtual-key code of the Control key.
pub const VK_CONTROL: u16 = 0x11;
/// Virtual-key code of the V key.
pub const VK_V: u16 = 0x56;
/// Milliseconds given to the target application to see the new clipboard.
pub const CLIPBOARD_SETTLE_MS: u64 = 30;
/// Milliseconds given to the target application to handle the paste.
pub const PASTE_SETTLE_MS: u64 = 60;

/// Whether a transcript is pasted at all: an empty one leaves the clipboard
/// and the focused window untouched.
pub fn should_paste(text: &str) -> (b: bool)
    ensures
        b == (text@.len() > 0),
{
    !text.is_empty()
}

/// What to put back on the clipboard after pasting `text`: the stashed
/// contents, but only when there were some and the clipboard still holds the
/// transcript (otherwise the user copied something meanwhile, which is kept).
pub fn restore_after_paste(saved: Option<String>, current: Option<String>, text: &str) -> (r: Option<String>)
    ensures
        r is Some <==> (saved is Some && (current matches Some(c) && c@ == text@)),
        r matches Some(p) ==> saved == Some(p),
{
    match saved {
        Some(prev) => match current {
            Some(c) => {
                if str_eq(c.as_str(), text) {
                    Some(prev)
                } else {
                    None
                }
            },
            None => None,
        },
        None => None,
    }
}

/// Whether two texts hold the same characters.
fn str_eq(a: &str, b: &str) -> (r: bool)
    ensures
        r == (a@ == b@),
{
    let n: usize = a.unicode_len();
    if n != b.unicode_len() {
        return false;
    }
    let mut i: usize = 0;
    while i < n
        invariant
            n == a@.len(),
            n == b@.len(),
            0 <= i <= n,
            forall|k: int| 0 <= k < i ==> a@[k] == b@[k],
        decreases n - i,
    {
        if a.get_char(i) != b.get_char(i) {
            return false;
        }
        i = i + 1;
    }
    assert(a@ =~= b@);
    true
}

/// One synthesized key event: a virtual-key code and whether it is a release.
#[derive(Debug, Clone, Copy, PartialEq, Eq, Structural)]
pub struct KeyStroke {
    pub vk: u16,
    pub up: bool,
}

/// The key events of a Ctrl+V: Control down, V down, V up, Control up.
pub fn ctrl_v_sequence() -> (keys: Vec<KeyStroke>)
    ensures
        keys@ == seq![
            KeyStroke { vk: VK_CONTROL, up: false },
            KeyStroke { vk: VK_V, up: false },
            KeyStroke { vk: VK_V, up: true },
            KeyStroke { vk: VK_CONTROL, up: true },
        ],
{
    let mut keys: Vec<KeyStroke> = Vec::new();
    keys.push(KeyStroke { vk: VK_CONTROL, up: false });
    keys.push(KeyStroke { vk: VK_V, up: false });
    keys.push(KeyStroke { vk: VK_V, up: true });
    keys.push(KeyStroke { vk: VK_CONTROL, up: true });
    keys
}

} // verus!
