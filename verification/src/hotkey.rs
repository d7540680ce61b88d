//! Push-to-talk edge detection over low-level keyboard messages.
//!
//! The keyboard hook hands every key message to [`KeyHook::on_message`]; the
//! hook reports a `Down` edge on the first press of the watched key (key
//! auto-repeat is suppressed) and an `Up` edge when it is released.
//! Hold to talk and quick-tap to latch are decided from these edges by the
//! dictation controller (see `control`).

use vstd::prelude::*;

verus! {

/// Message identifier of a key press.
pub const WM_KEYDOWN: u32 = 0x0100;
/// Message identifier of a key release.
pub const WM_KEYUP: u32 = 0x0101;
/// Message identifier of a key press while Alt is held (or F10).
pub const WM_SYSKEYDOWN: u32 = 0x0104;
/// Message identifier of a key release while Alt is held.
pub const WM_SYSKEYUP: u32 = 0x0105;
/// Virtual-key code of the right Control key, the default push-to-talk key.
pub const VK_RCONTROL: u32 = 0xA3;

/// A press or release edge of the push-to-talk key.
#[derive(Debug, Clone, Copy, PartialEq, Eq, Structural)]
pub enum KeyEdge {
    Down,
    Up,
}

/// State of the push-to-talk detector: which key is watched, and whether it
/// is currently held.
#[derive(Debug, Clone, Copy, PartialEq, Eq, Structural)]
pub struct KeyHook {
    pub watch_vk: u32,
    pub is_down: bool,
}

pub open spec fn is_press(msg: u32) -> bool {
    msg == WM_KEYDOWN || msg == WM_SYSKEYDOWN
}

pub open spec fn is_release(msg: u32) -> bool {
    msg == WM_KEYUP || msg == WM_SYSKEYUP
}

/// One keyboard message as the hook sees it: hook code, virtual-key code and
/// message identifier.
#[derive(Debug, Clone, Copy, PartialEq, Eq, Structural)]
pub struct KeyMessage {
    pub code: i32,
    pub vk: u32,
    pub msg: u32,
}

/// Whether a message concerns the watched key at all.
pub open spec fn concerns(watch_vk: u32, code: i32, vk: u32, msg: u32) -> bool {
    code >= 0 && vk == watch_vk && (is_press(msg) || is_release(msg))
}

/// The held state after a message, and the edge it reports.
pub open spec fn hook_step(watch_vk: u32, is_down: bool, code: i32, vk: u32, msg: u32) -> (bool, Option<KeyEdge>) {
    if !concerns(watch_vk, code, vk, msg) {
        (is_down, None)
    } else if is_press(msg) {
        (true, if is_down { None } else { Some(KeyEdge::Down) })
    } else {
        (false, if is_down { Some(KeyEdge::Up) } else { None })
    }
}

impl KeyHook {
    /// A detector watching `watch_vk`, with the key not held.
    pub fn new(watch_vk: u32) -> (hook: KeyHook)
        ensures
            hook.watch_vk == watch_vk,
            !hook.is_down,
    {
        KeyHook { watch_vk, is_down: false }
    }

    /// Feeds one keyboard message to the detector and returns the edge it
    /// produces, if any.
    pub fn on_message(&mut self, code: i32, vk: u32, msg: u32) -> (edge: Option<KeyEdge>)
        ensures
            final(self).watch_vk == old(self).watch_vk,
            (final(self).is_down, edge) == hook_step(old(self).watch_vk, old(self).is_down, code, vk, msg),
    {
        if code >= 0 && vk == self.watch_vk {
            if msg == WM_KEYDOWN || msg == WM_SYSKEYDOWN {
                let was_down = self.is_down;
                self.is_down = true;
                if !was_down {
                    return Some(KeyEdge::Down);
                }
            } else if msg == WM_KEYUP || msg == WM_SYSKEYUP {
                let was_down = self.is_down;
                self.is_down = false;
                if was_down {
                    return Some(KeyEdge::Up);
                }
            }
        }
        None
    }
}

/// Changes the watched key; whether the key counts as held is kept.
pub fn set_watch_vk(hook: &mut KeyHook, vk: u32)
    ensures
        final(hook).watch_vk == vk,
        final(hook).is_down == old(hook).is_down,
{
    hook.watch_vk = vk;
}

/// The held state after a whole sequence of messages, and the edges reported
/// along the way, in order.
pub open spec fn hook_run(watch_vk: u32, is_down: bool, msgs: Seq<KeyMessage>) -> (bool, Seq<KeyEdge>)
    decreases msgs.len(),
{
    if msgs.len() == 0 {
        (is_down, Seq::empty())
    } else {
        let m = msgs[0];
        let (d, e) = hook_step(watch_vk, is_down, m.code, m.vk, m.msg);
        let (d2, rest) = hook_run(watch_vk, d, msgs.drop_first());
        match e {
            Some(edge) => (d2, seq![edge] + rest),
            None => (d2, rest),
        }
    }
}

/// The `i`-th edge of an alternating stream that starts from the given held
/// state: `Down` first when the key starts released, `Up` first otherwise.
pub open spec fn alternating_edge(start_down: bool, i: int) -> KeyEdge {
    if (i % 2 == 0) != start_down {
        KeyEdge::Down
    } else {
        KeyEdge::Up
    }
}

/// Edge law: whatever the messages, the reported edges alternate (a press is
/// never reported twice without a release in between, and vice versa), and
/// the key ends held exactly when the number of edges flipped the start state.
/// From a released key the stream is therefore `Down, Up, Down, ...`.
pub proof fn lemma_edges_alternate(watch_vk: u32, is_down: bool, msgs: Seq<KeyMessage>)
    ensures
        ({
            let (d, edges) = hook_run(watch_vk, is_down, msgs);
            &&& forall|i: int| 0 <= i < edges.len() ==> edges[i] == alternating_edge(is_down, i)
            &&& d == (is_down != (edges.len() % 2 == 1))
        }),
    decreases msgs.len(),
{
    if msgs.len() > 0 {
        let m = msgs[0];
        let (d, e) = hook_step(watch_vk, is_down, m.code, m.vk, m.msg);
        lemma_edges_alternate(watch_vk, d, msgs.drop_first());
        let (d2, rest) = hook_run(watch_vk, d, msgs.drop_first());
        match e {
            Some(edge) => {
                let edges = seq![edge] + rest;
                assert forall|i: int| 0 <= i < edges.len() implies edges[i] == alternating_edge(is_down, i) by {
                    if i > 0 {
                        assert(edges[i] == rest[i - 1]);
                    }
                }
            },
            None => {},
        }
    }
}

/// Other-key law: a message about any key but the watched one changes
/// nothing and reports no edge.
pub proof fn lemma_other_keys_ignored(watch_vk: u32, is_down: bool, code: i32, vk: u32, msg: u32)
    requires
        vk != watch_vk,
    ensures
        hook_step(watch_vk, is_down, code, vk, msg) == (is_down, None::<KeyEdge>),
{
}

/// Watched-key law: a press of the watched key from released reports `Down`
/// and a release of it while held reports `Up`; repeats report nothing.
pub proof fn lemma_watched_key_edges(watch_vk: u32, is_down: bool, code: i32, msg: u32)
    requires
        code >= 0,
    ensures
        is_press(msg) ==> hook_step(watch_vk, is_down, code, watch_vk, msg) == (true, if is_down {
            None::<KeyEdge>
        } else {
            Some(KeyEdge::Down)
        }),
        is_release(msg) ==> hook_step(watch_vk, is_down, code, watch_vk, msg) == (false, if is_down {
            Some(KeyEdge::Up)
        } else {
            None::<KeyEdge>
        }),
{
}

/// A stream of messages none of which is about the watched key leaves the
/// held state as it was and reports no edge at all.
pub proof fn lemma_other_key_stream_ignored(watch_vk: u32, is_down: bool, msgs: Seq<KeyMessage>)
    requires
        forall|i: int| 0 <= i < msgs.len() ==> (#[trigger] msgs[i]).vk != watch_vk,
    ensures
        hook_run(watch_vk, is_down, msgs) == (is_down, Seq::<KeyEdge>::empty()),
    decreases msgs.len(),
{
    if msgs.len() > 0 {
        let rest = msgs.drop_first();
        assert forall|i: int| 0 <= i < rest.len() implies (#[trigger] rest[i]).vk != watch_vk by {
            assert(rest[i] == msgs[i + 1]);
        }
        assert(msgs[0].vk != watch_vk);
        lemma_other_key_stream_ignored(watch_vk, is_down, rest);
    }
}

} // verus!
