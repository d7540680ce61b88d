use hlas::hotkey::{set_watch_vk, KeyEdge, KeyHook, VK_RCONTROL, WM_KEYDOWN, WM_KEYUP, WM_SYSKEYDOWN, WM_SYSKEYUP};

#[test]
fn press_then_release_gives_down_then_up() {
    let mut hook = KeyHook::new(VK_RCONTROL);
    assert_eq!(hook.on_message(0, VK_RCONTROL, WM_KEYDOWN), Some(KeyEdge::Down));
    assert!(hook.is_down);
    assert_eq!(hook.on_message(0, VK_RCONTROL, WM_KEYUP), Some(KeyEdge::Up));
    assert!(!hook.is_down);
}

#[test]
fn auto_repeat_presses_are_suppressed() {
    let mut hook = KeyHook::new(VK_RCONTROL);
    assert_eq!(hook.on_message(0, VK_RCONTROL, WM_KEYDOWN), Some(KeyEdge::Down));
    assert_eq!(hook.on_message(0, VK_RCONTROL, WM_KEYDOWN), None);
    assert_eq!(hook.on_message(0, VK_RCONTROL, WM_SYSKEYDOWN), None);
    assert_eq!(hook.on_message(0, VK_RCONTROL, WM_SYSKEYUP), Some(KeyEdge::Up));
    assert_eq!(hook.on_message(0, VK_RCONTROL, WM_KEYUP), None);
}

#[test]
fn other_keys_and_negative_codes_are_ignored() {
    let mut hook = KeyHook::new(VK_RCONTROL);
    assert_eq!(hook.on_message(0, 0x41, WM_KEYDOWN), None);
    assert_eq!(hook.on_message(-1, VK_RCONTROL, WM_KEYDOWN), None);
    assert_eq!(hook.on_message(0, VK_RCONTROL, 0x0200), None);
    assert!(!hook.is_down);
}

#[test]
fn release_without_press_reports_nothing() {
    let mut hook = KeyHook::new(VK_RCONTROL);
    assert_eq!(hook.on_message(0, VK_RCONTROL, WM_KEYUP), None);
}

#[test]
fn edges_alternate_over_a_message_stream() {
    let mut hook = KeyHook::new(VK_RCONTROL);
    let msgs = [WM_KEYDOWN, WM_KEYDOWN, WM_KEYUP, WM_KEYUP, WM_SYSKEYDOWN, WM_KEYDOWN, WM_SYSKEYUP];
    let edges: Vec<KeyEdge> = msgs.iter().filter_map(|m| hook.on_message(0, VK_RCONTROL, *m)).collect();
    assert_eq!(edges, vec![KeyEdge::Down, KeyEdge::Up, KeyEdge::Down, KeyEdge::Up]);
}

#[test]
fn watched_key_can_change_at_runtime() {
    let mut hook = KeyHook::new(VK_RCONTROL);
    set_watch_vk(&mut hook, 0x14);
    assert_eq!(hook.watch_vk, 0x14);
    assert_eq!(hook.on_message(0, VK_RCONTROL, WM_KEYDOWN), None);
    assert_eq!(hook.on_message(0, 0x14, WM_KEYDOWN), Some(KeyEdge::Down));
}
