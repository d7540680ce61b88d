use hlas::autostart::{run_command, RUN_KEY, VALUE};
use hlas::config::Engine;
use hlas::inject::{ctrl_v_sequence, restore_after_paste, should_paste, KeyStroke, VK_CONTROL, VK_V};
use hlas::overlay::{bottom_center, latest_state, window_action, State, WindowAction};
use hlas::tray::{engine_checks, engine_for_click, icon_rgba, menu_choice, MenuChoice};

#[test]
fn pill_labels() {
    assert_eq!(State::Recording.label(), "\u{25cf} Recording");
    assert_eq!(State::DownloadingModel.label(), "Downloading local model\u{2026}");
    assert_eq!(State::Transcribing.label(), "Transcribing\u{2026}");
    assert_eq!(State::Error.label(), "Couldn't transcribe - see log");
    assert_eq!(State::Hidden.label(), "");
}

#[test]
fn pill_drains_to_latest_state() {
    assert_eq!(latest_state(State::Hidden, &Vec::new()), (State::Hidden, false));
    assert_eq!(
        latest_state(State::Hidden, &vec![State::Recording, State::Transcribing]),
        (State::Transcribing, true)
    );
    assert_eq!(window_action(State::Hidden), WindowAction::Hide);
    assert_eq!(window_action(State::Error), WindowAction::ShowAndRepaint);
}

#[test]
fn pill_position() {
    assert_eq!(bottom_center(1920, 1080), (820, 972));
    assert_eq!(bottom_center(279, 100), (0, -8));
    assert_eq!(bottom_center(0, 0), (-140, -108));
}

#[test]
fn paste_decisions() {
    assert!(!should_paste(""));
    assert!(should_paste("x"));
    assert_eq!(
        restore_after_paste(Some("old".to_string()), Some("new".to_string()), "new"),
        Some("old".to_string())
    );
    assert_eq!(restore_after_paste(Some("old".to_string()), Some("user copy".to_string()), "new"), None);
    assert_eq!(restore_after_paste(None, Some("new".to_string()), "new"), None);
    assert_eq!(restore_after_paste(Some("old".to_string()), None, "new"), None);
}

#[test]
fn ctrl_v_keys() {
    assert_eq!(
        ctrl_v_sequence(),
        vec![
            KeyStroke { vk: VK_CONTROL, up: false },
            KeyStroke { vk: VK_V, up: false },
            KeyStroke { vk: VK_V, up: true },
            KeyStroke { vk: VK_CONTROL, up: true },
        ]
    );
}

#[test]
fn autostart_command_is_quoted() {
    assert_eq!(run_command("C:\\Program Files\\Hlas\\hlas.exe"), "\"C:\\Program Files\\Hlas\\hlas.exe\"");
    assert_eq!(RUN_KEY, "Software\\Microsoft\\Windows\\CurrentVersion\\Run");
    assert_eq!(VALUE, "Hlas");
}

#[test]
fn tray_engine_menu() {
    assert_eq!(engine_checks(Engine::Groq), (false, true, false));
    assert_eq!(engine_checks(Engine::Local), (true, false, false));
    assert_eq!(engine_for_click(true, false), Engine::Local);
    assert_eq!(engine_for_click(false, true), Engine::Groq);
    assert_eq!(engine_for_click(false, false), Engine::OpenAI);
}

#[test]
fn tray_icon_pixels() {
    let rgba = icon_rgba();
    assert_eq!(rgba.len(), 32 * 32 * 4);
    assert_eq!(&rgba[0..4], &[0, 0, 0, 0]);
    let inner = 4 * (2 * 32 + 2);
    assert_eq!(&rgba[inner..inner + 4], &[0x00, 0xE6, 0x7A, 0xFF]);
    let right_frame = 4 * (10 * 32 + 30);
    assert_eq!(&rgba[right_frame..right_frame + 4], &[0, 0, 0, 0]);
    let last_inner = 4 * (29 * 32 + 29);
    assert_eq!(&rgba[last_inner..last_inner + 4], &[0x00, 0xE6, 0x7A, 0xFF]);
}

#[test]
fn tray_menu_choices() {
    assert_eq!(menu_choice(true, false, false, false, false, false), MenuChoice::Quit);
    assert_eq!(menu_choice(false, true, false, false, false, false), MenuChoice::OpenSettings);
    assert_eq!(menu_choice(false, false, true, false, false, false), MenuChoice::ToggleLaunch);
    assert_eq!(menu_choice(false, false, false, true, false, false), MenuChoice::SelectEngine(Engine::Local));
    assert_eq!(menu_choice(false, false, false, false, true, false), MenuChoice::SelectEngine(Engine::Groq));
    assert_eq!(menu_choice(false, false, false, false, false, true), MenuChoice::SelectEngine(Engine::OpenAI));
    assert_eq!(menu_choice(false, false, false, false, false, false), MenuChoice::Ignore);
}
