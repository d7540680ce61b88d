use hlas::config::Engine;
use hlas::control::{Command, Controller, Input, Phase, LATCH_TAP_MS, MIN_SAMPLES};
use hlas::hotkey::KeyEdge;
use hlas::overlay::State;

fn down(at_ms: u64) -> Input {
    Input::Key { edge: KeyEdge::Down, at_ms }
}

fn up(at_ms: u64) -> Input {
    Input::Key { edge: KeyEdge::Up, at_ms }
}

/// Holds the key for two seconds.
fn record(c: &mut Controller) {
    assert!(matches!(c.step(down(10_000)).command, Command::StartRecorder));
    let s = c.step(Input::RecorderStarted);
    assert_eq!(s.overlay, Some(State::Recording));
    let s = c.step(up(12_000));
    assert_eq!(s.overlay, Some(State::Transcribing));
    assert!(matches!(s.command, Command::StopRecorder));
}

#[test]
fn cloud_dictation_pastes_then_hides_pill() {
    let mut c = Controller::new();
    record(&mut c);
    let s = c.step(Input::Captured { samples: 16_000, engine: Engine::Groq });
    assert!(matches!(s.command, Command::Transcribe));
    assert_eq!(s.overlay, None);
    let s = c.step(Input::Transcript("hello".to_string()));
    match s.command {
        Command::Paste(t) => assert_eq!(t, "hello"),
        _ => panic!("expected a paste"),
    }
    let s = c.step(Input::Pasted);
    assert_eq!(s.overlay, Some(State::Hidden));
    assert_eq!(c.phase, Phase::Idle);
}

#[test]
fn short_taps_are_dropped() {
    let mut c = Controller::new();
    record(&mut c);
    let s = c.step(Input::Captured { samples: MIN_SAMPLES - 1, engine: Engine::OpenAI });
    assert_eq!(s.overlay, Some(State::Hidden));
    assert!(matches!(s.command, Command::Wait));
    assert_eq!(c.phase, Phase::Idle);
}

#[test]
fn exactly_min_samples_is_transcribed() {
    let mut c = Controller::new();
    record(&mut c);
    let s = c.step(Input::Captured { samples: MIN_SAMPLES, engine: Engine::OpenAI });
    assert!(matches!(s.command, Command::Transcribe));
}

#[test]
fn local_engine_downloads_missing_model_first() {
    let mut c = Controller::new();
    record(&mut c);
    let s = c.step(Input::Captured { samples: 32_000, engine: Engine::Local });
    assert!(matches!(s.command, Command::CheckModel));
    let s = c.step(Input::ModelPresent(false));
    assert_eq!(s.overlay, Some(State::DownloadingModel));
    assert!(matches!(s.command, Command::DownloadModel));
    let s = c.step(Input::ModelReady);
    assert!(matches!(s.command, Command::Transcribe));
    assert_eq!(s.overlay, None);
    let s = c.step(Input::Transcript(String::new()));
    assert_eq!(s.overlay, Some(State::Hidden));
    assert_eq!(c.phase, Phase::Idle);
}

#[test]
fn local_engine_with_model_transcribes_directly() {
    let mut c = Controller::new();
    record(&mut c);
    c.step(Input::Captured { samples: 32_000, engine: Engine::Local });
    let s = c.step(Input::ModelPresent(true));
    assert!(matches!(s.command, Command::Transcribe));
}

#[test]
fn failures_show_the_error_pill_then_hide_it() {
    let mut c = Controller::new();
    record(&mut c);
    c.step(Input::Captured { samples: 32_000, engine: Engine::Groq });
    let s = c.step(Input::TranscribeFailed);
    assert_eq!(s.overlay, Some(State::Error));
    assert!(matches!(s.command, Command::HoldError));
    let s = c.step(Input::ErrorShown);
    assert_eq!(s.overlay, Some(State::Hidden));
    assert_eq!(c.phase, Phase::Idle);

    record(&mut c);
    c.step(Input::Captured { samples: 32_000, engine: Engine::Local });
    c.step(Input::ModelPresent(false));
    let s = c.step(Input::ModelFailed);
    assert_eq!(s.overlay, Some(State::Error));
}

#[test]
fn failed_recorder_start_returns_to_idle_silently() {
    let mut c = Controller::new();
    c.step(down(5));
    let s = c.step(Input::RecorderFailed);
    assert_eq!(s.overlay, None);
    assert_eq!(c.phase, Phase::Idle);
}

#[test]
fn capture_failure_hides_pill() {
    let mut c = Controller::new();
    record(&mut c);
    let s = c.step(Input::CaptureFailed);
    assert_eq!(s.overlay, Some(State::Hidden));
    assert_eq!(c.phase, Phase::Idle);
}

#[test]
fn stray_edges_change_nothing() {
    let mut c = Controller::new();
    let s = c.step(up(1));
    assert!(matches!(s.command, Command::Wait));
    assert_eq!(c.phase, Phase::Idle);
    c.step(down(100));
    c.step(Input::RecorderStarted);
    let s = c.step(down(150));
    assert!(matches!(s.command, Command::Wait));
    assert_eq!(c.phase, Phase::Recording);
}

#[test]
fn quick_tap_latches_and_next_press_stops() {
    let mut c = Controller::new();
    c.step(down(1_000));
    c.step(Input::RecorderStarted);
    let s = c.step(up(1_000 + LATCH_TAP_MS - 1));
    assert!(matches!(s.command, Command::Wait));
    assert_eq!(s.overlay, None);
    assert_eq!(c.phase, Phase::Recording);
    assert!(c.latched);
    let s = c.step(down(9_000));
    assert!(matches!(s.command, Command::StopRecorder));
    assert_eq!(s.overlay, Some(State::Transcribing));
    assert_eq!(c.phase, Phase::Stopping);
    assert!(!c.latched);
}

#[test]
fn press_held_past_tap_limit_stops_on_release() {
    let mut c = Controller::new();
    c.step(down(1_000));
    c.step(Input::RecorderStarted);
    let s = c.step(up(1_000 + LATCH_TAP_MS));
    assert!(matches!(s.command, Command::StopRecorder));
    assert_eq!(c.phase, Phase::Stopping);
}

#[test]
fn recorder_is_never_started_twice() {
    let mut c = Controller::new();
    let mut starts = 0;
    let mut ends = 0;
    let inputs = vec![
        down(0),
        Input::RecorderStarted,
        up(100),
        down(200),
        up(250),
        down(300),
        Input::Captured { samples: 5_000, engine: Engine::Groq },
        Input::Transcript("x".to_string()),
        Input::Pasted,
        down(1_000),
        Input::RecorderFailed,
        down(2_000),
    ];
    for i in inputs {
        let failed_start = c.phase == Phase::Starting && matches!(i, Input::RecorderFailed);
        match c.step(i).command {
            Command::StartRecorder => {
                assert_eq!(starts, ends);
                starts += 1;
            }
            Command::StopRecorder => ends += 1,
            _ => {}
        }
        if failed_start {
            ends += 1;
        }
        assert!(starts - ends <= 1);
    }
    assert_eq!(starts, 3);
}

#[test]
fn release_after_dictation_does_nothing() {
    let mut c = Controller::new();
    record(&mut c);
    c.step(Input::Captured { samples: 16_000, engine: Engine::Groq });
    c.step(Input::Transcript("done".to_string()));
    c.step(Input::Pasted);
    let before = c;
    let s = c.step(up(20_000));
    assert_eq!(s.overlay, None);
    assert!(matches!(s.command, Command::Wait));
    assert_eq!(c, before);
}
