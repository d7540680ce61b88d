use hlas::config::Engine;
use hlas::transcribe::cloud::{language_hint, transcript_from_member, transcript_from_response, Provider};
use hlas::transcribe::local::{join_segments, whisper_language};
use hlas::transcribe::model::{
    check_download_size, is_complete_size, progress_report, Download, ModelError, EXPECTED_BYTES, FILE, URL,
};
use hlas::transcribe::{require_key, route, spelling_prompt, Route, TranscribeError};

#[test]
fn provider_endpoints_and_models() {
    assert_eq!(Provider::Groq.endpoint(), "https://api.groq.com/openai/v1/audio/transcriptions");
    assert_eq!(Provider::OpenAI.endpoint(), "https://api.openai.com/v1/audio/transcriptions");
    assert_eq!(Provider::Groq.model(), "whisper-large-v3-turbo");
    assert_eq!(Provider::OpenAI.model(), "gpt-4o-transcribe");
    assert_eq!(Provider::Groq.key_account(), "groq-api-key");
    assert_eq!(Provider::OpenAI.key_account(), "openai-api-key");
}

#[test]
fn routing_by_engine() {
    assert_eq!(route(Engine::Local, 0), Route::Empty);
    assert_eq!(route(Engine::Groq, 0), Route::Empty);
    assert_eq!(route(Engine::Local, 10), Route::Local);
    assert_eq!(route(Engine::Groq, 10), Route::Cloud(Provider::Groq));
    assert_eq!(route(Engine::OpenAI, 10), Route::Cloud(Provider::OpenAI));
}

#[test]
fn missing_key_is_an_error() {
    assert!(matches!(require_key(Provider::Groq, None), Err(TranscribeError::MissingKey(Provider::Groq))));
    assert!(matches!(require_key(Provider::OpenAI, Some("k".to_string())), Ok(k) if k == "k"));
}

#[test]
fn first_language_is_the_hint() {
    assert_eq!(language_hint(&vec!["cs".to_string(), "en".to_string()]), Some("cs".to_string()));
    assert_eq!(language_hint(&Vec::new()), None);
    assert_eq!(whisper_language(&vec!["en".to_string()]), "en");
    assert_eq!(whisper_language(&Vec::new()), "auto");
}

#[test]
fn response_text_is_trimmed() {
    let r = transcript_from_response(true, 200, "{\"text\": \"  Ahoj svete \\n\"}").unwrap();
    assert_eq!(r, "Ahoj svete");
}

#[test]
fn response_without_text_is_empty() {
    assert_eq!(transcript_from_response(true, 200, "{\"other\": 1}").unwrap(), "");
    assert_eq!(transcript_from_response(true, 200, "{\"text\": 5}").unwrap(), "");
    assert_eq!(transcript_from_response(true, 200, "[1, 2]").unwrap(), "");
}

#[test]
fn bad_json_is_an_error() {
    assert!(matches!(transcript_from_response(true, 200, "not json"), Err(TranscribeError::InvalidJson(_))));
}

#[test]
fn http_failure_keeps_status_and_body() {
    match transcript_from_response(false, 401, "invalid key") {
        Err(TranscribeError::Http { status, body }) => {
            assert_eq!(status, 401);
            assert_eq!(body, "invalid key");
        }
        _ => panic!("expected an HTTP error"),
    }
}

#[test]
fn member_text_is_trimmed() {
    assert_eq!(transcript_from_member(Some(" hi ".to_string())), "hi");
    assert_eq!(transcript_from_member(None), "");
    assert_eq!(transcript_from_member(Some(" \t a b \u{a0}\u{2028}".to_string())), "a b");
    assert_eq!(transcript_from_member(Some("   ".to_string())), "");
}

#[test]
fn segments_are_concatenated_and_trimmed() {
    let segs = vec![" Hello".to_string(), " world.".to_string(), " ".to_string()];
    assert_eq!(join_segments(&segs), "Hello world.");
    assert_eq!(join_segments(&Vec::new()), "");
}

#[test]
fn model_constants() {
    assert_eq!(FILE, "ggml-large-v3-turbo-q5_0.bin");
    assert!(URL.ends_with(FILE));
    assert_eq!(EXPECTED_BYTES, 574_041_195);
    assert!(is_complete_size(574_041_195));
    assert!(!is_complete_size(574_041_194));
}

#[test]
fn download_bookkeeping() {
    let mut d = Download::start(None);
    assert_eq!(d.total, EXPECTED_BYTES);
    assert_eq!(d.record_chunk(65_536), (65_536, EXPECTED_BYTES));
    assert_eq!(d.record_chunk(10), (65_546, EXPECTED_BYTES));
    assert_eq!(Download::start(Some(42)).total, 42);
}

#[test]
fn download_size_gate() {
    assert_eq!(check_download_size(EXPECTED_BYTES), Ok(()));
    assert_eq!(
        check_download_size(1),
        Err(ModelError::SizeMismatch { got: 1, expected: EXPECTED_BYTES })
    );
}

#[test]
fn progress_is_reported_near_32_mib_marks() {
    let mib = 1024 * 1024;
    assert_eq!(progress_report(0, EXPECTED_BYTES), Some((0, 547)));
    assert_eq!(progress_report(32 * mib + 65_535, 100 * mib), Some((32, 100)));
    assert_eq!(progress_report(32 * mib + 65_536, 100 * mib), None);
    assert_eq!(progress_report(mib, 100 * mib), None);
}

#[test]
fn vocabulary_becomes_a_spelling_prompt() {
    assert_eq!(spelling_prompt(&Vec::new()), None);
    assert_eq!(spelling_prompt(&vec!["Hlas".to_string()]), Some("Hlas".to_string()));
    assert_eq!(
        spelling_prompt(&vec!["Hlas".to_string(), "Gedeon".to_string(), "whisper.cpp".to_string()]),
        Some("Hlas, Gedeon, whisper.cpp".to_string())
    );
}
