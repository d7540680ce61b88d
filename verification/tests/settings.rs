use hlas::config::Engine;
use hlas::settings::{engine_from_choice, languages_text, parse_languages};

#[test]
fn radio_buttons_select_engine() {
    assert_eq!(engine_from_choice(true, false), Engine::Groq);
    assert_eq!(engine_from_choice(true, true), Engine::Groq);
    assert_eq!(engine_from_choice(false, true), Engine::OpenAI);
    assert_eq!(engine_from_choice(false, false), Engine::Local);
}

#[test]
fn language_field_is_comma_joined() {
    assert_eq!(languages_text(&vec!["cs".to_string(), "en".to_string()]), "cs,en");
    assert_eq!(languages_text(&vec!["de".to_string()]), "de");
    assert_eq!(languages_text(&Vec::new()), "");
}

#[test]
fn language_field_is_split_trimmed_and_filtered() {
    assert_eq!(parse_languages(" cs , en,,  "), vec!["cs".to_string(), "en".to_string()]);
    assert_eq!(parse_languages(""), Vec::<String>::new());
    assert_eq!(parse_languages("de"), vec!["de".to_string()]);
    assert_eq!(parse_languages(",\u{3000}ja\t,"), vec!["ja".to_string()]);
}

#[test]
fn language_field_round_trips() {
    let langs = vec!["cs".to_string(), "en".to_string(), "pt-BR".to_string()];
    assert_eq!(parse_languages(&languages_text(&langs)), langs);
}
