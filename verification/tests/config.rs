use hlas::config::{config_file_in, models_dir_in};
use hlas::transcribe::model::model_file_in;
use hlas::config::{Config, ConfigError, Engine, StoredConfig, app_dir_in};

#[test]
fn defaults_match_a_fresh_installation() {
    let c = Config::default();
    assert_eq!(c.engine, Engine::Local);
    assert_eq!(c.languages, vec!["cs".to_string(), "en".to_string()]);
    assert_eq!(c.hotkey_vk, 0xA3);
    assert!(!c.launch_at_login);
    assert!(c.vocabulary.is_empty());
    assert_eq!(Engine::default(), Engine::Local);
}

#[test]
fn stored_fields_override_defaults() {
    let s = StoredConfig {
        engine: Some(Engine::OpenAI),
        languages: None,
        hotkey_vk: Some(0x14),
        launch_at_login: None,
        vocabulary: Some(vec!["Hlas".to_string()]),
    };
    let c = Config::from_stored(s);
    assert_eq!(c.engine, Engine::OpenAI);
    assert_eq!(c.languages, vec!["cs".to_string(), "en".to_string()]);
    assert_eq!(c.hotkey_vk, 0x14);
    assert!(!c.launch_at_login);
    assert_eq!(c.vocabulary, vec!["Hlas".to_string()]);
}

#[test]
fn unreadable_config_falls_back_to_defaults() {
    let c = Config::from_loaded(None);
    assert_eq!(c.engine, Engine::Local);
    assert_eq!(c.hotkey_vk, 0xA3);
    let c = Config::from_loaded(Some(StoredConfig {
        engine: Some(Engine::Groq),
        languages: Some(Vec::new()),
        hotkey_vk: None,
        launch_at_login: Some(true),
        vocabulary: None,
    }));
    assert_eq!(c.engine, Engine::Groq);
    assert!(c.languages.is_empty());
    assert!(c.launch_at_login);
}

#[test]
fn app_dir_needs_a_config_dir() {
    assert_eq!(app_dir_in(None).unwrap_err(), ConfigError::NoConfigDir);
    let base = std::path::PathBuf::from("base");
    let dir = app_dir_in(Some(base.clone())).unwrap();
    assert_eq!(dir, base.join("Hlas"));
}

#[test]
fn config_paths_sit_in_the_app_dir() {
    match (Config::dir(), Config::path(), Config::models_dir(), hlas::transcribe::model::path()) {
        (Ok(dir), Ok(path), Ok(models), Ok(model)) => {
            assert!(dir.ends_with("Hlas"));
            assert_eq!(path, dir.join("config.json"));
            assert_eq!(models, dir.join("models"));
            assert_eq!(model, models.join("ggml-large-v3-turbo-q5_0.bin"));
        }
        (Err(e1), Err(e2), Err(e3), Err(e4)) => {
            assert_eq!(e1, ConfigError::NoConfigDir);
            assert_eq!(e2, ConfigError::NoConfigDir);
            assert_eq!(e3, ConfigError::NoConfigDir);
            assert_eq!(e4, ConfigError::NoConfigDir);
        }
        _ => panic!("paths disagree on whether a config dir exists"),
    }
}

#[test]
fn files_under_a_config_dir() {
    let base = std::path::PathBuf::from("base");
    assert_eq!(config_file_in(Some(base.clone())).unwrap(), base.join("Hlas").join("config.json"));
    assert_eq!(models_dir_in(Some(base.clone())).unwrap(), base.join("Hlas").join("models"));
    assert_eq!(
        model_file_in(Some(base.clone())).unwrap(),
        base.join("Hlas").join("models").join("ggml-large-v3-turbo-q5_0.bin")
    );
    assert_eq!(config_file_in(None).unwrap_err(), ConfigError::NoConfigDir);
    assert_eq!(models_dir_in(None).unwrap_err(), ConfigError::NoConfigDir);
    assert_eq!(model_file_in(None).unwrap_err(), ConfigError::NoConfigDir);
}
