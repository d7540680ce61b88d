//! User preferences: which engine transcribes, language hints, the
//! push-to-talk key, launch-at-login and custom vocabulary; and where the
//! application keeps its files.
//!
//! API keys are never part of the configuration; they live in the
//! credential store (see `keystore`).

use std::path::PathBuf;
use vstd::prelude::*;

verus! {

#[verifier::external_type_specification]
#[verifier::external_body]
pub struct ExPathBuf(PathBuf);

/// Which transcription backend runs.
#[derive(Debug, Clone, Copy, PartialEq, Eq, Structural)]
pub enum Engine {
    /// whisper.cpp on this PC. Private, free, offline.
    Local,
    /// Groq cloud, whisper-large-v3-turbo. Fastest, bring your own key.
    Groq,
    /// OpenAI cloud, gpt-4o-transcribe. Best accuracy, bring your own key.
    OpenAI,
}

impl Default for Engine {
    fn default() -> (e: Engine)
        ensures
            e == Engine::Local,
    {
        Engine::Local
    }
}

/// The user's preferences.
#[derive(Debug, Clone)]
pub struct Config {
    pub engine: Engine,
    /// Whisper language hints, e.g. ["cs", "en"]. Empty means auto-detect.
    pub languages: Vec<String>,
    /// Virtual-key code of the push-to-talk key.
    pub hotkey_vk: u32,
    /// Launch the application when the user signs in.
    pub launch_at_login: bool,
    /// Words the model should learn to spell (names, jargon).
    pub vocabulary: Vec<String>,
}

/// Virtual-key code of the right Control key, the default push-to-talk key.
pub const DEFAULT_HOTKEY_VK: u32 = 0xA3;

/// The preferences a fresh installation starts with.
pub open spec fn is_default_config(c: Config) -> bool {
    &&& c.engine == Engine::Local
    &&& c.languages@.len() == 2
    &&& c.languages@[0]@ == seq!['c', 's']
    &&& c.languages@[1]@ == seq!['e', 'n']
    &&& c.hotkey_vk == DEFAULT_HOTKEY_VK
    &&& !c.launch_at_login
    &&& c.vocabulary@.len() == 0
}

impl Default for Config {
    fn default() -> (c: Config)
        ensures
            is_default_config(c),
    {
        let mut languages: Vec<String> = Vec::new();
        let cs = "cs".to_owned();
        let en = "en".to_owned();
        proof {
            reveal_strlit("cs");
            reveal_strlit("en");
            assert(cs@ =~= seq!['c', 's']);
            assert(en@ =~= seq!['e', 'n']);
        }
        languages.push(cs);
        languages.push(en);
        Config {
            engine: Engine::Local,
            languages,
            hotkey_vk: DEFAULT_HOTKEY_VK,
            launch_at_login: false,
            vocabulary: Vec::new(),
        }
    }
}

/// The preferences as read from the preferences file: each field the file
/// sets, and `None` for each field it leaves out.
#[derive(Debug, Clone)]
pub struct StoredConfig {
    pub engine: Option<Engine>,
    pub languages: Option<Vec<String>>,
    pub hotkey_vk: Option<u32>,
    pub launch_at_login: Option<bool>,
    pub vocabulary: Option<Vec<String>>,
}

/// `c` holds every field `s` sets, and the default for every field `s`
/// leaves out.
pub open spec fn fills_from(c: Config, s: StoredConfig) -> bool {
    &&& (match s.engine {
        Some(e) => c.engine == e,
        None => c.engine == Engine::Local,
    })
    &&& (match s.languages {
        Some(l) => c.languages == l,
        None => c.languages@.len() == 2 && c.languages@[0]@ == seq!['c', 's'] && c.languages@[1]@
            == seq!['e', 'n'],
    })
    &&& (match s.hotkey_vk {
        Some(k) => c.hotkey_vk == k,
        None => c.hotkey_vk == DEFAULT_HOTKEY_VK,
    })
    &&& (match s.launch_at_login {
        Some(b) => c.launch_at_login == b,
        None => !c.launch_at_login,
    })
    &&& (match s.vocabulary {
        Some(v) => c.vocabulary == v,
        None => c.vocabulary@.len() == 0,
    })
}

impl Config {
    /// The preferences a stored file describes: its fields where it sets
    /// them, the defaults elsewhere.
    pub fn from_stored(s: StoredConfig) -> (c: Config)
        ensures
            fills_from(c, s),
    {
        let d = Config::default();
        Config {
            engine: match s.engine {
                Some(e) => e,
                None => d.engine,
            },
            languages: match s.languages {
                Some(l) => l,
                None => d.languages,
            },
            hotkey_vk: match s.hotkey_vk {
                Some(k) => k,
                None => d.hotkey_vk,
            },
            launch_at_login: match s.launch_at_login {
                Some(b) => b,
                None => d.launch_at_login,
            },
            vocabulary: match s.vocabulary {
                Some(v) => v,
                None => d.vocabulary,
            },
        }
    }

    /// The preferences at start-up: those of the stored file when it could be
    /// read and parsed, the defaults otherwise. A missing or corrupt file is
    /// never fatal.
    pub fn from_loaded(stored: Option<StoredConfig>) -> (c: Config)
        ensures
            stored matches Some(s) ==> fills_from(c, s),
            stored is None ==> is_default_config(c),
    {
        match stored {
            Some(s) => Config::from_stored(s),
            None => Config::default(),
        }
    }
}

/// Why the application's directory could not be located.
#[derive(Debug, Clone, Copy, PartialEq, Eq, Structural)]
pub enum ConfigError {
    /// The platform reports no per-user configuration directory.
    NoConfigDir,
}

/// Name of the application's directory inside the user's configuration
/// directory.
pub const APP_DIR_NAME: &'static str = "Hlas";

/// Name of the preferences file inside the application's directory.
pub const CONFIG_FILE_NAME: &'static str = "config.json";

/// Name of the models directory inside the application's directory.
pub const MODELS_DIR_NAME: &'static str = "models";

/// The user's configuration directory, as `dirs::config_dir` reports it.
/// It depends on the platform and the environment; nothing is stated of it.
#[verifier::external_body]
pub(crate) fn user_config_dir() -> Option<PathBuf> {
    dirs::config_dir()
}

/// The path `base` with the relative path `segment` adjoined, as
/// `PathBuf::join` builds it. The separator is the one of the platform the
/// library is built for, fixed for a given build; the result depends on
/// `base` and `segment` alone.
pub uninterp spec fn joined(base: PathBuf, segment: Seq<char>) -> PathBuf;

/// `PathBuf::join`: `base` with `segment` adjoined. The contract names the
/// result and claims nothing more of it.
#[verifier::external_body]
pub(crate) fn join_path(base: &PathBuf, segment: &str) -> (r: PathBuf)
    ensures
        r == joined(*base, segment@),
{
    base.join(segment)
}

/// The application's directory under the user configuration directory `b`.
pub open spec fn app_dir_of(b: PathBuf) -> PathBuf {
    joined(b, APP_DIR_NAME@)
}

/// The preferences file under the user configuration directory `b`.
pub open spec fn config_file_of(b: PathBuf) -> PathBuf {
    joined(app_dir_of(b), CONFIG_FILE_NAME@)
}

/// The models directory under the user configuration directory `b`.
pub open spec fn models_dir_of(b: PathBuf) -> PathBuf {
    joined(app_dir_of(b), MODELS_DIR_NAME@)
}

/// The application's directory under a given user configuration directory;
/// an error when there is none.
pub fn app_dir_in(base: Option<PathBuf>) -> (r: Result<PathBuf, ConfigError>)
    ensures
        r is Err <==> base is None,
        base matches Some(b) ==> r == Ok::<PathBuf, ConfigError>(app_dir_of(b)),
        r is Err ==> r == Err::<PathBuf, ConfigError>(ConfigError::NoConfigDir),
{
    match base {
        Some(b) => Ok(join_path(&b, APP_DIR_NAME)),
        None => Err(ConfigError::NoConfigDir),
    }
}

/// The preferences file under a given user configuration directory:
/// `Hlas/config.json`; an error when there is none.
pub fn config_file_in(base: Option<PathBuf>) -> (r: Result<PathBuf, ConfigError>)
    ensures
        r is Err <==> base is None,
        base matches Some(b) ==> r == Ok::<PathBuf, ConfigError>(config_file_of(b)),
        r is Err ==> r == Err::<PathBuf, ConfigError>(ConfigError::NoConfigDir),
{
    let dir = app_dir_in(base)?;
    Ok(join_path(&dir, CONFIG_FILE_NAME))
}

/// The models directory under a given user configuration directory:
/// `Hlas/models`; an error when there is none.
pub fn models_dir_in(base: Option<PathBuf>) -> (r: Result<PathBuf, ConfigError>)
    ensures
        r is Err <==> base is None,
        base matches Some(b) ==> r == Ok::<PathBuf, ConfigError>(models_dir_of(b)),
        r is Err ==> r == Err::<PathBuf, ConfigError>(ConfigError::NoConfigDir),
{
    let dir = app_dir_in(base)?;
    Ok(join_path(&dir, MODELS_DIR_NAME))
}

impl Config {
    /// The application's directory: `Hlas` inside the user's configuration
    /// directory. Whether there is one is up to the platform.
    pub fn dir() -> (r: Result<PathBuf, ConfigError>)
        ensures
            r is Err ==> r == Err::<PathBuf, ConfigError>(ConfigError::NoConfigDir),
            r matches Ok(p) ==> exists|b: PathBuf| p == app_dir_of(b),
    {
        app_dir_in(user_config_dir())
    }

    /// The preferences file, `config.json` in the application's directory.
    pub fn path() -> (r: Result<PathBuf, ConfigError>)
        ensures
            r is Err ==> r == Err::<PathBuf, ConfigError>(ConfigError::NoConfigDir),
            r matches Ok(p) ==> exists|b: PathBuf| p == config_file_of(b),
    {
        config_file_in(user_config_dir())
    }

    /// The directory holding downloaded models, `models` in the application's
    /// directory.
    pub fn models_dir() -> (r: Result<PathBuf, ConfigError>)
        ensures
            r is Err ==> r == Err::<PathBuf, ConfigError>(ConfigError::NoConfigDir),
            r matches Ok(p) ==> exists|b: PathBuf| p == models_dir_of(b),
    {
        models_dir_in(user_config_dir())
    }
}

} // verus!
