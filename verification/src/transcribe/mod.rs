//! Transcription backends: which engine handles a recording, what the cloud
//! engines need before a request, and how their answers become text.

pub mod cloud;
pub mod local;
pub mod model;

use crate::config::Engine;
use crate::settings::join_with;
use crate::transcribe::cloud::Provider;
use vstd::prelude::*;
use vstd::string::StringExecFns;

verus! {

/// Where a recording goes.
#[derive(Debug, Clone, Copy, PartialEq, Eq, Structural)]
pub enum Route {
    /// Nothing was recorded: the transcript is empty and no engine runs.
    Empty,
    /// whisper.cpp on this PC.
    Local,
    /// One of the cloud services.
    Cloud(Provider),
}

/// The route a recording of `n_samples` samples takes under `engine`.
pub open spec fn route_spec(engine: Engine, n_samples: nat) -> Route {
    if n_samples == 0 {
        Route::Empty
    } else {
        match engine {
            Engine::Local => Route::Local,
            Engine::Groq => Route::Cloud(Provider::Groq),
            Engine::OpenAI => Route::Cloud(Provider::OpenAI),
        }
    }
}

/// Chooses the engine for a recording of `n_samples` samples.
pub fn route(engine: Engine, n_samples: usize) -> (r: Route)
    ensures
        r == route_spec(engine, n_samples as nat),
{
    if n_samples == 0 {
        return Route::Empty;
    }
    match engine {
        Engine::Local => Route::Local,
        Engine::Groq => Route::Cloud(Provider::Groq),
        Engine::OpenAI => Route::Cloud(Provider::OpenAI),
    }
}

/// Routing law: an empty recording goes nowhere; any non-empty one, whatever
/// its length, goes to the configured engine: the local model for `Local`,
/// Groq for `Groq`, OpenAI for `OpenAI`.
pub proof fn lemma_route_follows_engine(engine: Engine, n_samples: nat)
    ensures
        n_samples == 0 ==> route_spec(engine, n_samples) == Route::Empty,
        n_samples > 0 ==> route_spec(engine, n_samples) == route_spec(engine, 1),
        n_samples > 0 && engine == Engine::Local ==> route_spec(engine, n_samples) == Route::Local,
        n_samples > 0 && engine == Engine::Groq ==> route_spec(engine, n_samples) == Route::Cloud(
            Provider::Groq,
        ),
        n_samples > 0 && engine == Engine::OpenAI ==> route_spec(engine, n_samples) == Route::Cloud(
            Provider::OpenAI,
        ),
{
}

/// Why a transcription failed before or after the engine ran.
#[derive(Debug)]
pub enum TranscribeError {
    /// The cloud service needs an API key and none is stored.
    MissingKey(Provider),
    /// The service answered with a status other than success.
    Http { status: u16, body: String },
    /// The service's answer is not JSON.
    InvalidJson(serde_json::Error),
}

/// The API key for a cloud request: the stored key, or the error that no key
/// is set for that service.
pub fn require_key(provider: Provider, key: Option<String>) -> (r: Result<String, TranscribeError>)
    ensures
        key matches Some(k) ==> (r matches Ok(k2) && k2 == k),
        key is None ==> (r matches Err(TranscribeError::MissingKey(p)) && p == provider),
{
    match key {
        Some(k) => Ok(k),
        None => Err(TranscribeError::MissingKey(provider)),
    }
}

/// The spelling hint handed to either engine so that it learns the words of
/// the user's vocabulary: the words separated by ", ", or no hint when the
/// vocabulary is empty.
pub fn spelling_prompt(vocabulary: &Vec<String>) -> (p: Option<String>)
    ensures
        vocabulary@.len() == 0 ==> p is None,
        vocabulary@.len() > 0 ==> (p matches Some(t) && t@ == join_with(
            vocabulary@.map_values(|s: String| s@),
            seq![',', ' '],
        )),
{
    if vocabulary.len() == 0 {
        return None;
    }
    let ghost parts = vocabulary@.map_values(|s: String| s@);
    let mut out = String::new();
    let mut i: usize = 0;
    while i < vocabulary.len()
        invariant
            0 <= i <= vocabulary@.len(),
            parts == vocabulary@.map_values(|s: String| s@),
            out@ == join_with(parts.take(i as int), seq![',', ' ']),
        decreases vocabulary@.len() - i,
    {
        assert(parts.take(i + 1).drop_last() =~= parts.take(i as int));
        if i > 0 {
            out.append(", ");
            proof {
                reveal_strlit(", ");
                assert(", "@ =~= seq![',', ' ']);
            }
        } else {
            assert(parts.take(1) =~= seq![parts[0]]);
        }
        out.append(vocabulary[i].as_str());
        i = i + 1;
    }
    assert(parts.take(vocabulary@.len() as int) =~= parts);
    Some(out)
}

} // verus!
