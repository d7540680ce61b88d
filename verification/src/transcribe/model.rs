//! The local Whisper model file: where it lives, how big it must be, and the
//! bookkeeping of its download.

use crate::config::{join_path, joined, models_dir_in, models_dir_of, user_config_dir, ConfigError};
use std::path::PathBuf;
use vstd::prelude::*;

verus! {

/// File name of the model weights.
pub const FILE: &'static str = "ggml-large-v3-turbo-q5_0.bin";
/// Where the weights are downloaded from.
pub const URL: &'static str = "https://huggingface.co/ggerganov/whisper.cpp/resolve/main/ggml-large-v3-turbo-q5_0.bin";
/// Expected size in bytes, a cheap integrity gate before a file is trusted.
pub const EXPECTED_BYTES: u64 = 574_041_195;

/// The model file under the user configuration directory `b`.
pub open spec fn model_file_of(b: PathBuf) -> PathBuf {
    joined(models_dir_of(b), FILE@)
}

/// The model file under a given user configuration directory:
/// `Hlas/models/FILE`; an error when there is none.
pub fn model_file_in(base: Option<PathBuf>) -> (r: Result<PathBuf, ConfigError>)
    ensures
        r is Err <==> base is None,
        base matches Some(b) ==> r == Ok::<PathBuf, ConfigError>(model_file_of(b)),
        r is Err ==> r == Err::<PathBuf, ConfigError>(ConfigError::NoConfigDir),
{
    let dir = models_dir_in(base)?;
    Ok(join_path(&dir, FILE))
}

/// The model file: `FILE` in the models directory.
pub fn path() -> (r: Result<PathBuf, ConfigError>)
    ensures
        r is Err ==> r == Err::<PathBuf, ConfigError>(ConfigError::NoConfigDir),
        r matches Ok(p) ==> exists|b: PathBuf| p == model_file_of(b),
{
    model_file_in(user_config_dir())
}

/// Whether a file of `len` bytes counts as the complete model.
pub fn is_complete_size(len: u64) -> (ok: bool)
    ensures
        ok == (len == EXPECTED_BYTES),
{
    len == EXPECTED_BYTES
}

/// Why a downloaded model was rejected.
#[derive(Debug, Clone, Copy, PartialEq, Eq, Structural)]
pub enum ModelError {
    /// The download does not have the expected size.
    SizeMismatch { got: u64, expected: u64 },
}

/// Progress of one model download.
#[derive(Debug, Clone, Copy, PartialEq, Eq, Structural)]
pub struct Download {
    /// Bytes received so far.
    pub downloaded: u64,
    /// Bytes announced by the server, or the expected size when it announces
    /// none.
    pub total: u64,
}

impl Download {
    /// A download that has received nothing, of the announced length.
    pub fn start(content_length: Option<u64>) -> (d: Download)
        ensures
            d.downloaded == 0,
            content_length matches Some(n) ==> d.total == n,
            content_length is None ==> d.total == EXPECTED_BYTES,
    {
        let total: u64 = match content_length {
            Some(n) => n,
            None => EXPECTED_BYTES,
        };
        Download { downloaded: 0, total }
    }

    /// Records a received chunk of `n` bytes and returns the progress
    /// `(downloaded, total)` to report.
    pub fn record_chunk(&mut self, n: u64) -> (p: (u64, u64))
        requires
            old(self).downloaded + n <= u64::MAX,
        ensures
            final(self).downloaded == old(self).downloaded + n,
            final(self).total == old(self).total,
            p == (final(self).downloaded, final(self).total),
    {
        self.downloaded = self.downloaded + n;
        (self.downloaded, self.total)
    }
}

/// Accepts a finished download of `got` bytes only when it has exactly the
/// expected size.
pub fn check_download_size(got: u64) -> (r: Result<(), ModelError>)
    ensures
        r is Ok <==> got == EXPECTED_BYTES,
        r is Err ==> r == Err::<(), ModelError>(ModelError::SizeMismatch { got, expected: EXPECTED_BYTES }),
{
    if got != EXPECTED_BYTES {
        Err(ModelError::SizeMismatch { got, expected: EXPECTED_BYTES })
    } else {
        Ok(())
    }
}

/// One mebibyte.
pub const MIB: u64 = 1024 * 1024;

/// Whether progress at `downloaded` bytes is logged: once near each 32 MiB
/// boundary, within the first 64 KiB past it.
pub open spec fn reports_progress(downloaded: u64) -> bool {
    (downloaded as int) % (32 * MIB as int) < 64 * 1024
}

/// The progress line to log at `downloaded` of `total` bytes: whole mebibytes
/// received and announced, or nothing between the 32 MiB marks.
pub fn progress_report(downloaded: u64, total: u64) -> (r: Option<(u64, u64)>)
    ensures
        reports_progress(downloaded) ==> r == Some(((downloaded as int / MIB as int) as u64, (total as int / MIB as int) as u64)),
        !reports_progress(downloaded) ==> r is None,
{
    if downloaded % (32 * 1024 * 1024) < 64 * 1024 {
        Some((downloaded / 1024 / 1024, total / 1024 / 1024))
    } else {
        None
    }
}

} // verus!
