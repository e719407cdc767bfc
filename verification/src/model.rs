//! Where a speech model stands between download and use.

use std::sync::atomic::AtomicBool;
use std::sync::Arc;
use vstd::prelude::*;
use crate::messages::{model_load_failed, model_load_failed_text};
use crate::strings::str_eq;

verus! {

/// The engine that runs a model.
#[derive(Debug, Clone, Copy, PartialEq, Eq, Structural)]
pub enum EngineType {
    Whisper,
    Parakeet,
    Moonshine,
    SenseVoice,
}

/// The state of a model.
#[derive(Debug, Clone)]
pub enum ModelState {
    /// The model can be downloaded.
    Available,
    /// The download runs; raising the flag cancels it.
    Downloading { bytes_downloaded: u64, bytes_total: u64, cancel_flag: Arc<AtomicBool> },
    /// The download is through and its archive is being unpacked.
    Extracting { progress_message: String },
    /// The model can be used.
    Ready,
    /// Something failed; `retryable` says whether another attempt may help.
    Error { message: String, retryable: bool },
}

impl ModelState {
    /// Whether a download may start: the model is available, or an earlier
    /// attempt failed.
    pub fn can_download(&self) -> (r: bool)
        ensures
            r == (self is Available || self is Error),
    {
        match self {
            ModelState::Available => true,
            ModelState::Error { .. } => true,
            _ => false,
        }
    }

    /// Whether the download runs.
    pub fn is_downloading(&self) -> (r: bool)
        ensures
            r == (self is Downloading),
    {
        match self {
            ModelState::Downloading { .. } => true,
            _ => false,
        }
    }

    /// Whether the archive is being unpacked.
    pub fn is_extracting(&self) -> (r: bool)
        ensures
            r == (self is Extracting),
    {
        match self {
            ModelState::Extracting { .. } => true,
            _ => false,
        }
    }

    /// Whether the model can be used.
    pub fn is_ready(&self) -> (r: bool)
        ensures
            r == (self is Ready),
    {
        match self {
            ModelState::Ready => true,
            _ => false,
        }
    }

    /// The flag that cancels the download, while one runs.
    pub fn cancel_flag(&self) -> (flag: Option<Arc<AtomicBool>>)
        ensures
            flag == match self {
                ModelState::Downloading { cancel_flag, .. } => Some(*cancel_flag),
                _ => None,
            },
    {
        match self {
            ModelState::Downloading { cancel_flag, .. } => Some(cancel_flag.clone()),
            _ => None,
        }
    }

    /// The share of the download that is through, in hundredths of a
    /// percent; 0 where the total is not known. None unless a download runs.
    pub fn progress_basis_points(&self) -> (progress: Option<u64>)
        ensures
            progress == match self {
                ModelState::Downloading { bytes_downloaded, bytes_total, .. } => Some(
                    if *bytes_total == 0 {
                        0u64
                    } else if *bytes_downloaded >= *bytes_total {
                        10000u64
                    } else {
                        ((*bytes_downloaded as int) * 10000 / (*bytes_total as int)) as u64
                    },
                ),
                _ => None,
            },
    {
        match self {
            ModelState::Downloading { bytes_downloaded, bytes_total, .. } => {
                if *bytes_total == 0 {
                    Some(0)
                } else if *bytes_downloaded >= *bytes_total {
                    Some(10000)
                } else {
                    let scaled: u128 = (*bytes_downloaded as u128) * 10000;
                    let share: u128 = scaled / (*bytes_total as u128);
                    assert(share <= 10000) by (nonlinear_arith)
                        requires
                            share == scaled / (*bytes_total as u128),
                            scaled == (*bytes_downloaded as u128) * 10000,
                            *bytes_downloaded < *bytes_total,
                    ;
                    Some(share as u64)
                }
            },
            _ => None,
        }
    }
}

/// The news that a model has changed its state.
#[derive(Debug, Clone)]
pub struct ModelStateEvent {
    pub model_id: String,
    pub state: ModelState,
}

/// How long after a failed load for want of files no new load is tried, in
/// milliseconds.
pub const LOAD_RETRY_COOLDOWN_MS: u64 = 3000;

/// Why a model could not be loaded.
#[derive(Clone, Copy, Debug, PartialEq, Eq, Structural)]
pub enum ModelLoadFailureKind {
    MissingModel,
    MissingPath,
    EngineLoadFailed,
}

impl ModelLoadFailureKind {
    /// The stable name of the kind.
    pub open spec fn label_text(self) -> Seq<char> {
        match self {
            ModelLoadFailureKind::MissingModel => "missing_model"@,
            ModelLoadFailureKind::MissingPath => "missing_path"@,
            ModelLoadFailureKind::EngineLoadFailed => "engine_load_failed"@,
        }
    }

    /// What the user can do about a failure of the kind.
    pub open spec fn hint_text(self) -> Seq<char> {
        match self {
            ModelLoadFailureKind::MissingModel => {
                "Download the selected model or choose a different downloaded model."@
            },
            ModelLoadFailureKind::MissingPath => {
                "Model files look incomplete. Re-download the selected model."@
            },
            ModelLoadFailureKind::EngineLoadFailed => {
                "Retry load; if it persists, re-download the selected model."@
            },
        }
    }

    /// The stable name of the kind.
    pub fn failure_kind_label(self) -> (label: &'static str)
        ensures
            label@ == self.label_text(),
    {
        match self {
            ModelLoadFailureKind::MissingModel => "missing_model",
            ModelLoadFailureKind::MissingPath => "missing_path",
            ModelLoadFailureKind::EngineLoadFailed => "engine_load_failed",
        }
    }

    /// What the user can do about a failure of the kind.
    pub fn failure_hint(self) -> (hint: &'static str)
        ensures
            hint@ == self.hint_text(),
    {
        match self {
            ModelLoadFailureKind::MissingModel => {
                "Download the selected model or choose a different downloaded model."
            },
            ModelLoadFailureKind::MissingPath => {
                "Model files look incomplete. Re-download the selected model."
            },
            ModelLoadFailureKind::EngineLoadFailed => {
                "Retry load; if it persists, re-download the selected model."
            },
        }
    }
}

/// The last failed load of a model.
#[derive(Clone, Debug)]
pub struct ModelLoadFailure {
    pub model_id: String,
    pub kind: ModelLoadFailureKind,
    pub message: String,
    pub at_ms: u64,
}

/// Whether a load that was begun for `expected_model` in `expected_epoch`
/// is out of date: the selection or the epoch has changed since.
pub fn is_stale_load(
    expected_model: &str,
    expected_epoch: u64,
    selected_model: &str,
    current_epoch: u64,
) -> (stale: bool)
    ensures
        stale == (current_epoch != expected_epoch || selected_model@ != expected_model@),
{
    current_epoch != expected_epoch || !str_eq(selected_model, expected_model)
}

/// Whether `failure` holds off a new load at `now_ms`: it was for want of
/// the model or its files, and less than three seconds have passed.
pub open spec fn throttles(failure: ModelLoadFailure, now_ms: u64) -> bool {
    (failure.kind == ModelLoadFailureKind::MissingModel || failure.kind
        == ModelLoadFailureKind::MissingPath) && now_ms - failure.at_ms < LOAD_RETRY_COOLDOWN_MS
}

/// Whether `failure` holds off a new load at `now_ms`.
pub fn should_throttle_failure(failure: &ModelLoadFailure, now_ms: u64) -> (throttle: bool)
    ensures
        throttle == throttles(*failure, now_ms),
{
    match failure.kind {
        ModelLoadFailureKind::MissingModel | ModelLoadFailureKind::MissingPath => {
            now_ms.saturating_sub(failure.at_ms) < LOAD_RETRY_COOLDOWN_MS
        },
        ModelLoadFailureKind::EngineLoadFailed => false,
    }
}

/// Whether a load of `model_id` is held off at `now_ms` by the last
/// failure: only a failure of the same model holds it off.
pub fn should_throttle_load_attempt(
    last_failure: &Option<ModelLoadFailure>,
    model_id: &str,
    now_ms: u64,
) -> (throttle: bool)
    ensures
        throttle == (*last_failure matches Some(failure) && failure.model_id@ == model_id@
            && throttles(failure, now_ms)),
{
    match last_failure {
        Some(failure) => {
            if !str_eq(failure.model_id.as_str(), model_id) {
                return false;
            }
            should_throttle_failure(failure, now_ms)
        },
        None => false,
    }
}

/// Forgets the last failure if it was of `model_id`.
pub fn clear_load_failure(last_failure: &mut Option<ModelLoadFailure>, model_id: &str)
    ensures
        *final(last_failure) == if *old(last_failure) matches Some(failure) && failure.model_id@
            == model_id@ {
            None
        } else {
            *old(last_failure)
        },
{
    let matches_model = match last_failure {
        Some(failure) => str_eq(failure.model_id.as_str(), model_id),
        None => false,
    };
    if matches_model {
        *last_failure = None;
    }
}

/// The message for a selected model whose last load failed; none if no
/// model is selected or the last failure was of another model.
pub fn selected_model_failure_message(
    last_failure: &Option<ModelLoadFailure>,
    selected_model: &str,
) -> (message: Option<String>)
    ensures
        match message {
            Some(text) => {
                &&& selected_model@.len() > 0
                &&& *last_failure matches Some(failure)
                &&& failure.model_id@ == selected_model@
                &&& text@ == model_load_failed_text(
                    selected_model@,
                    failure.message@,
                    failure.kind.label_text(),
                    failure.kind.hint_text(),
                )
            },
            None => selected_model@.len() == 0 || !(*last_failure matches Some(failure)
                && failure.model_id@ == selected_model@),
        },
{
    if selected_model.is_empty() {
        return None;
    }
    match last_failure {
        Some(failure) => {
            if str_eq(failure.model_id.as_str(), selected_model) {
                Some(
                    model_load_failed(
                        selected_model,
                        failure.message.as_str(),
                        failure.kind.failure_kind_label(),
                        failure.kind.failure_hint(),
                    ),
                )
            } else {
                None
            }
        },
        None => None,
    }
}

} // verus!
