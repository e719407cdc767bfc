//! What the recorder reports to the session layer.

use vstd::prelude::*;
use vstd::string::StringExecFns;
use crate::strings::{contains_text, str_contains, str_eq};

verus! {

/// Whether the recorder is in use, and for which binding.
#[derive(Clone, Debug)]
pub enum RecordingState {
    Idle,
    Recording { binding_id: String },
}

/// When the microphone stream is open.
#[derive(Clone, Copy, Debug, PartialEq, Eq, Structural)]
pub enum MicrophoneMode {
    AlwaysOn,
    OnDemand,
}

/// Why a recording could not start.
#[derive(Clone, Debug)]
pub enum RecordingStartError {
    /// Another recording runs, for this binding if it is known.
    Busy { active_binding_id: Option<String> },
    NoInputDevice,
    VadModelMissing,
    MicrophoneOpenFailed(String),
    RecorderUnavailable,
    RecorderStartFailed(String),
}

impl RecordingStartError {
    /// The stable code of the error.
    pub open spec fn code_text(&self) -> Seq<char> {
        match self {
            RecordingStartError::Busy { .. } => "busy"@,
            RecordingStartError::NoInputDevice => "no_input_device"@,
            RecordingStartError::VadModelMissing => "vad_model_missing"@,
            RecordingStartError::MicrophoneOpenFailed(_) => "mic_open_failed"@,
            RecordingStartError::RecorderUnavailable => "recorder_unavailable"@,
            RecordingStartError::RecorderStartFailed(_) => "recorder_start_failed"@,
        }
    }

    /// The human detail of the error.
    pub open spec fn detail_text(&self) -> Seq<char> {
        match self {
            RecordingStartError::Busy { active_binding_id: Some(binding) } => {
                "Recording already active for binding "@ + binding@
            },
            RecordingStartError::Busy { active_binding_id: None } => "Recording already active"@,
            RecordingStartError::NoInputDevice => "No input device found"@,
            RecordingStartError::VadModelMissing => "Silero VAD model is missing"@,
            RecordingStartError::MicrophoneOpenFailed(msg) => msg@,
            RecordingStartError::RecorderUnavailable => "Recorder is not available"@,
            RecordingStartError::RecorderStartFailed(msg) => msg@,
        }
    }

    /// The stable, machine-readable code of the error.
    pub fn code(&self) -> (code: &'static str)
        ensures
            code@ == self.code_text(),
    {
        match self {
            RecordingStartError::Busy { .. } => "busy",
            RecordingStartError::NoInputDevice => "no_input_device",
            RecordingStartError::VadModelMissing => "vad_model_missing",
            RecordingStartError::MicrophoneOpenFailed(_) => "mic_open_failed",
            RecordingStartError::RecorderUnavailable => "recorder_unavailable",
            RecordingStartError::RecorderStartFailed(_) => "recorder_start_failed",
        }
    }

    /// The detail of the error for a human reader.
    pub fn detail(&self) -> (detail: String)
        ensures
            detail@ == self.detail_text(),
    {
        match self {
            RecordingStartError::Busy { active_binding_id } => match active_binding_id {
                Some(binding) => String::from_str("Recording already active for binding ").concat(
                    binding.as_str(),
                ),
                None => String::from_str("Recording already active"),
            },
            RecordingStartError::NoInputDevice => String::from_str("No input device found"),
            RecordingStartError::VadModelMissing => String::from_str("Silero VAD model is missing"),
            RecordingStartError::MicrophoneOpenFailed(msg) => msg.clone(),
            RecordingStartError::RecorderUnavailable => String::from_str("Recorder is not available"),
            RecordingStartError::RecorderStartFailed(msg) => msg.clone(),
        }
    }
}

/// The number of samples below which a recording is padded.
pub const WHISPER_SAMPLE_RATE: usize = 16000;

/// The number of samples that a short recording is padded to.
pub const PADDED_SAMPLES: usize = 20000;

/// What the recorder answered when it was asked to start.
pub enum RecorderStart {
    /// The microphone stream could not be opened, with the reason.
    OpenFailed(String),
    /// There is no recorder.
    Unavailable,
    /// The recorder refused to start, with the reason.
    StartFailed(String),
    /// The recorder runs.
    Started,
}

/// Reads the kind of a failure to open the microphone stream out of its
/// message: no input device, no voice detection model, or anything else,
/// which keeps the message.
pub fn map_open_failure_to_start_error(message: &str) -> (error: RecordingStartError)
    ensures
        match error {
            RecordingStartError::NoInputDevice => contains_text(
                message@,
                "No input device found"@,
            ),
            RecordingStartError::VadModelMissing => {
                &&& !contains_text(message@, "No input device found"@)
                &&& contains_text(message@, "Silero VAD model not found"@)
            },
            RecordingStartError::MicrophoneOpenFailed(kept) => {
                &&& !contains_text(message@, "No input device found"@)
                &&& !contains_text(message@, "Silero VAD model not found"@)
                &&& kept@ == message@
            },
            _ => false,
        },
{
    if str_contains(message, "No input device found") {
        RecordingStartError::NoInputDevice
    } else if str_contains(message, "Silero VAD model not found") {
        RecordingStartError::VadModelMissing
    } else {
        RecordingStartError::MicrophoneOpenFailed(String::from_str(message))
    }
}

impl RecordingState {
    /// Whether a recording runs.
    pub fn is_recording(&self) -> (r: bool)
        ensures
            r == (self is Recording),
    {
        match self {
            RecordingState::Recording { .. } => true,
            RecordingState::Idle => false,
        }
    }

    /// Whether a recording runs for `binding_id`.
    pub fn is_active_binding(&self, binding_id: &str) -> (r: bool)
        ensures
            r == (*self matches RecordingState::Recording { binding_id: active } && active@
                == binding_id@),
    {
        match self {
            RecordingState::Recording { binding_id: active } => str_eq(active.as_str(), binding_id),
            RecordingState::Idle => false,
        }
    }

    /// The error for a start while a recording runs: busy, with the binding
    /// that the recording runs for. None while the recorder is idle.
    pub fn busy_error(&self) -> (error: Option<RecordingStartError>)
        ensures
            match error {
                Some(RecordingStartError::Busy { active_binding_id: Some(named) }) => {
                    *self matches RecordingState::Recording { binding_id: active } && active@
                        == named@
                },
                Some(_) => false,
                None => *self is Idle,
            },
    {
        match self {
            RecordingState::Recording { binding_id } => Some(
                RecordingStartError::Busy { active_binding_id: Some(binding_id.clone()) },
            ),
            RecordingState::Idle => None,
        }
    }

    /// Takes the recorder's answer to a start for `binding_id`.
    ///
    /// While a recording runs, the start is refused as busy, whatever the
    /// answer, and the recording goes on. Else a recorder that runs makes
    /// the state a recording for the binding, and every other answer is an
    /// error and leaves the recorder idle.
    pub fn try_start_recording(&mut self, binding_id: &str, answer: RecorderStart) -> (started:
        Result<(), RecordingStartError>)
        ensures
            *old(self) matches RecordingState::Recording { binding_id: active } ==> {
                &&& *final(self) == *old(self)
                &&& started matches Err(
                    RecordingStartError::Busy { active_binding_id: Some(named) },
                )
                &&& named@ == active@
            },
            *old(self) is Idle ==> match answer {
                RecorderStart::Started => {
                    &&& started is Ok
                    &&& *final(self) matches RecordingState::Recording { binding_id: active }
                    &&& active@ == binding_id@
                },
                RecorderStart::Unavailable => {
                    &&& started matches Err(RecordingStartError::RecorderUnavailable)
                    &&& *final(self) is Idle
                },
                RecorderStart::StartFailed(detail) => {
                    &&& started matches Err(RecordingStartError::RecorderStartFailed(kept))
                    &&& kept@ == detail@
                    &&& *final(self) is Idle
                },
                RecorderStart::OpenFailed(message) => {
                    &&& started matches Err(error)
                    &&& *final(self) is Idle
                    &&& match error {
                        RecordingStartError::NoInputDevice => contains_text(
                            message@,
                            "No input device found"@,
                        ),
                        RecordingStartError::VadModelMissing => {
                            &&& !contains_text(message@, "No input device found"@)
                            &&& contains_text(message@, "Silero VAD model not found"@)
                        },
                        RecordingStartError::MicrophoneOpenFailed(kept) => {
                            &&& !contains_text(message@, "No input device found"@)
                            &&& !contains_text(message@, "Silero VAD model not found"@)
                            &&& kept@ == message@
                        },
                        _ => false,
                    }
                },
            },
    {
        match self.busy_error() {
            Some(busy) => {
                return Err(busy);
            },
            None => {},
        }
        match answer {
            RecorderStart::Started => {
                *self = RecordingState::Recording { binding_id: String::from_str(binding_id) };
                Ok(())
            },
            RecorderStart::Unavailable => Err(RecordingStartError::RecorderUnavailable),
            RecorderStart::StartFailed(detail) => Err(
                RecordingStartError::RecorderStartFailed(detail),
            ),
            RecorderStart::OpenFailed(message) => Err(
                map_open_failure_to_start_error(message.as_str()),
            ),
        }
    }

    /// Ends the recording of `binding_id`, and says whether there was one:
    /// a recording for another binding goes on.
    pub fn stop_recording(&mut self, binding_id: &str) -> (stopped: bool)
        ensures
            stopped == (*old(self) matches RecordingState::Recording { binding_id: active }
                && active@ == binding_id@),
            stopped ==> *final(self) is Idle,
            !stopped ==> *final(self) == *old(self),
    {
        if self.is_active_binding(binding_id) {
            *self = RecordingState::Idle;
            true
        } else {
            false
        }
    }
}

/// The number of samples that a stopped recording of `samples` samples is
/// handed on with: a recording of less than a second is padded with
/// silence to a second and a quarter; an empty one stays empty.
pub fn padded_sample_count(samples: usize) -> (padded: usize)
    ensures
        padded == if 0 < samples < WHISPER_SAMPLE_RATE {
            PADDED_SAMPLES
        } else {
            samples
        },
{
    if samples < WHISPER_SAMPLE_RATE && samples > 0 {
        PADDED_SAMPLES
    } else {
        samples
    }
}

} // verus!
