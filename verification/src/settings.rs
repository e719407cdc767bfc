//! The values that the settings hold.

use vstd::prelude::*;
use vstd::string::StringExecFns;

verus! {

/// How much the daemon logs.
#[derive(Debug, Clone, Copy, PartialEq, Eq, Structural)]
pub enum LogLevel {
    Trace,
    Debug,
    Info,
    Warn,
    Error,
}

impl Default for LogLevel {
    /// The level that is used where the settings name none.
    fn default() -> (level: Self)
        ensures
            level == LogLevel::Debug,
    {
        LogLevel::Debug
    }
}

impl LogLevel {
    /// The number of the level in the settings.
    pub open spec fn index(self) -> int {
        match self {
            LogLevel::Trace => 0,
            LogLevel::Debug => 1,
            LogLevel::Info => 2,
            LogLevel::Warn => 3,
            LogLevel::Error => 4,
        }
    }

    /// The level with the number `value`; the default for a number that
    /// stands for none.
    pub open spec fn of_index(value: int) -> LogLevel {
        if value == 0 {
            LogLevel::Trace
        } else if value == 2 {
            LogLevel::Info
        } else if value == 3 {
            LogLevel::Warn
        } else if value == 4 {
            LogLevel::Error
        } else {
            LogLevel::Debug
        }
    }

    /// The level with the number `value`; the default for a number that
    /// stands for none.
    pub fn from_setting(value: i32) -> (level: Self)
        ensures
            level == LogLevel::of_index(value as int),
    {
        match value {
            0 => LogLevel::Trace,
            1 => LogLevel::Debug,
            2 => LogLevel::Info,
            3 => LogLevel::Warn,
            4 => LogLevel::Error,
            _ => LogLevel::Debug,
        }
    }

    /// The number of the level in the settings.
    pub fn to_setting(self) -> (value: i32)
        ensures
            value == self.index(),
    {
        match self {
            LogLevel::Trace => 0,
            LogLevel::Debug => 1,
            LogLevel::Info => 2,
            LogLevel::Warn => 3,
            LogLevel::Error => 4,
        }
    }
}

/// A level survives the way through the settings.
pub proof fn log_level_round_trip(level: LogLevel)
    ensures
        LogLevel::of_index(level.index()) == level,
{
}

/// Which sounds mark the start and the stop of a recording.
#[derive(Debug, Clone, Copy, PartialEq, Eq, Structural)]
pub enum SoundTheme {
    Marimba,
    Pop,
    Custom,
}

impl Default for SoundTheme {
    /// The theme that is used where the settings name none.
    fn default() -> (theme: Self)
        ensures
            theme == SoundTheme::Marimba,
    {
        SoundTheme::Marimba
    }
}

impl SoundTheme {
    /// The name of the theme in the settings.
    pub open spec fn name(self) -> Seq<char> {
        match self {
            SoundTheme::Marimba => "marimba"@,
            SoundTheme::Pop => "pop"@,
            SoundTheme::Custom => "custom"@,
        }
    }

    /// The number of the theme in the settings.
    pub open spec fn index(self) -> int {
        match self {
            SoundTheme::Marimba => 0,
            SoundTheme::Pop => 1,
            SoundTheme::Custom => 2,
        }
    }

    /// The name of the theme in the settings.
    pub fn as_str(&self) -> (name: &'static str)
        ensures
            name@ == self.name(),
    {
        match self {
            SoundTheme::Marimba => "marimba",
            SoundTheme::Pop => "pop",
            SoundTheme::Custom => "custom",
        }
    }

    /// The theme with the number `value`; the default for a number that
    /// stands for none.
    pub open spec fn of_index(value: int) -> SoundTheme {
        if value == 1 {
            SoundTheme::Pop
        } else if value == 2 {
            SoundTheme::Custom
        } else {
            SoundTheme::Marimba
        }
    }

    /// The theme with the number `value`; the default for a number that
    /// stands for none.
    pub fn from_setting(value: i32) -> (theme: Self)
        ensures
            theme == SoundTheme::of_index(value as int),
    {
        match value {
            0 => SoundTheme::Marimba,
            1 => SoundTheme::Pop,
            2 => SoundTheme::Custom,
            _ => SoundTheme::Marimba,
        }
    }

    /// The number of the theme in the settings.
    pub fn to_setting(self) -> (value: i32)
        ensures
            value == self.index(),
    {
        match self {
            SoundTheme::Marimba => 0,
            SoundTheme::Pop => 1,
            SoundTheme::Custom => 2,
        }
    }
}

/// A theme survives the way through the settings.
pub proof fn sound_theme_round_trip(theme: SoundTheme)
    ensures
        SoundTheme::of_index(theme.index()) == theme,
{
}

/// After how long without use the model is unloaded.
#[derive(Debug, Clone, Copy, PartialEq, Eq, Structural)]
pub enum ModelUnloadTimeout {
    Never,
    Immediately,
    Min2,
    Min5,
    Min10,
    Min15,
    Hour1,
    Sec5,
}

impl Default for ModelUnloadTimeout {
    /// The timeout that is used where the settings name none.
    fn default() -> (timeout: Self)
        ensures
            timeout == ModelUnloadTimeout::Never,
    {
        ModelUnloadTimeout::Never
    }
}

impl ModelUnloadTimeout {
    /// The timeout in seconds; none for a model that is never unloaded.
    pub open spec fn seconds(self) -> Option<u64> {
        match self {
            ModelUnloadTimeout::Never => None,
            ModelUnloadTimeout::Immediately => Some(0),
            ModelUnloadTimeout::Sec5 => Some(5),
            ModelUnloadTimeout::Min2 => Some(120),
            ModelUnloadTimeout::Min5 => Some(300),
            ModelUnloadTimeout::Min10 => Some(600),
            ModelUnloadTimeout::Min15 => Some(900),
            ModelUnloadTimeout::Hour1 => Some(3600),
        }
    }

    /// The number of the timeout in the settings.
    pub open spec fn index(self) -> int {
        match self {
            ModelUnloadTimeout::Never => 0,
            ModelUnloadTimeout::Immediately => 1,
            ModelUnloadTimeout::Min2 => 2,
            ModelUnloadTimeout::Min5 => 3,
            ModelUnloadTimeout::Min10 => 4,
            ModelUnloadTimeout::Min15 => 5,
            ModelUnloadTimeout::Hour1 => 6,
            ModelUnloadTimeout::Sec5 => 7,
        }
    }

    /// The timeout with the number `value`; the default for a number that
    /// stands for none.
    pub open spec fn of_index(value: int) -> ModelUnloadTimeout {
        if value == 1 {
            ModelUnloadTimeout::Immediately
        } else if value == 2 {
            ModelUnloadTimeout::Min2
        } else if value == 3 {
            ModelUnloadTimeout::Min5
        } else if value == 4 {
            ModelUnloadTimeout::Min10
        } else if value == 5 {
            ModelUnloadTimeout::Min15
        } else if value == 6 {
            ModelUnloadTimeout::Hour1
        } else if value == 7 {
            ModelUnloadTimeout::Sec5
        } else {
            ModelUnloadTimeout::Never
        }
    }

    /// The timeout with the number `value`; the default for a number that
    /// stands for none.
    pub fn from_setting(value: i32) -> (timeout: Self)
        ensures
            timeout == ModelUnloadTimeout::of_index(value as int),
    {
        match value {
            0 => ModelUnloadTimeout::Never,
            1 => ModelUnloadTimeout::Immediately,
            2 => ModelUnloadTimeout::Min2,
            3 => ModelUnloadTimeout::Min5,
            4 => ModelUnloadTimeout::Min10,
            5 => ModelUnloadTimeout::Min15,
            6 => ModelUnloadTimeout::Hour1,
            7 => ModelUnloadTimeout::Sec5,
            _ => ModelUnloadTimeout::Never,
        }
    }

    /// The number of the timeout in the settings.
    pub fn to_setting(self) -> (value: i32)
        ensures
            value == self.index(),
    {
        match self {
            ModelUnloadTimeout::Never => 0,
            ModelUnloadTimeout::Immediately => 1,
            ModelUnloadTimeout::Min2 => 2,
            ModelUnloadTimeout::Min5 => 3,
            ModelUnloadTimeout::Min10 => 4,
            ModelUnloadTimeout::Min15 => 5,
            ModelUnloadTimeout::Hour1 => 6,
            ModelUnloadTimeout::Sec5 => 7,
        }
    }

    /// The timeout in seconds; none for a model that is never unloaded.
    pub fn to_seconds(self) -> (seconds: Option<u64>)
        ensures
            seconds == self.seconds(),
    {
        match self {
            ModelUnloadTimeout::Never => None,
            ModelUnloadTimeout::Immediately => Some(0),
            ModelUnloadTimeout::Sec5 => Some(5),
            ModelUnloadTimeout::Min2 => Some(120),
            ModelUnloadTimeout::Min5 => Some(300),
            ModelUnloadTimeout::Min10 => Some(600),
            ModelUnloadTimeout::Min15 => Some(900),
            ModelUnloadTimeout::Hour1 => Some(3600),
        }
    }
}

/// A prompt for the rewriting of a transcript.
#[derive(Debug, Clone)]
pub struct LLMPrompt {
    pub id: String,
    pub name: String,
    /// The prompt's text; `${output}` stands for the transcript.
    pub prompt: String,
}

/// A service that rewrites transcripts.
#[derive(Debug, Clone)]
pub struct PostProcessProvider {
    pub id: String,
    pub label: String,
    pub base_url: String,
    /// Whether the user may change the address.
    pub allow_base_url_edit: bool,
}

/// A timeout survives the way through the settings.
pub proof fn unload_timeout_round_trip(timeout: ModelUnloadTimeout)
    ensures
        ModelUnloadTimeout::of_index(timeout.index()) == timeout,
{
}

/// The device that a setting names; none for an empty setting.
pub fn optional_setting(value: &str) -> (setting: Option<String>)
    ensures
        match setting {
            Some(name) => value@.len() > 0 && name@ == value@,
            None => value@.len() == 0,
        },
{
    if value.is_empty() {
        None
    } else {
        Some(String::from_str(value))
    }
}

} // verus!
