//! What the listener needs to know of the desktop session that it runs in.

use vstd::prelude::*;
use crate::settings::SoundTheme;
use crate::strings::{eq_ignoring_ascii_case, str_eq_ignore_ascii_case, trim, trimmed};

verus! {

/// Whether `user` names the login greeter.
pub open spec fn is_greeter_user(user: Seq<char>) -> bool {
    eq_ignoring_ascii_case(trimmed(user), "gdm"@) || eq_ignoring_ascii_case(
        trimmed(user),
        "gdm-greeter"@,
    )
}

/// Whether `session_class` is the class of the login greeter's session.
pub open spec fn is_greeter_class(session_class: Seq<char>) -> bool {
    eq_ignoring_ascii_case(trimmed(session_class), "greeter"@)
}

/// Whether the session belongs to the login greeter: by the user's name, or
/// by the class of the session. Notifications are not shown there.
pub fn is_greeter_session_from(user: Option<&str>, session_class: Option<&str>) -> (restricted: bool)
    ensures
        restricted == ((match user {
            Some(u) => is_greeter_user(u@),
            None => false,
        }) || (match session_class {
            Some(class) => is_greeter_class(class@),
            None => false,
        })),
{
    let is_greeter_user = match user {
        Some(u) => {
            let name = trim(u);
            str_eq_ignore_ascii_case(name, "gdm") || str_eq_ignore_ascii_case(name, "gdm-greeter")
        },
        None => false,
    };
    let is_greeter_class = match session_class {
        Some(class) => str_eq_ignore_ascii_case(trim(class), "greeter"),
        None => false,
    };
    is_greeter_user || is_greeter_class
}

/// Which of the two feedback sounds is meant.
#[derive(Clone, Copy, Debug, PartialEq, Eq, Structural)]
pub enum SoundType {
    Start,
    Stop,
}

/// The name of the file that holds the sound of `sound_type` in `theme`.
pub open spec fn sound_file(theme: SoundTheme, sound_type: SoundType) -> Seq<char> {
    match (theme, sound_type) {
        (SoundTheme::Custom, SoundType::Start) => "custom_start.wav"@,
        (SoundTheme::Custom, SoundType::Stop) => "custom_stop.wav"@,
        (SoundTheme::Pop, SoundType::Start) => "pop_start.wav"@,
        (SoundTheme::Pop, SoundType::Stop) => "pop_stop.wav"@,
        (SoundTheme::Marimba, SoundType::Start) => "marimba_start.wav"@,
        (SoundTheme::Marimba, SoundType::Stop) => "marimba_stop.wav"@,
    }
}

/// The name of the file that holds the sound of `sound_type` in `theme`.
pub fn sound_file_name(theme: SoundTheme, sound_type: SoundType) -> (name: &'static str)
    ensures
        name@ == sound_file(theme, sound_type),
{
    match (theme, sound_type) {
        (SoundTheme::Custom, SoundType::Start) => "custom_start.wav",
        (SoundTheme::Custom, SoundType::Stop) => "custom_stop.wav",
        (SoundTheme::Pop, SoundType::Start) => "pop_start.wav",
        (SoundTheme::Pop, SoundType::Stop) => "pop_stop.wav",
        (SoundTheme::Marimba, SoundType::Start) => "marimba_start.wav",
        (SoundTheme::Marimba, SoundType::Stop) => "marimba_stop.wav",
    }
}

/// A transcript, and what the rewriting made of it if it was rewritten.
#[derive(Debug, Clone)]
pub struct TranscriptionResult {
    pub text: String,
    pub post_processed: Option<String>,
}

} // verus!
