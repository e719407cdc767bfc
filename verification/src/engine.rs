//! Switching the input source to the dictation engine, and confirming the
//! switch.
//!
//! The input method framework is asked outside this library. What to ask
//! next, and what to conclude from each answer, is decided here.

use vstd::prelude::*;
use vstd::string::StringExecFns;
use crate::messages::{
    switch_attempt, switch_attempt_text, switch_gave_up, switch_gave_up_text,
    switch_not_confirmed, switch_not_confirmed_text,
};
use crate::strings::{
    contains_text, ends_with, is_blank, range_eq, starts_with, str_contains, str_ends_with,
    str_eq, str_is_blank, str_starts_with, to_chars, trim, trimmed,
};

verus! {

/// The name of the dictation engine.
pub const DIKT_ENGINE_NAME: &'static str = "dikt";

/// The name under which the dictation engine is also known.
pub const DIKT_ENGINE_FALLBACK_NAME: &'static str = "other:dikt";

/// The time between two reads of the current engine, in milliseconds.
pub const ENGINE_SWITCH_POLL_MS: u64 = 20;

/// The time between two requests to switch, in milliseconds.
pub const ENGINE_SWITCH_SET_RETRY_MS: u64 = 120;

/// Whether `engine_name` names the dictation engine: `dikt` itself, or a
/// name that ends with `:dikt`.
pub open spec fn names_dikt(engine_name: Seq<char>) -> bool {
    engine_name == "dikt"@ || ends_with(engine_name, ":dikt"@)
}

/// Whether `current` is the engine that a switch to `target` aims at: any
/// name of the dictation engine if `target` is one, else `target` itself.
pub open spec fn matches_target(current: Seq<char>, target: Seq<char>) -> bool {
    if names_dikt(target) {
        names_dikt(current)
    } else {
        current == target
    }
}

/// Whether `engine_name` names the dictation engine.
pub fn is_dikt_engine(engine_name: &str) -> (r: bool)
    ensures
        r == names_dikt(engine_name@),
{
    str_eq(engine_name, "dikt") || str_ends_with(engine_name, ":dikt")
}

/// Whether `current` is the engine that a switch to `target` aims at.
pub fn engine_matches_target(current: &str, target: &str) -> (r: bool)
    ensures
        r == matches_target(current@, target@),
{
    if is_dikt_engine(target) {
        is_dikt_engine(current)
    } else {
        str_eq(current, target)
    }
}

/// The record of one attempt to switch to an engine and have the switch
/// confirmed.
pub struct EngineSwitch {
    /// The engine to switch to.
    pub target_engine: String,
    /// How long the attempt may take, in milliseconds.
    pub timeout_ms: u64,
    /// When the framework was last asked to switch, in milliseconds since
    /// the attempt began; none before the first request.
    pub last_set_attempt_ms: Option<u64>,
    /// How many requests to switch the framework accepted.
    pub set_attempts: u32,
    /// The error of the last request to switch, empty if it was accepted.
    pub last_set_error: String,
    /// The engine that was read last.
    pub last_engine: String,
    /// The error of the last failed read.
    pub last_error: String,
}

/// The record of an attempt, as plain values.
pub struct EngineSwitchModel {
    pub target_engine: Seq<char>,
    pub timeout_ms: u64,
    pub last_set_attempt_ms: Option<u64>,
    pub set_attempts: u32,
    pub last_set_error: Seq<char>,
    pub last_engine: Seq<char>,
    pub last_error: Seq<char>,
}

impl View for EngineSwitch {
    type V = EngineSwitchModel;

    open spec fn view(&self) -> EngineSwitchModel {
        EngineSwitchModel {
            target_engine: self.target_engine@,
            timeout_ms: self.timeout_ms,
            last_set_attempt_ms: self.last_set_attempt_ms,
            set_attempts: self.set_attempts,
            last_set_error: self.last_set_error@,
            last_engine: self.last_engine@,
            last_error: self.last_error@,
        }
    }
}

/// What a read of the current engine means for the attempt.
#[derive(Debug)]
pub enum SwitchPoll {
    /// The engine is the one aimed at.
    Confirmed(String),
    /// It is not, or could not be read: read again after the poll interval.
    Retry,
    /// The time is up.
    TimedOut(String),
}

/// Whether the framework is due to be asked to switch, `elapsed_ms` into
/// the attempt: at once, and then every 120 milliseconds.
pub open spec fn set_is_due(switch: EngineSwitchModel, elapsed_ms: u64) -> bool {
    match switch.last_set_attempt_ms {
        None => true,
        Some(at) => elapsed_ms - at >= ENGINE_SWITCH_SET_RETRY_MS,
    }
}

/// The attempt after the framework answered a request to switch.
pub open spec fn after_set(
    switch: EngineSwitchModel,
    result: Result<(), String>,
    elapsed_ms: u64,
) -> EngineSwitchModel {
    match result {
        Ok(()) => EngineSwitchModel {
            set_attempts: if switch.set_attempts == u32::MAX {
                u32::MAX
            } else {
                (switch.set_attempts + 1) as u32
            },
            last_set_error: Seq::empty(),
            last_set_attempt_ms: Some(elapsed_ms),
            ..switch
        },
        Err(e) => EngineSwitchModel {
            last_set_error: e@,
            last_set_attempt_ms: Some(elapsed_ms),
            ..switch
        },
    }
}

/// Whether a read found the engine that the attempt aims at.
pub open spec fn confirms(switch: EngineSwitchModel, read: Result<String, String>) -> bool {
    match read {
        Ok(engine) => matches_target(engine@, switch.target_engine),
        Err(_) => false,
    }
}

/// The attempt after a read of the current engine.
pub open spec fn after_read(switch: EngineSwitchModel, read: Result<String, String>) -> EngineSwitchModel {
    if confirms(switch, read) {
        switch
    } else {
        match read {
            Ok(engine) => EngineSwitchModel { last_engine: engine@, ..switch },
            Err(e) => EngineSwitchModel { last_error: e@, ..switch },
        }
    }
}

/// The time that an attempt with `timeout_ms` may take: at least one
/// millisecond.
pub open spec fn effective_timeout(timeout_ms: u64) -> u64 {
    if timeout_ms == 0 {
        1
    } else {
        timeout_ms
    }
}

impl EngineSwitch {
    /// Begins an attempt to switch to `target_engine` within `timeout_ms`.
    /// A target without a name is refused.
    pub fn begin(target_engine: &str, timeout_ms: u64) -> (switch: Result<EngineSwitch, String>)
        ensures
            match switch {
                Ok(switch) => {
                    &&& !is_blank(target_engine@)
                    &&& switch@ == (EngineSwitchModel {
                        target_engine: target_engine@,
                        timeout_ms,
                        last_set_attempt_ms: None,
                        set_attempts: 0,
                        last_set_error: Seq::empty(),
                        last_engine: Seq::empty(),
                        last_error: Seq::empty(),
                    })
                },
                Err(message) => {
                    &&& is_blank(target_engine@)
                    &&& message@ == "Target engine name is empty"@
                },
            },
    {
        if str_is_blank(target_engine) {
            return Err(String::from_str("Target engine name is empty"));
        }
        Ok(
            EngineSwitch {
                target_engine: String::from_str(target_engine),
                timeout_ms,
                last_set_attempt_ms: None,
                set_attempts: 0,
                last_set_error: String::new(),
                last_engine: String::new(),
                last_error: String::new(),
            },
        )
    }

    /// Whether the read before the first request found the engine aimed at
    /// already: then nothing is to be switched.
    pub fn already_active(&self, read: &Result<String, String>) -> (r: bool)
        ensures
            r == confirms(self@, *read),
    {
        match read {
            Ok(engine) => engine_matches_target(engine.as_str(), self.target_engine.as_str()),
            Err(_) => false,
        }
    }

    /// Whether the framework is to be asked to switch now, `elapsed_ms`
    /// into the attempt.
    pub fn wants_set(&self, elapsed_ms: u64) -> (r: bool)
        ensures
            r == set_is_due(self@, elapsed_ms),
    {
        match self.last_set_attempt_ms {
            None => true,
            Some(at) => elapsed_ms.saturating_sub(at) >= ENGINE_SWITCH_SET_RETRY_MS,
        }
    }

    /// Takes the framework's answer to a request to switch, `elapsed_ms`
    /// into the attempt.
    pub fn set_finished(&mut self, result: &Result<(), String>, elapsed_ms: u64)
        ensures
            final(self)@ == after_set(old(self)@, *result, elapsed_ms),
    {
        match result {
            Ok(()) => {
                self.set_attempts = self.set_attempts.saturating_add(1);
                self.last_set_error = String::new();
            },
            Err(e) => {
                self.last_set_error = e.clone();
            },
        }
        self.last_set_attempt_ms = Some(elapsed_ms);
    }

    /// Takes a read of the current engine, `elapsed_ms` into the attempt.
    ///
    /// The engine aimed at confirms the switch. Any other engine, or a
    /// failed read, is recorded; then the attempt goes on, unless the time
    /// is up: then it ends with a message that holds what was recorded.
    pub fn engine_read(&mut self, read: &Result<String, String>, elapsed_ms: u64) -> (poll:
        SwitchPoll)
        ensures
            final(self)@ == after_read(old(self)@, *read),
            match poll {
                SwitchPoll::Confirmed(engine) => {
                    &&& confirms(old(self)@, *read)
                    &&& *read == Ok::<String, String>(engine)
                },
                SwitchPoll::Retry => {
                    &&& !confirms(old(self)@, *read)
                    &&& elapsed_ms < effective_timeout(old(self)@.timeout_ms)
                },
                SwitchPoll::TimedOut(message) => {
                    &&& !confirms(old(self)@, *read)
                    &&& elapsed_ms >= effective_timeout(old(self)@.timeout_ms)
                    &&& message@ == switch_not_confirmed_text(
                        final(self)@.target_engine,
                        final(self)@.timeout_ms,
                        final(self)@.set_attempts as u64,
                        final(self)@.last_set_error,
                        final(self)@.last_engine,
                        final(self)@.last_error,
                    )
                },
            },
    {
        match read {
            Ok(engine) => {
                if engine_matches_target(engine.as_str(), self.target_engine.as_str()) {
                    return SwitchPoll::Confirmed(engine.clone());
                }
                self.last_engine = engine.clone();
            },
            Err(e) => {
                self.last_error = e.clone();
            },
        }
        let timeout = if self.timeout_ms == 0 {
            1
        } else {
            self.timeout_ms
        };
        if elapsed_ms < timeout {
            return SwitchPoll::Retry;
        }
        SwitchPoll::TimedOut(
            switch_not_confirmed(
                self.target_engine.as_str(),
                self.timeout_ms,
                self.set_attempts as u64,
                self.last_set_error.as_str(),
                self.last_engine.as_str(),
                self.last_error.as_str(),
            ),
        )
    }
}

/// What is to be done next to bring up the dictation engine.
#[derive(Debug)]
pub enum DiktSwitchStep {
    /// The dictation engine is active under this name.
    Active(String),
    /// A switch to the engine of this name is to be attempted.
    Try(&'static str),
    /// Every name failed.
    Failed(String),
}

/// The attempts to bring up the dictation engine under each of its names.
pub struct DiktSwitch {
    /// How many names were tried.
    pub tried: usize,
    /// The failed attempts, each as its name and its error, joined by
    /// commas.
    pub attempts: String,
}

/// The failed attempts after the one on `candidate` failed with `error`.
pub open spec fn attempts_after(attempts: Seq<char>, candidate: Seq<char>, error: Seq<char>) -> Seq<char> {
    if attempts.len() == 0 {
        switch_attempt_text(candidate, error)
    } else {
        attempts + ", "@ + switch_attempt_text(candidate, error)
    }
}

/// The name that is tried as number `tried`.
pub open spec fn candidate_name(tried: usize) -> Seq<char> {
    if tried == 0 {
        "dikt"@
    } else {
        "other:dikt"@
    }
}

/// Begins to bring up the dictation engine, with what the read of the
/// current engine brought.
///
/// Where the dictation engine is active already, under any of its names,
/// nothing is to be done. Else a switch to `dikt` is attempted first.
pub fn switch_to_dikt_engine_verified(current: &Result<String, String>) -> (begun: (
    DiktSwitch,
    DiktSwitchStep,
))
    ensures
        begun.0.tried == 0,
        begun.0.attempts@ == Seq::<char>::empty(),
        match begun.1 {
            DiktSwitchStep::Active(engine) => {
                &&& *current == Ok::<String, String>(engine)
                &&& names_dikt(engine@)
            },
            DiktSwitchStep::Try(candidate) => {
                &&& candidate@ == "dikt"@
                &&& match *current {
                    Ok(engine) => !names_dikt(engine@),
                    Err(_) => true,
                }
            },
            DiktSwitchStep::Failed(_) => false,
        },
{
    let switch = DiktSwitch { tried: 0, attempts: String::new() };
    match current {
        Ok(engine) => {
            if is_dikt_engine(engine.as_str()) {
                return (switch, DiktSwitchStep::Active(engine.clone()));
            }
        },
        Err(_) => {},
    }
    (switch, DiktSwitchStep::Try("dikt"))
}

impl DiktSwitch {
    /// Takes the end of the attempt on the current name.
    ///
    /// A confirmed switch ends the procedure with the engine's name. After
    /// a failure of `dikt`, `other:dikt` is tried; after a failure of that
    /// one too, the procedure fails with the list of the attempts.
    pub fn attempt_finished(&mut self, result: &Result<String, String>) -> (step: DiktSwitchStep)
        ensures
            match *result {
                Ok(engine) => {
                    &&& step matches DiktSwitchStep::Active(active)
                    &&& active@ == engine@
                    &&& final(self).tried == old(self).tried
                    &&& final(self).attempts@ == old(self).attempts@
                },
                Err(e) => {
                    &&& final(self).tried == if old(self).tried == 0 {
                        1usize
                    } else {
                        2usize
                    }
                    &&& final(self).attempts@ == attempts_after(
                        old(self).attempts@,
                        candidate_name(old(self).tried),
                        e@,
                    )
                    &&& match step {
                        DiktSwitchStep::Try(candidate) => old(self).tried == 0 && candidate@
                            == "other:dikt"@,
                        DiktSwitchStep::Failed(message) => old(self).tried != 0 && message@
                            == switch_gave_up_text(final(self).attempts@),
                        DiktSwitchStep::Active(_) => false,
                    }
                },
            },
    {
        match result {
            Ok(engine) => DiktSwitchStep::Active(engine.clone()),
            Err(e) => {
                let candidate = if self.tried == 0 {
                    "dikt"
                } else {
                    "other:dikt"
                };
                let attempt = switch_attempt(candidate, e.as_str());
                if self.attempts.as_str().is_empty() {
                    self.attempts = attempt;
                } else {
                    let joined = self.attempts.clone().concat(", ").concat(attempt.as_str());
                    self.attempts = joined;
                }
                if self.tried == 0 {
                    self.tried = 1;
                    DiktSwitchStep::Try("other:dikt")
                } else {
                    self.tried = 2;
                    DiktSwitchStep::Failed(switch_gave_up(self.attempts.as_str()))
                }
            },
        }
    }
}

/// The first index at or after `from` that holds a line feed, or the length
/// of `s`.
pub open spec fn line_end(s: Seq<char>, from: int) -> int
    decreases s.len() - from,
{
    if from < 0 || from >= s.len() {
        s.len() as int
    } else if s[from] == '\n' {
        from
    } else {
        line_end(s, from + 1)
    }
}

/// The address that `line` gives: what follows `IBUS_ADDRESS=`, trimmed, if
/// the line starts so and something is left.
pub open spec fn address_of_line(line: Seq<char>) -> Option<Seq<char>> {
    let prefix = "IBUS_ADDRESS="@;
    if starts_with(line, prefix) && trimmed(line.subrange(prefix.len() as int, line.len() as int)).len()
        > 0 {
        Some(trimmed(line.subrange(prefix.len() as int, line.len() as int)))
    } else {
        None
    }
}

/// The address that the first line at or after `from` with one gives.
pub open spec fn address_from(contents: Seq<char>, from: int) -> Option<Seq<char>>
    decreases contents.len() - from,
{
    if from < 0 || from >= contents.len() {
        None
    } else {
        let end = line_end(contents, from);
        let found = address_of_line(contents.subrange(from, end));
        if found.is_some() {
            found
        } else if from <= end < contents.len() {
            address_from(contents, end + 1)
        } else {
            None
        }
    }
}

/// Reads the address of the input method bus out of the contents of its
/// address file: the value of the first line that starts with
/// `IBUS_ADDRESS=` and has a value.
pub fn parse_ibus_address_from_contents(contents: &str) -> (address: Option<String>)
    ensures
        match address {
            Some(found) => address_from(contents@, 0) == Some(found@),
            None => address_from(contents@, 0).is_none(),
        },
{
    let chars = to_chars(contents);
    let prefix = to_chars("IBUS_ADDRESS=");
    let n = chars.len();
    let m = prefix.len();
    let mut from: usize = 0;
    while from < n
        invariant
            from <= n,
            n == chars@.len(),
            m == prefix@.len(),
            chars@ == contents@,
            prefix@ == "IBUS_ADDRESS="@,
            address_from(contents@, from as int) == address_from(contents@, 0),
        decreases n - from,
    {
        let mut end: usize = from;
        while end < n && chars[end] != '\n'
            invariant
                from <= end <= n,
                n == chars@.len(),
                line_end(chars@, end as int) == line_end(chars@, from as int),
            decreases n - end,
        {
            end = end + 1;
        }
        proof {
            assert(line_end(chars@, end as int) == end);
            let line = chars@.subrange(from as int, end as int);
            assert(prefix@.subrange(0, m as int) =~= prefix@);
            if from + m <= end {
                assert(line.subrange(0, m as int) =~= chars@.subrange(from as int, from + m));
                assert(line.subrange(m as int, line.len() as int) =~= chars@.subrange(
                    from + m,
                    end as int,
                ));
            }
        }
        if m <= end - from && range_eq(&chars, from, &prefix, 0, m) {
            let value = trim(contents.substring_char(from + m, end));
            if !value.is_empty() {
                return Some(String::from_str(value));
            }
        }
        if end >= n {
            return None;
        }
        from = end + 1;
    }
    None
}

/// What counts for an address file whose name starts with the machine's
/// id.
pub const MACHINE_ID_SCORE: u32 = 20;

/// What counts for an address file whose name holds the display's token.
pub const DISPLAY_TOKEN_SCORE: u32 = 50;

/// The token by which the address file of a display is known: `-unix-` and
/// the display's name, trimmed; none for a display without a name.
pub fn wayland_display_token(display: Option<&str>) -> (token: Option<String>)
    ensures
        match token {
            Some(text) => {
                &&& display matches Some(name)
                &&& trimmed(name@).len() > 0
                &&& text@ == "-unix-"@ + trimmed(name@)
            },
            None => match display {
                Some(name) => trimmed(name@).len() == 0,
                None => true,
            },
        },
{
    match display {
        Some(name) => {
            let value = trim(name);
            if value.is_empty() {
                None
            } else {
                Some(String::from_str("-unix-").concat(value))
            }
        },
        None => None,
    }
}

/// How well an address file with `name` fits this machine and display.
pub open spec fn bus_file_fit(
    name: Seq<char>,
    machine_id: Option<&str>,
    display_token: Option<&str>,
) -> u32 {
    let by_machine = match machine_id {
        Some(id) => if starts_with(name, id@) {
            MACHINE_ID_SCORE
        } else {
            0
        },
        None => 0,
    };
    let by_display = match display_token {
        Some(token) => if contains_text(name, token@) {
            DISPLAY_TOKEN_SCORE
        } else {
            0
        },
        None => 0,
    };
    (by_machine + by_display) as u32
}

/// Scores an address file by its name: a name that starts with the
/// machine's id counts 20, one that holds the display's token counts 50.
pub fn bus_file_score(name: &str, machine_id: Option<&str>, display_token: Option<&str>) -> (score:
    u32)
    ensures
        score == bus_file_fit(name@, machine_id, display_token),
{
    let mut score: u32 = 0;
    match machine_id {
        Some(id) => {
            if str_starts_with(name, id) {
                score = score + MACHINE_ID_SCORE;
            }
        },
        None => {},
    }
    match display_token {
        Some(token) => {
            if str_contains(name, token) {
                score = score + DISPLAY_TOKEN_SCORE;
            }
        },
        None => {},
    }
    score
}

/// Whether an address file with `score`, last changed at `modified_ms`, is
/// preferred to the best one so far: it scores higher, or scores the same
/// and is newer. The first file is always preferred.
pub fn replaces_best_bus_file(score: u32, modified_ms: u128, best: Option<(u32, u128)>) -> (replace:
    bool)
    ensures
        replace == match best {
            None => true,
            Some((best_score, best_modified_ms)) => score > best_score || (score == best_score
                && modified_ms > best_modified_ms),
        },
{
    match best {
        None => true,
        Some((best_score, best_modified_ms)) => score > best_score || (score == best_score
            && modified_ms > best_modified_ms),
    }
}

} // verus!
