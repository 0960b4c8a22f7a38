use vstd::prelude::*;
use vstd::string::{StringExecFns, StringSliceAdditionalSpecFns};

use crate::error::HarnessError;
use crate::text::{decimal, decimal_string, signed_decimal, signed_decimal_string};

verus! {

broadcast use vstd::string::group_string_axioms;

/// Status codes the engine returns from its calls.
#[derive(Clone, Copy, Debug, PartialEq, Eq, Structural)]
pub enum PinmameStatus {
    Success,
    ConfigNotSet,
    GameNotFound,
    GameAlreadyRunning,
    EmulatorNotRunning,
    MechHandleMechanics,
    MechNoInvalid,
}

/// The status a numeric engine status code stands for.
pub open spec fn status_of_code(code: u32) -> Option<PinmameStatus> {
    if code == 0 {
        Some(PinmameStatus::Success)
    } else if code == 1 {
        Some(PinmameStatus::ConfigNotSet)
    } else if code == 2 {
        Some(PinmameStatus::GameNotFound)
    } else if code == 3 {
        Some(PinmameStatus::GameAlreadyRunning)
    } else if code == 4 {
        Some(PinmameStatus::EmulatorNotRunning)
    } else if code == 5 {
        Some(PinmameStatus::MechHandleMechanics)
    } else if code == 6 {
        Some(PinmameStatus::MechNoInvalid)
    } else {
        None
    }
}

impl PinmameStatus {
    /// The status for an engine status code; `None` for a code the engine does not define.
    pub fn from_code(code: u32) -> (r: Option<PinmameStatus>)
        ensures
            r == status_of_code(code),
    {
        match code {
            0 => Some(PinmameStatus::Success),
            1 => Some(PinmameStatus::ConfigNotSet),
            2 => Some(PinmameStatus::GameNotFound),
            3 => Some(PinmameStatus::GameAlreadyRunning),
            4 => Some(PinmameStatus::EmulatorNotRunning),
            5 => Some(PinmameStatus::MechHandleMechanics),
            6 => Some(PinmameStatus::MechNoInvalid),
            _ => None,
        }
    }

    /// How the harness classes a status: none for success, `NotFound` for an
    /// unknown game, `StateConflict` for every other refusal.
    pub fn error_kind(&self) -> (r: Option<HarnessError>)
        ensures
            r == (match *self {
                PinmameStatus::Success => None,
                PinmameStatus::GameNotFound => Some(HarnessError::NotFound),
                _ => Some(HarnessError::StateConflict),
            }),
    {
        match self {
            PinmameStatus::Success => None,
            PinmameStatus::GameNotFound => Some(HarnessError::NotFound),
            _ => Some(HarnessError::StateConflict),
        }
    }
}

/// The outcome of an engine call that returns a status code: `Ok` for the
/// success code, the status otherwise, and `None` for a code the engine does not define.
pub fn status_result(code: u32) -> (r: Option<Result<(), PinmameStatus>>)
    ensures
        r == (match status_of_code(code) {
            Some(PinmameStatus::Success) => Some(Ok::<(), PinmameStatus>(())),
            Some(s) => Some(Err::<(), PinmameStatus>(s)),
            None => None,
        }),
{
    match PinmameStatus::from_code(code) {
        Some(PinmameStatus::Success) => Some(Ok(())),
        Some(s) => Some(Err(s)),
        None => None,
    }
}

/// A game of the engine's catalog.
pub struct Game {
    pub name: String,
    pub clone_of: String,
    pub description: String,
    pub year: String,
    pub manufacturer: String,
    pub flags: u32,
    pub found: i32,
}

/// The one-line description of a game.
pub open spec fn game_description(game: Game) -> Seq<char> {
    "name="@ + game.name@ + ", description="@ + game.description@ + ", manufacturer="@
        + game.manufacturer@ + ", year="@ + game.year@ + ", flags="@ + decimal(game.flags as nat)
        + ", found="@ + signed_decimal(game.found as int)
}

/// Describes a game on one line: its name, description, manufacturer, year,
/// flags and found marker.
pub fn describe_game(game: Game) -> (r: String)
    ensures
        r@ == game_description(game),
{
    let mut s = "name=".to_owned();
    s.append(game.name.as_str());
    s.append(", description=");
    s.append(game.description.as_str());
    s.append(", manufacturer=");
    s.append(game.manufacturer.as_str());
    s.append(", year=");
    s.append(game.year.as_str());
    s.append(", flags=");
    let flags = decimal_string(game.flags);
    s.append(flags.as_str());
    s.append(", found=");
    let found = signed_decimal_string(game.found);
    s.append(found.as_str());
    s
}

/// How the engine renders dot-matrix frames.
#[derive(Clone, Copy, Debug, PartialEq, Eq, Structural)]
pub enum DmdMode {
    Brightness,
    Raw,
}

impl DmdMode {
    /// The engine's code for the mode.
    pub fn code(&self) -> (r: u32)
        ensures
            r == (match *self {
                DmdMode::Brightness => 0u32,
                DmdMode::Raw => 1u32,
            }),
    {
        match self {
            DmdMode::Brightness => 0,
            DmdMode::Raw => 1,
        }
    }
}

/// Sample formats the engine can announce for its audio.
#[derive(Clone, Copy, Debug, PartialEq, Eq, Structural)]
pub enum AudioFormat {
    Int16,
    Float,
}

impl AudioFormat {
    /// The format for an engine audio-format code; any other code is a protocol violation.
    pub fn from_code(code: u32) -> (r: Result<AudioFormat, HarnessError>)
        ensures
            r == (if code == 0 {
                Ok::<AudioFormat, HarnessError>(AudioFormat::Int16)
            } else if code == 1 {
                Ok(AudioFormat::Float)
            } else {
                Err(HarnessError::ProtocolViolation)
            }),
    {
        match code {
            0 => Ok(AudioFormat::Int16),
            1 => Ok(AudioFormat::Float),
            _ => Err(HarnessError::ProtocolViolation),
        }
    }
}

/// Severity under which an engine log line is reported.
#[derive(Clone, Copy, Debug, PartialEq, Eq, Structural)]
pub enum LogSeverity {
    Debug,
    Info,
    Error,
    /// The engine gave a level it does not define.
    Unknown,
}

/// Engine log level code for debug messages.
pub const LOG_LEVEL_DEBUG: u32 = 0;

/// Engine log level code for informational messages.
pub const LOG_LEVEL_INFO: u32 = 1;

/// Engine log level code for errors.
pub const LOG_LEVEL_ERROR: u32 = 2;

/// The bytes of the marker word that forces a log line to error severity.
pub open spec fn error_marker() -> Seq<u8> {
    seq![69u8, 82u8, 82u8, 79u8, 82u8]
}

/// Whether the marker `ERROR` occurs in `bytes`.
pub open spec fn contains_error_marker(bytes: Seq<u8>) -> bool {
    exists|i: int| 0 <= i && i + 5 <= bytes.len() && #[trigger] bytes.subrange(i, i + 5) == error_marker()
}

/// The severity a log line is reported under: error whenever the text holds
/// `ERROR`, else the one the engine's level names.
pub open spec fn log_severity(level: u32, message: &str) -> LogSeverity {
    if contains_error_marker(message.spec_bytes()) {
        LogSeverity::Error
    } else if level == LOG_LEVEL_DEBUG {
        LogSeverity::Debug
    } else if level == LOG_LEVEL_INFO {
        LogSeverity::Info
    } else if level == LOG_LEVEL_ERROR {
        LogSeverity::Error
    } else {
        LogSeverity::Unknown
    }
}

fn contains_marker(bytes: &[u8]) -> (r: bool)
    ensures
        r == contains_error_marker(bytes@),
{
    let n = bytes.len();
    if n < 5 {
        return false;
    }
    let mut i: usize = 0;
    while i <= n - 5
        invariant
            n == bytes@.len(),
            n >= 5,
            i <= n - 4,
            forall|j: int| 0 <= j < i ==> #[trigger] bytes@.subrange(j, j + 5) != error_marker(),
        decreases n - i,
    {
        if bytes[i] == 69 && bytes[i + 1] == 82 && bytes[i + 2] == 82 && bytes[i + 3] == 79
            && bytes[i + 4] == 82 {
            assert(bytes@.subrange(i as int, i + 5) == error_marker());
            return true;
        }
        assert(bytes@.subrange(i as int, i + 5)[0] == bytes@[i as int]);
        assert(bytes@.subrange(i as int, i + 5)[1] == bytes@[i + 1]);
        assert(bytes@.subrange(i as int, i + 5)[2] == bytes@[i + 2]);
        assert(bytes@.subrange(i as int, i + 5)[3] == bytes@[i + 3]);
        assert(bytes@.subrange(i as int, i + 5)[4] == bytes@[i + 4]);
        i = i + 1;
    }
    assert forall|j: int| 0 <= j && j + 5 <= n implies #[trigger] bytes@.subrange(j, j + 5) != error_marker() by {
        assert(j < i);
    }
    false
}

/// Classifies an engine log line, already rendered to text, by severity. A line
/// holding `ERROR` is an error whatever level the engine gave.
pub fn on_log_message(log_level: u32, message: &str) -> (r: LogSeverity)
    ensures
        r == log_severity(log_level, message),
{
    if contains_marker(message.as_bytes()) {
        return LogSeverity::Error;
    }
    match log_level {
        LOG_LEVEL_DEBUG => LogSeverity::Debug,
        LOG_LEVEL_INFO => LogSeverity::Info,
        LOG_LEVEL_ERROR => LogSeverity::Error,
        _ => LogSeverity::Unknown,
    }
}

} // verus!
