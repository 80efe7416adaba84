//! The command that the front-end sends to have a line logged.

use vstd::prelude::*;
use vstd::string::*;
use crate::json::{json_error_text, json_member, json_model, json_parse, json_text, json_unsigned, parse_json, JsonModel};
use crate::level::LogLevel;

verus! {

/// The inbound commands. There is one: `{"cmd":"tauriPluginLog","level":3,"message":"hi"}`
/// asks for `message` to be logged at the level that `level` stands for.
#[derive(Debug, PartialEq, Eq)]
pub enum LogCmd {
    TauriPluginLog { level: LogLevel, message: String },
}

/// Why a payload is no command.
#[derive(Clone, Copy, Debug, PartialEq, Eq, Structural)]
pub enum DecodeFault {
    /// The payload is not a JSON document.
    Syntax,
    /// The document has no member `cmd` that holds a string.
    MissingCommand,
    /// The member `cmd` names another command than `tauriPluginLog`.
    UnknownCommand,
    /// The document has no member `level` that holds an integer from 1 to 5.
    InvalidLevel,
    /// The document has no member `message` that holds a string.
    MissingMessage,
}

/// A payload that could not be decoded: the fault, and a text for whoever
/// sent the payload. For a payload that is not JSON the text is the parser's;
/// for the other faults it is `fault_text`.
#[derive(Debug, PartialEq, Eq)]
pub struct DecodeError {
    pub fault: DecodeFault,
    pub detail: String,
}

/// The text that goes with a fault in a JSON document. The one for another
/// command says `unknown variant`, by which a host tells a command that is
/// meant for somebody else from a broken one.
pub open spec fn fault_text(fault: DecodeFault) -> Seq<char> {
    match fault {
        DecodeFault::Syntax => "invalid JSON"@,
        DecodeFault::MissingCommand => "missing field `cmd`"@,
        DecodeFault::UnknownCommand => "unknown variant, expected `tauriPluginLog`"@,
        DecodeFault::InvalidLevel => "invalid level, expected one of: 1, 2, 3, 4, 5"@,
        DecodeFault::MissingMessage => "missing field `message`"@,
    }
}

/// The level and the message of a log command, once `cmd` has named it.
pub open spec fn log_command_of(document: JsonModel) -> Result<(LogLevel, Seq<char>), DecodeFault> {
    match document.member("level"@) {
        Some(JsonModel::Unsigned(code)) => match LogLevel::of_wire_code(code as int) {
            Some(level) => match document.member("message"@) {
                Some(JsonModel::Text(message)) => Ok((level, message)),
                _ => Err(DecodeFault::MissingMessage),
            },
            None => Err(DecodeFault::InvalidLevel),
        },
        _ => Err(DecodeFault::InvalidLevel),
    }
}

/// The command that a JSON document holds. The members are looked at in the
/// order `cmd`, `level`, `message`, and the first one that is missing or of
/// the wrong kind decides the fault; members beyond these three are ignored.
pub open spec fn command_of(document: JsonModel) -> Result<(LogLevel, Seq<char>), DecodeFault> {
    match document.member("cmd"@) {
        Some(JsonModel::Text(name)) => if name == "tauriPluginLog"@ {
            log_command_of(document)
        } else {
            Err(DecodeFault::UnknownCommand)
        },
        _ => Err(DecodeFault::MissingCommand),
    }
}

/// The command that a payload holds.
pub open spec fn command_in(payload: Seq<char>) -> Result<(LogLevel, Seq<char>), DecodeFault> {
    match json_parse(payload) {
        Some(document) => command_of(document),
        None => Err(DecodeFault::Syntax),
    }
}

impl LogCmd {
    /// The level and the message of the command.
    pub open spec fn parts(self) -> (LogLevel, Seq<char>) {
        match self {
            LogCmd::TauriPluginLog { level, message } => (level, message@),
        }
    }
}

/// Whether an outcome of decoding is the one that the model gives: the same
/// command, or the same fault with its text.
pub open spec fn decodes_to(
    outcome: Result<LogCmd, DecodeError>,
    expected: Result<(LogLevel, Seq<char>), DecodeFault>,
) -> bool {
    match outcome {
        Ok(command) => expected == Ok::<(LogLevel, Seq<char>), DecodeFault>(command.parts()),
        Err(error) => {
            &&& expected == Err::<(LogLevel, Seq<char>), DecodeFault>(error.fault)
            &&& error.fault != DecodeFault::Syntax ==> error.detail@ == fault_text(error.fault)
        },
    }
}

/// The error for a fault in a JSON document.
fn refusal(fault: DecodeFault) -> (error: DecodeError)
    requires
        fault != DecodeFault::Syntax,
    ensures
        error.fault == fault,
        error.detail@ == fault_text(fault),
{
    let detail = match fault {
        DecodeFault::Syntax => "invalid JSON",
        DecodeFault::MissingCommand => "missing field `cmd`",
        DecodeFault::UnknownCommand => "unknown variant, expected `tauriPluginLog`",
        DecodeFault::InvalidLevel => "invalid level, expected one of: 1, 2, 3, 4, 5",
        DecodeFault::MissingMessage => "missing field `message`",
    };
    DecodeError { fault, detail: String::from_str(detail) }
}

/// Reads the command out of a parsed document.
pub fn decode_document(document: &serde_json::Value) -> (outcome: Result<LogCmd, DecodeError>)
    ensures
        decodes_to(outcome, command_of(json_model(*document))),
{
    let name = match json_member(document, "cmd") {
        Some(member) => json_text(member),
        None => None,
    };
    match name {
        None => {
            return Err(refusal(DecodeFault::MissingCommand));
        },
        Some(name) => {
            if String::from_str(name) != String::from_str("tauriPluginLog") {
                return Err(refusal(DecodeFault::UnknownCommand));
            }
        },
    }
    let level = match json_member(document, "level") {
        Some(member) => match json_unsigned(member) {
            Some(code) => LogLevel::from_code(code),
            None => None,
        },
        None => None,
    };
    match level {
        None => Err(refusal(DecodeFault::InvalidLevel)),
        Some(level) => {
            let message = match json_member(document, "message") {
                Some(member) => json_text(member),
                None => None,
            };
            match message {
                Some(text) => Ok(LogCmd::TauriPluginLog { level, message: String::from_str(text) }),
                None => Err(refusal(DecodeFault::MissingMessage)),
            }
        },
    }
}

/// Decodes a payload of the front-end.
pub fn decode_command(payload: &str) -> (outcome: Result<LogCmd, DecodeError>)
    ensures
        decodes_to(outcome, command_in(payload@)),
{
    match parse_json(payload) {
        Ok(document) => decode_document(&document),
        Err(error) => Err(DecodeError { fault: DecodeFault::Syntax, detail: json_error_text(&error) }),
    }
}

} // verus!
