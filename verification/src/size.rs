//! The size beyond which the log file is rotated.

use vstd::prelude::*;
use vstd::string::*;
use crate::json::{json_member, json_model, json_text, JsonModel};

verus! {

/// The threshold in bytes where the configuration names none.
pub const DEFAULT_MAX_FILE_SIZE: u128 = 40000;

/// The longest size text that is handed to the parser, in characters.
pub const MAX_SIZE_TEXT_LEN: usize = 18;

/// Why a configuration gives no threshold.
#[derive(Clone, Copy, Debug, PartialEq, Eq, Structural)]
pub enum ConfigError {
    /// `maxFileSize` is there and holds something else than a string.
    NotText,
    /// `maxFileSize` holds a string that is no size, or one of more than
    /// `MAX_SIZE_TEXT_LEN` characters.
    InvalidSize,
}

/// `byte_unit::ByteError`, the reason why a text is no size.
#[verifier::external_type_specification]
#[verifier::external_body]
pub struct ExByteError(byte_unit::ByteError);

/// The number of bytes that `byte_unit::Byte::from_str` reads out of a text
/// such as "2MB" or "512 KiB", or nothing where it reads no size.
pub uninterp spec fn byte_size(text: Seq<char>) -> Option<u128>;

/// `byte_unit::Byte::from_str`, then `Byte::get_bytes`. Trusted: the outcome
/// depends on the text alone and is the one that `byte_size` names.
///
/// The parser multiplies the number by the unit in `u128` and does not check
/// the product. A text of at most 18 characters has at most 17 digits in front
/// of a unit, and 10^17 of the largest unit, 2^70 bytes, is below 2^128; longer
/// texts are kept away from it.
#[verifier::external_body]
pub(crate) fn parse_byte_size(text: &str) -> (parsed: Result<u128, byte_unit::ByteError>)
    requires
        text@.len() <= MAX_SIZE_TEXT_LEN,
    ensures
        match parsed {
            Ok(bytes) => byte_size(text@) == Some(bytes),
            Err(_) => byte_size(text@) is None,
        },
{
    match byte_unit::Byte::from_str(text) {
        Ok(size) => Ok(size.get_bytes()),
        Err(error) => Err(error),
    }
}

/// The threshold that a size text stands for.
pub open spec fn size_in(text: Seq<char>) -> Option<u128> {
    if text.len() <= MAX_SIZE_TEXT_LEN {
        byte_size(text)
    } else {
        None
    }
}

/// The threshold that a configuration asks for. `section` is the part of the
/// configuration that belongs to the logger, where there is one.
pub open spec fn max_file_size_of(section: Option<JsonModel>) -> Result<u128, ConfigError> {
    match section {
        None => Ok(DEFAULT_MAX_FILE_SIZE),
        Some(settings) => match settings.member("maxFileSize"@) {
            None => Ok(DEFAULT_MAX_FILE_SIZE),
            Some(JsonModel::Text(text)) => match size_in(text) {
                Some(bytes) => Ok(bytes),
                None => Err(ConfigError::InvalidSize),
            },
            Some(_) => Err(ConfigError::NotText),
        },
    }
}

/// The model of an optional section.
pub open spec fn section_model(section: Option<&serde_json::Value>) -> Option<JsonModel> {
    match section {
        Some(settings) => Some(json_model(*settings)),
        None => None,
    }
}

/// Where the configuration names no threshold, the default holds: 40000
/// bytes.
pub proof fn law_default_without_size(section: Option<JsonModel>)
    requires
        section matches Some(settings) ==> settings.member("maxFileSize"@) is None,
    ensures
        max_file_size_of(section) == Ok::<u128, ConfigError>(40000),
{
}

/// Where the configuration names a threshold, the default never stands in:
/// the outcome is the size that the text spells out, or an error.
pub proof fn law_named_size_is_never_defaulted(settings: JsonModel)
    requires
        settings.member("maxFileSize"@) is Some,
    ensures
        match settings.member("maxFileSize"@) {
            Some(JsonModel::Text(text)) => match size_in(text) {
                Some(bytes) => max_file_size_of(Some(settings)) == Ok::<u128, ConfigError>(bytes),
                None => max_file_size_of(Some(settings)) is Err,
            },
            _ => max_file_size_of(Some(settings)) is Err,
        },
{
}

/// Reads a human-readable size such as "2MB" or "40 KiB".
pub fn parse_size(text: &str) -> (size: Option<u128>)
    ensures
        size == size_in(text@),
{
    if text.unicode_len() > MAX_SIZE_TEXT_LEN {
        return None;
    }
    match parse_byte_size(text) {
        Ok(bytes) => Some(bytes),
        Err(_) => None,
    }
}

/// Resolves the threshold from the logger's section of the configuration:
/// the default where the section or its `maxFileSize` is absent, the size that
/// `maxFileSize` spells out where it is present, and an error, never the
/// default, where it is present and spells out none.
pub fn get_max_file_size(section: Option<&serde_json::Value>) -> (resolved: Result<
    u128,
    ConfigError,
>)
    ensures
        resolved == max_file_size_of(section_model(section)),
{
    let settings = match section {
        Some(settings) => settings,
        None => {
            return Ok(DEFAULT_MAX_FILE_SIZE);
        },
    };
    match json_member(settings, "maxFileSize") {
        None => Ok(DEFAULT_MAX_FILE_SIZE),
        Some(value) => match json_text(value) {
            None => Err(ConfigError::NotText),
            Some(text) => match parse_size(text) {
                Some(bytes) => Ok(bytes),
                None => Err(ConfigError::InvalidSize),
            },
        },
    }
}

} // verus!
