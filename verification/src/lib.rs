//! The core of a logging add-on for a desktop application shell.
//!
//! The library decides and formats; it never touches a file or a stream
//! itself. The host performs each step that the library hands out and reports
//! what happened: on start-up the check of the log file's size and its
//! rotation, at run time the line that goes to the console and to the file.

pub mod clock;
pub mod command;
pub mod format;
pub mod host;
pub mod json;
pub mod level;
pub mod logger;
pub mod rotation;
pub mod size;
pub mod startup;

pub use command::{decode_command, decode_document, DecodeError, DecodeFault, LogCmd};
pub use format::format_line;
pub use level::LogLevel;
pub use logger::{Logger, LoggerBuilder};
pub use rotation::{archive_file_in, decide_rotation, log_file_in, FileStatus, Rotation, RotationStrategy};
pub use size::{get_max_file_size, parse_size, ConfigError, DEFAULT_MAX_FILE_SIZE, MAX_SIZE_TEXT_LEN};
pub use startup::{Event, InitError, Phase, Step};
