//! Core of a small desktop shell: the greeting command, the table of
//! commands offered to the front end, the logging setup and the startup
//! sequence, each as verified logic that the host program drives.
pub mod bootstrap;
pub mod commands;
pub mod greeting;
pub mod logging;

pub use commands::{CommandTable, RegisterError};
pub use bootstrap::{Action, BootConfig, Bootstrap, Event, Exit, InitError, Phase};
pub use greeting::greet;
pub use logging::{check_log_spec, logger_spec, LogConfig, Severity};
