use vstd::prelude::*;
use vstd::string::*;
use flexi_logger::{FlexiLoggerError, LogSpecification};
use crate::bootstrap::InitError;

verus! {

#[verifier::external_type_specification]
#[verifier::external_body]
pub struct ExLogSpecification(LogSpecification);

#[verifier::external_type_specification]
#[verifier::external_body]
pub struct ExFlexiLoggerError(FlexiLoggerError);

/// Whether flexi_logger accepts `s` as a log specification.
pub uninterp spec fn log_spec_accepted(s: Seq<char>) -> bool;

/// Relies on flexi_logger's `LogSpecification::parse`: it reads nothing but
/// its argument, and fails exactly on a malformed specification.
#[verifier::external_body]
fn parse_log_spec(s: &str) -> (r: Result<LogSpecification, FlexiLoggerError>)
    ensures
        r is Ok <==> log_spec_accepted(s@),
{
    LogSpecification::parse(s)
}

/// How severe a log entry is, from the most severe down.
#[derive(Debug, Clone, Copy, PartialEq, Eq, Structural)]
pub enum Severity {
    Error,
    Warn,
    Info,
    Debug,
    Trace,
}

/// Where and how the process writes its log: a file `<basename>.<suffix>`
/// in `directory`, and a copy on the console of the entries at least as
/// severe as `console_threshold`.
pub struct LogConfig {
    /// The severity filter, in flexi_logger's specification syntax.
    pub level: String,
    pub directory: String,
    pub basename: String,
    pub suffix: String,
    /// Whether the file name carries the time at which the log was opened.
    pub timestamp_in_name: bool,
    /// Whether an existing file is continued rather than replaced.
    pub append: bool,
    pub console_threshold: Severity,
}

impl LogConfig {
    /// The application's log: everything from "info" up, appended to
    /// `logs/xbox11.log`, and mirrored on the console from "info" up.
    pub fn standard() -> (c: LogConfig)
        ensures
            c.level@ == "info"@,
            c.directory@ == "logs"@,
            c.basename@ == "xbox11"@,
            c.suffix@ == "log"@,
            !c.timestamp_in_name,
            c.append,
            c.console_threshold == Severity::Info,
    {
        LogConfig {
            level: String::from_str("info"),
            directory: String::from_str("logs"),
            basename: String::from_str("xbox11"),
            suffix: String::from_str("log"),
            timestamp_in_name: false,
            append: true,
            console_threshold: Severity::Info,
        }
    }
}

/// Turns the outcome of parsing a severity filter into the specification
/// to start the logger with, or the logger's startup error.
pub fn check_log_spec(parsed: Result<LogSpecification, FlexiLoggerError>) -> (r: Result<
    LogSpecification,
    InitError,
>)
    ensures
        r is Ok <==> parsed is Ok,
        r is Err ==> r == Err::<LogSpecification, InitError>(InitError::LoggerInit),
{
    match parsed {
        Ok(spec) => Ok(spec),
        Err(_) => Err(InitError::LoggerInit),
    }
}

/// The log specification that `config` asks for; fails with
/// `InitError::LoggerInit` when its severity filter is malformed.
pub fn logger_spec(config: &LogConfig) -> (r: Result<LogSpecification, InitError>)
    ensures
        r is Ok <==> log_spec_accepted(config.level@),
        r is Err ==> r == Err::<LogSpecification, InitError>(InitError::LoggerInit),
{
    check_log_spec(parse_log_spec(config.level.as_str()))
}

} // verus!
