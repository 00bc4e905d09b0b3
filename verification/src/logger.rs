//! The adapter between the console and the `log` facade.

use vstd::prelude::*;
use crate::console::Console;
use crate::level::Level;
use crate::record::Record;
use crate::transport::{Transport, WriteError};

verus! {

/// Why the logger could not be set up.
#[derive(Clone, Copy, Debug, PartialEq, Eq, Structural)]
pub enum InitError {
    /// The facade already has a logger. It takes one per process.
    AlreadyInitialized,
}

#[verifier::external_type_specification]
#[verifier::external_body]
pub struct ExSetLoggerError(log::SetLoggerError);

#[verifier::external_type_specification]
#[verifier::external_body]
pub struct ExLevelFilter(log::LevelFilter);

/// `log::set_logger`: asks the facade to take `logger` as the logger of this
/// process. Whether it does depends on what the process did before, so
/// nothing is claimed of the answer.
#[verifier::external_body]
fn set_logger<L: log::Log>(logger: &'static L) -> (answer: Result<(), log::SetLoggerError>) {
    log::set_logger(logger)
}

/// `log::set_max_level`: tells the facade to drop records that are less
/// severe than `max_level`.
#[verifier::external_body]
fn set_max_level(max_level: log::LevelFilter) {
    log::set_max_level(max_level)
}

/// The logger that renders the records of the facade for the console.
#[derive(Clone, Copy, Debug)]
pub struct Logger;

impl Logger {
    /// The levels that the logger lets through: `Info` and all that are more
    /// severe.
    pub open spec fn enables(level: Level) -> bool {
        level.at_least(Level::Info)
    }

    /// Whether records of `level` are rendered.
    pub fn enabled(&self, level: Level) -> (enabled: bool)
        ensures
            enabled == Self::enables(level),
    {
        match level {
            Level::Error | Level::Warn | Level::Info => true,
            Level::Debug | Level::Trace => false,
        }
    }

    /// Hands the line of `record` to the console if its level is enabled,
    /// and leaves the console alone if not.
    pub fn log<T: Transport>(&self, console: &mut Console<T>, record: &Record) -> (res: Result<(), WriteError>)
        ensures
            Self::enables(record.level) ==> old(console)@.dispatched(
                record.rendered(),
                final(console)@,
                res is Ok,
            ),
            !Self::enables(record.level) ==> res is Ok && final(console)@ == old(console)@,
    {
        if self.enabled(record.level) {
            let rendered = record.render();
            console.dispatch(rendered.as_str())
        } else {
            Ok(())
        }
    }

    /// Nothing is buffered, so there is nothing to flush.
    pub fn flush(&self) {
    }
}

/// What setting up the logger comes to, given the facade's answer to the
/// registration: success if the facade took the logger, and
/// `AlreadyInitialized` if it refused.
pub fn registration_result(answer: Result<(), log::SetLoggerError>) -> (res: Result<(), InitError>)
    ensures
        answer is Ok ==> res == Ok::<(), InitError>(()),
        answer is Err ==> res == Err::<(), InitError>(InitError::AlreadyInitialized),
{
    match answer {
        Ok(()) => Ok(()),
        Err(_) => Err(InitError::AlreadyInitialized),
    }
}

/// Installs `writer` in the console, then registers `logger` with the facade
/// and, if the facade took it, sets the facade's maximum level.
///
/// The writer is installed whatever the facade answers. The result is that
/// of [`registration_result`] for the facade's answer; the maximum level is
/// handed to the facade only where that is `Ok`.
///
/// `logger` is the embedding program's implementation of the facade's
/// logger trait; it is expected to pass each record on to [`Logger::log`].
pub fn init_logger<T: Transport, L: log::Log>(
    console: &mut Console<T>,
    logger: &'static L,
    max_level: log::LevelFilter,
    writer: T,
) -> (res: Result<(), InitError>)
    ensures
        old(console)@.replaced(writer, final(console)@),
{
    console.replace(writer);
    let res = registration_result(set_logger(logger));
    if res.is_ok() {
        set_max_level(max_level);
    }
    res
}

} // verus!
