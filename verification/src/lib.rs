//! A console for freestanding code: one swappable output channel, the entry
//! points that render text for it, and an adapter to the `log` facade.
//!
//! The [`Console`] owns at most one [`Transport`] at a time. Text that is
//! dispatched while none is installed is absorbed by the [`DefaultConsole`].
//! Every operation takes the console by `&mut`, so the embedding program
//! decides how exclusive access is obtained.

pub mod console;
pub mod level;
pub mod logger;
pub mod print;
pub mod record;
pub mod text;
pub mod transport;

pub use console::{Console, ConsoleView};
pub use level::Level;
pub use log::LevelFilter;
pub use logger::{init_logger, InitError, Logger};
pub use print::{_print, _println, error, info, warn};
pub use record::Record;
pub use transport::{DefaultConsole, Transport, WriteError};
