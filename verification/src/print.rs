//! The entry points that render a text and hand it to a console.

use vstd::prelude::*;
use crate::console::Console;
use crate::text::{line, prefixed_line, render_line, render_prefixed};
use crate::transport::{Transport, WriteError};

verus! {

/// Hands `text` to the console as it is.
pub fn _print<T: Transport>(console: &mut Console<T>, text: &str) -> (res: Result<(), WriteError>)
    ensures
        old(console)@.dispatched(text@, final(console)@, res is Ok),
{
    console.dispatch(text)
}

/// Hands `text` to the console as a line of its own.
pub fn _println<T: Transport>(console: &mut Console<T>, text: &str) -> (res: Result<(), WriteError>)
    ensures
        old(console)@.dispatched(line(text@), final(console)@, res is Ok),
{
    let rendered = render_line(text);
    console.dispatch(rendered.as_str())
}

/// Hands the console the line of an error message from `module`.
pub fn error<T: Transport>(console: &mut Console<T>, module: &str, message: &str) -> (res: Result<(), WriteError>)
    ensures
        old(console)@.dispatched(prefixed_line("E: "@, module@, message@), final(console)@, res is Ok),
{
    let rendered = render_prefixed("E: ", module, message);
    console.dispatch(rendered.as_str())
}

/// Hands the console the line of a warning from `module`.
pub fn warn<T: Transport>(console: &mut Console<T>, module: &str, message: &str) -> (res: Result<(), WriteError>)
    ensures
        old(console)@.dispatched(prefixed_line("W: "@, module@, message@), final(console)@, res is Ok),
{
    let rendered = render_prefixed("W: ", module, message);
    console.dispatch(rendered.as_str())
}

/// Hands the console the line of an informational message from `module`.
pub fn info<T: Transport>(console: &mut Console<T>, module: &str, message: &str) -> (res: Result<(), WriteError>)
    ensures
        old(console)@.dispatched(prefixed_line("I: "@, module@, message@), final(console)@, res is Ok),
{
    let rendered = render_prefixed("I: ", module, message);
    console.dispatch(rendered.as_str())
}

} // verus!
