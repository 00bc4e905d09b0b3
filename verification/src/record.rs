//! A leveled record and the line it is rendered to.

use vstd::prelude::*;
use crate::level::Level;
use crate::text::{decimal, push_decimal};

verus! {

/// One leveled message, with the place in the source it comes from as far
/// as that is known. The message is already rendered.
#[derive(Clone, Copy, Debug)]
pub struct Record<'a> {
    pub level: Level,
    pub module: Option<&'a str>,
    pub line: Option<u32>,
    pub message: &'a str,
}

/// The place in the source that a record names: the module and the line,
/// with `unknown source` and `0` where the record names none.
pub open spec fn source_of(module: Option<Seq<char>>, line: Option<u32>) -> Seq<char> {
    let named = match module {
        Some(path) => path,
        None => "unknown source"@,
    };
    let number: nat = match line {
        Some(n) => n as nat,
        None => 0,
    };
    named + ":"@ + decimal(number)
}

/// The line of a leveled record: level, source and message, closed by a
/// line feed.
pub open spec fn record_line(
    level: Level,
    module: Option<Seq<char>>,
    line: Option<u32>,
    message: Seq<char>,
) -> Seq<char> {
    level.name() + " - "@ + source_of(module, line) + " - "@ + message + "\n"@
}

impl<'a> Record<'a> {
    /// The line that the record is rendered to.
    pub open spec fn rendered(&self) -> Seq<char> {
        record_line(
            self.level,
            match self.module {
                Some(path) => Some(path@),
                None => None,
            },
            self.line,
            self.message@,
        )
    }

    /// Renders the record to its line.
    pub fn render(&self) -> (out: String)
        ensures
            out@ == self.rendered(),
    {
        let mut out = String::from_str(self.level.as_str());
        out.append(" - ");
        match self.module {
            Some(path) => out.append(path),
            None => out.append("unknown source"),
        }
        out.append(":");
        match self.line {
            Some(n) => push_decimal(&mut out, n),
            None => push_decimal(&mut out, 0),
        }
        out.append(" - ");
        out.append(self.message);
        out.append("\n");
        out
    }
}

} // verus!
