//! What an output channel must offer to be installed in a console.

use vstd::prelude::*;

verus! {

/// A transport could not take the text it was handed.
#[derive(Clone, Copy, Debug, PartialEq, Eq, Structural)]
pub struct WriteError;

/// An output channel: it consumes text and can be released when another
/// channel takes its place.
///
/// The two relations are the transport's own account of what its operations
/// do. A console promises to run these operations and nothing else on the
/// transport it holds, so its contracts are stated through them.
pub trait Transport: Sized {
    /// One write of `text` may take the transport from `before` to `after`,
    /// reporting success exactly if `ok`. A transport that says nothing of
    /// itself allows every outcome.
    open spec fn written(before: Self, text: Seq<char>, after: Self, ok: bool) -> bool {
        true
    }

    /// One run of the release hook may take the transport from `before` to
    /// `after`. A transport that says nothing of itself allows every
    /// outcome.
    open spec fn released(before: Self, after: Self) -> bool {
        true
    }

    /// Consumes `text`. `Ok` means that all of it was taken.
    fn write_str(&mut self, text: &str) -> (res: Result<(), WriteError>)
        ensures
            Self::written(*old(self), text@, *final(self), res is Ok),
    ;

    /// The release hook. A console runs it once on a transport that it has
    /// just superseded.
    fn release(&mut self)
        ensures
            Self::released(*old(self), *final(self)),
    ;
}

/// The fallback sink: it discards whatever it is handed and never fails.
#[derive(Clone, Copy, Debug, PartialEq, Eq, Structural)]
pub struct DefaultConsole;

impl Transport for DefaultConsole {
    open spec fn written(before: Self, text: Seq<char>, after: Self, ok: bool) -> bool {
        ok && after == before
    }

    open spec fn released(before: Self, after: Self) -> bool {
        after == before
    }

    fn write_str(&mut self, _text: &str) -> (res: Result<(), WriteError>) {
        Ok(())
    }

    fn release(&mut self) {
    }
}

} // verus!
