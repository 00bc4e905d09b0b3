//! The registry that holds the current transport.

use vstd::prelude::*;
use crate::transport::{DefaultConsole, Transport, WriteError};

verus! {

/// What a console is, to its callers.
pub struct ConsoleView<T> {
    /// The installed transport, as its last operation left it.
    pub current: Option<T>,
    /// The transports that were superseded, oldest first, each as its release
    /// hook left it.
    pub retired: Seq<T>,
}

impl<T: Transport> ConsoleView<T> {
    /// A console in which nothing was ever installed.
    pub open spec fn fresh() -> Self {
        ConsoleView { current: None, retired: Seq::empty() }
    }

    /// Installing `transport` may take a console from `self` to `next`: the
    /// new transport is current and untouched, and the one it superseded, if
    /// any, joined the retired ones after one run of its release hook.
    pub open spec fn replaced(self, transport: T, next: Self) -> bool {
        &&& next.current == Some(transport)
        &&& match self.current {
            None => next.retired == self.retired,
            Some(previous) => {
                &&& next.retired.len() == self.retired.len() + 1
                &&& next.retired.drop_last() == self.retired
                &&& T::released(previous, next.retired.last())
            },
        }
    }

    /// Dispatching `text` may take a console from `self` to `next` with the
    /// outcome `ok`: the current transport made one write of exactly `text`,
    /// or, where there is none, the text was absorbed. No retired transport
    /// is touched.
    pub open spec fn dispatched(self, text: Seq<char>, next: Self, ok: bool) -> bool {
        &&& next.retired == self.retired
        &&& match self.current {
            None => ok && next.current is None,
            Some(transport) => {
                &&& next.current is Some
                &&& T::written(transport, text, next.current->0, ok)
            },
        }
    }
}

/// The console: at most one transport is installed in it at any time.
pub struct Console<T: Transport> {
    current: Option<T>,
    default: DefaultConsole,
    retired: Ghost<Seq<T>>,
}

impl<T: Transport> View for Console<T> {
    type V = ConsoleView<T>;

    closed spec fn view(&self) -> ConsoleView<T> {
        ConsoleView { current: self.current, retired: self.retired@ }
    }
}

impl<T: Transport> Console<T> {
    /// A console with no transport installed.
    pub fn new() -> (console: Self)
        ensures
            console@ == ConsoleView::<T>::fresh(),
    {
        Console { current: None, default: DefaultConsole, retired: Ghost(Seq::empty()) }
    }

    /// Installs `console` as the current transport. The transport that was
    /// current until now is released once the new one is in place.
    pub fn replace(&mut self, console: T)
        ensures
            old(self)@.replaced(console, final(self)@),
    {
        let mut previous = Some(console);
        core::mem::swap(&mut self.current, &mut previous);
        if let Some(mut superseded) = previous {
            superseded.release();
            proof {
                self.retired@ = self.retired@.push(superseded);
                assert(self.retired@.drop_last() =~= old(self).retired@);
            }
        }
    }

    /// Hands `text` to the current transport, or to the fallback sink where
    /// none is installed. An error is the transport's own; the caller is
    /// meant to treat it as fatal.
    pub fn dispatch(&mut self, text: &str) -> (res: Result<(), WriteError>)
        ensures
            old(self)@.dispatched(text@, final(self)@, res is Ok),
    {
        match &mut self.current {
            Some(transport) => transport.write_str(text),
            None => self.default.write_str(text),
        }
    }
}

/// Whether `states` is a run of installations: `installs[i]` was installed
/// in `states[i]` and left `states[i + 1]`.
pub open spec fn installation_run<T: Transport>(
    states: Seq<ConsoleView<T>>,
    installs: Seq<T>,
) -> bool {
    &&& states.len() == installs.len() + 1
    &&& forall|i: int|
        0 <= i < installs.len() ==> #[trigger] states[i].replaced(installs[i], states[i + 1])
}

/// However many transports were installed one after the other, a dispatch
/// goes through the one that was installed last: that transport makes one
/// write of the text, it stays installed, and no superseded transport is
/// touched.
pub proof fn lemma_dispatch_reaches_latest<T: Transport>(
    states: Seq<ConsoleView<T>>,
    installs: Seq<T>,
    text: Seq<char>,
    next: ConsoleView<T>,
    ok: bool,
)
    requires
        installation_run(states, installs),
        installs.len() > 0,
        states.last().dispatched(text, next, ok),
    ensures
        next.current is Some,
        T::written(installs.last(), text, next.current->0, ok),
        next.retired == states.last().retired,
{
    let last = installs.len() - 1;
    assert(states[last].replaced(installs[last], states[last + 1]));
}

/// As long as nothing was installed, a dispatch succeeds and leaves no
/// trace: the console is as fresh as before.
pub proof fn lemma_dispatch_before_install<T: Transport>(
    text: Seq<char>,
    next: ConsoleView<T>,
    ok: bool,
)
    requires
        ConsoleView::<T>::fresh().dispatched(text, next, ok),
    ensures
        ok,
        next == ConsoleView::<T>::fresh(),
{
    assert(next.retired =~= Seq::<T>::empty());
}

/// Replacing a transport runs its release hook once: the superseded
/// transport joins the retired ones as one run of the hook left it, and the
/// new transport is current as it was handed in. Where nothing was
/// installed, nothing is released.
pub proof fn lemma_replace_releases_once<T: Transport>(
    before: ConsoleView<T>,
    transport: T,
    after: ConsoleView<T>,
)
    requires
        before.replaced(transport, after),
    ensures
        after.current == Some(transport),
        before.current is None ==> after.retired == before.retired,
        before.current is Some ==> {
            &&& after.retired == before.retired.push(after.retired.last())
            &&& T::released(before.current->0, after.retired.last())
        },
{
    if before.current is Some {
        assert(after.retired =~= after.retired.drop_last().push(after.retired.last()));
    }
}

/// A retired transport is never touched again: neither a dispatch nor a
/// later replacement changes it or its place among the retired ones.
pub proof fn lemma_retired_stay<T: Transport>(
    before: ConsoleView<T>,
    after: ConsoleView<T>,
    i: int,
)
    requires
        0 <= i < before.retired.len(),
        (exists|transport: T| before.replaced(transport, after)) || (exists|
            text: Seq<char>,
            ok: bool,
        | before.dispatched(text, after, ok)),
    ensures
        i < after.retired.len(),
        after.retired[i] == before.retired[i],
{
    if exists|transport: T| before.replaced(transport, after) {
        let transport = choose|transport: T| before.replaced(transport, after);
        if before.current is Some {
            assert(after.retired.drop_last()[i] == after.retired[i]);
        }
    }
}

} // verus!
