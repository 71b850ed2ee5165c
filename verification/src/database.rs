//! The database handle: the exclusive owner of the engine's store resource.

use vstd::prelude::*;

use crate::error::Error;

verus! {

/// What the engine reported when asked to open the store.
pub enum OpenOutcome {
    /// The engine opened (or created) the store and handed out a handle.
    Success,
    /// The engine refused, through its error protocol, with this message.
    Failure(String),
}

/// The owner of the engine's store handle.
///
/// A handle starts unopened, is bound to a store at most once by `open`,
/// and is released by `close`, which may be repeated freely. Opening an
/// already-open handle is misuse, not an environmental failure, and is
/// ruled out by `open`'s precondition rather than reported as an `Err`.
pub struct Database {
    opened_: bool,
}

impl Database {
    /// Whether the handle currently owns an open store.
    pub closed spec fn spec_is_open(&self) -> bool {
        self.opened_
    }

    /// Whether the handle currently owns an open store.
    #[verifier::when_used_as_spec(spec_is_open)]
    pub fn is_open(&self) -> (r: bool)
        ensures
            r == self.spec_is_open(),
    {
        self.opened_
    }

    /// Creates a handle in the unopened state.
    pub fn new() -> (r: Database)
        ensures
            !r.is_open(),
    {
        Database { opened_: false }
    }

    /// Records the outcome of asking the engine to open (creating it if
    /// missing) the store: on success the handle becomes open and the call
    /// returns `Ok`; on failure it stays unopened and the engine's message
    /// comes back as the error.
    pub fn open(&mut self, outcome: OpenOutcome) -> (r: Result<(), Error>)
        requires
            !old(self).is_open(),
        ensures
            match outcome {
                OpenOutcome::Success => final(self).is_open() && r is Ok,
                OpenOutcome::Failure(m) => !final(self).is_open() && (r matches Err(e) && e@
                    == m@),
            },
    {
        match outcome {
            OpenOutcome::Success => {
                self.opened_ = true;
                Ok(())
            },
            OpenOutcome::Failure(message) => Err(Error::engine_failure(message)),
        }
    }

    /// Releases the store if the handle is open; on an unopened handle this
    /// does nothing. Safe to repeat.
    pub fn close(&mut self)
        ensures
            !final(self).is_open(),
    {
        self.opened_ = false;
    }
}

} // verus!
