//! The fixed engine-level policy under which the store is opened.

use vstd::prelude::*;

verus! {

/// The open policy handed to the engine: create the store when none exists
/// yet, do not fail when one already does, and verify integrity with
/// paranoid checks. Fixed at construction and never mutated.
pub struct Options {
    create_if_missing_: bool,
    error_if_exists_: bool,
    paranoid_checks_: bool,
}

impl Options {
    /// Whether the engine creates the store when none exists at the path.
    pub closed spec fn spec_create_if_missing(&self) -> bool {
        self.create_if_missing_
    }

    /// Whether the engine fails when a store already exists at the path.
    pub closed spec fn spec_error_if_exists(&self) -> bool {
        self.error_if_exists_
    }

    /// Whether the engine verifies stored data with paranoid checks.
    pub closed spec fn spec_paranoid_checks(&self) -> bool {
        self.paranoid_checks_
    }

    /// Whether the engine creates the store when none exists at the path.
    #[verifier::when_used_as_spec(spec_create_if_missing)]
    pub fn create_if_missing(&self) -> (r: bool)
        ensures
            r == self.spec_create_if_missing(),
    {
        self.create_if_missing_
    }

    /// Whether the engine fails when a store already exists at the path.
    #[verifier::when_used_as_spec(spec_error_if_exists)]
    pub fn error_if_exists(&self) -> (r: bool)
        ensures
            r == self.spec_error_if_exists(),
    {
        self.error_if_exists_
    }

    /// Whether the engine verifies stored data with paranoid checks.
    #[verifier::when_used_as_spec(spec_paranoid_checks)]
    pub fn paranoid_checks(&self) -> (r: bool)
        ensures
            r == self.spec_paranoid_checks(),
    {
        self.paranoid_checks_
    }

    /// The one policy this crate ever opens a store under.
    pub fn new() -> (r: Options)
        ensures
            r.create_if_missing(),
            !r.error_if_exists(),
            r.paranoid_checks(),
    {
        Options { create_if_missing_: true, error_if_exists_: false, paranoid_checks_: true }
    }
}

} // verus!
