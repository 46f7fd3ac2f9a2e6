//! Capability scopes: move-only witness values that gate allocation of new
//! foreign-memory frames and access to foreign memory.
//!
//! Every scope carries the *imprint* of the runtime it belongs to, a plain
//! number identifying the runtime instance.  Operations that combine a scope
//! with a foreign-memory reference demand matching imprints, so values of
//! two runtimes cannot be mixed.
//!
//! Neither scope type is `Copy` or `Clone`, and outside this crate neither
//! can be constructed: the only way to obtain an `AccessScope` is from
//! `TockRv32iCRt::new`, which hands out exactly one per runtime.  A program
//! therefore cannot hold two live `AccessScope` values of one runtime.
//!
//! The imprint is a plain number chosen by the embedder at runtime
//! construction.  The separation between runtimes therefore holds only as
//! far as the embedder gives each runtime a distinct imprint: two runtimes
//! constructed with the same imprint would accept each other's references
//! and scopes.

use crate::tracker::TockRv32iCRtAllocChain;
use vstd::prelude::*;

verus! {

/// Witness that new allocation frames may be constructed inside the tracker
/// chain it carries.
pub struct AllocScope<'a> {
    tracker: TockRv32iCRtAllocChain<'a>,
    imprint: usize,
}

impl<'a> AllocScope<'a> {
    /// The tracker chain held by this scope.
    pub closed spec fn spec_tracker(&self) -> TockRv32iCRtAllocChain<'a> {
        self.tracker
    }

    /// The imprint of the runtime this scope belongs to.
    pub closed spec fn spec_imprint(&self) -> usize {
        self.imprint
    }

    pub(crate) fn new(tracker: TockRv32iCRtAllocChain<'a>, imprint: usize) -> (r: Self)
        ensures
            r.spec_tracker() == tracker,
            r.spec_imprint() == imprint,
    {
        AllocScope { tracker, imprint }
    }

    /// Borrows the tracker chain, for validity checks.
    pub fn tracker(&self) -> (r: &TockRv32iCRtAllocChain<'a>)
        ensures
            *r == self.spec_tracker(),
    {
        &self.tracker
    }

    /// The imprint of the runtime this scope belongs to.
    pub fn id_imprint(&self) -> (r: usize)
        ensures
            r == self.spec_imprint(),
    {
        self.imprint
    }
}

/// Witness that validated foreign memory may be read and written.  Exactly
/// one value exists per runtime; every access takes it by reference, making
/// memory access visible in the type system.
pub struct AccessScope {
    imprint: usize,
}

impl AccessScope {
    /// The imprint of the runtime this scope belongs to.
    pub closed spec fn spec_imprint(&self) -> usize {
        self.imprint
    }

    pub(crate) fn new(imprint: usize) -> (r: Self)
        ensures
            r.spec_imprint() == imprint,
    {
        AccessScope { imprint }
    }

    /// The imprint of the runtime this scope belongs to.
    pub fn id_imprint(&self) -> (r: usize)
        ensures
            r == self.spec_imprint(),
    {
        self.imprint
    }
}

} // verus!
