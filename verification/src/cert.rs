//! The owned certificate handle handed to the external certificate
//! collaborator.
//!
//! A value of this type stands for exactly one native certificate context
//! whose reference count the producer has already incremented; the
//! collaborator that consumes it performs the single matching decrement.

use vstd::prelude::*;

verus! {

/// An independently owned native certificate context.
///
/// The handle is non-null while the value lives, and no two live values own
/// the same increment: the type has no `Clone`, so the single decrement owed
/// for the handle can be performed from exactly one place.
pub struct CertContext {
    handle: usize,
}

impl View for CertContext {
    type V = usize;

    closed spec fn view(&self) -> usize {
        self.handle
    }
}

impl CertContext {
    /// Takes ownership of one already-incremented native certificate handle.
    pub fn owned(handle: usize) -> (c: CertContext)
        requires
            handle != 0,
        ensures
            c@ == handle,
            c.wf(),
    {
        CertContext { handle }
    }

    /// A certificate context is well formed when its native handle is
    /// non-null.
    pub open spec fn wf(self) -> bool {
        self@ != 0
    }

    /// The raw native handle, for store-bound operations of the certificate
    /// collaborator.
    pub fn inner(&self) -> (h: usize)
        ensures
            h == self@,
    {
        self.handle
    }

    /// Surrenders the handle, so that the consumer can perform the single
    /// reference-count decrement this value owes.
    pub fn into_raw(self) -> (h: usize)
        ensures
            h == self@,
    {
        self.handle
    }
}

} // verus!
