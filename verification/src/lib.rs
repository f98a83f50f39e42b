//! Byte-signature resolution.
//!
//! A *signature* is a pattern of bytes, usually code, with optional wildcard
//! slots. It identifies a location inside a module (a loaded binary image)
//! whose absolute address shifts between builds, so that a consumer can find
//! that location without hard-coding a fragile fixed address.
//!
//! Two kinds of signature are provided:
//!
//! - [`dynamic_signature::DynamicSignature`] holds the pattern and scans the
//!   module's live memory at query time.
//! - [`static_signature::StaticSignature`] holds an offset precomputed over
//!   the module's on-disk image (see [`build_time`]) and validates a single sanity
//!   byte against live memory.
//!
//! Both resolve lazily and cache the first successful result. Looking a
//! module up and reading its memory is the caller's side of the bargain: a
//! resolver is handed the module's region as a [`ModuleRegion`] value, or
//! `None` when the module cannot be located or loaded.

use vstd::prelude::*;

pub mod build_time;
pub mod dynamic_signature;
pub mod pattern;
pub mod static_signature;

verus! {

/// A named module's live memory, as the module memory provider reports it:
/// the base address it is mapped at and the bytes mapped from there on.
pub struct ModuleRegion {
    /// Address the module is mapped at.
    pub base: usize,
    /// The mapped bytes, starting at `base`.
    pub bytes: Vec<u8>,
}

impl ModuleRegion {
    /// The region lies inside the address space: no address within it
    /// overflows `usize`.
    pub open spec fn wf(&self) -> bool {
        self.base + self.bytes@.len() <= usize::MAX
    }
}

/// The provider's answer as contracts see it: absent, or a base address
/// together with the bytes mapped there.
pub open spec fn region_view(region: Option<&ModuleRegion>) -> Option<(usize, Seq<u8>)> {
    match region {
        None => None,
        Some(r) => Some((r.base, r.bytes@)),
    }
}

/// The shared resolution contract: a way to turn a signature into the address
/// it points at, given the module's live memory region.
///
/// The first call may perform work (a scan, or a sanity-byte check); a
/// successful result is cached and every later call returns it unchanged.
/// Failure — module absent, pattern not found, sanity byte wrong — is an
/// absent result, never a panic, and is not cached: a later call may retry.
pub trait Signature: Sized {
    /// Structural invariant of the signature value.
    spec fn wf(&self) -> bool;

    /// The cached resolved address, if one has been resolved already.
    spec fn cached(&self) -> Option<usize>;

    /// The whole behaviour of one resolution step: from the signature's state
    /// and the provider's answer to the new state and the returned address.
    spec fn resolve_spec(&self, region: Option<(usize, Seq<u8>)>) -> (Self, Option<usize>);

    /// The cache is sticky: once an address is cached, resolution returns it
    /// and changes nothing, whatever the provider answers.
    proof fn lemma_cached_sticky(&self, region: Option<(usize, Seq<u8>)>)
        requires
            self.wf(),
            self.cached() is Some,
        ensures
            self.resolve_spec(region) == (*self, self.cached()),
    ;

    /// Resolution leaves the signature well formed and leaves exactly its own
    /// result in the cache.
    proof fn lemma_resolve_caches(&self, region: Option<(usize, Seq<u8>)>)
        requires
            self.wf(),
        ensures
            self.resolve_spec(region).0.wf(),
            self.resolve_spec(region).0.cached() == self.resolve_spec(region).1,
    ;

    /// A module that cannot be located or loaded yields an absent result (and
    /// no new cache entry).
    proof fn lemma_absent_region(&self)
        requires
            self.wf(),
            self.cached() is None,
        ensures
            self.resolve_spec(None) == (*self, None::<usize>),
    ;

    /// Resolve the signature to an address, given the module's live region
    /// (`None` when the module could not be located or loaded).
    fn get(&mut self, region: Option<&ModuleRegion>) -> (r: Option<usize>)
        requires
            old(self).wf(),
            region matches Some(reg) ==> reg.wf(),
        ensures
            (*final(self), r) == old(self).resolve_spec(region_view(region)),
    ;
}

/// Resolution is idempotent: once a resolution has succeeded, every later
/// resolution returns the same address and changes nothing — even if the
/// module's memory changes afterwards, since the provider's later answers are
/// arbitrary here.
pub proof fn lemma_resolve_idempotent<S: Signature>(
    s: S,
    first: Option<(usize, Seq<u8>)>,
    second: Option<(usize, Seq<u8>)>,
)
    requires
        s.wf(),
    ensures
        ({
            let (s1, a1) = s.resolve_spec(first);
            a1 is Some ==> s1.resolve_spec(second) == (s1, a1)
        }),
{
    s.lemma_resolve_caches(first);
    let (s1, a1) = s.resolve_spec(first);
    if a1 is Some {
        s1.lemma_cached_sticky(second);
    }
}

} // verus!
