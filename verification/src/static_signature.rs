//! A signature that is evaluated ahead of time and validated at run time.

use vstd::prelude::*;

use crate::{ModuleRegion, Signature};

verus! {

/// A signature resolved through an offset precomputed over the module's
/// on-disk image (see [`crate::build_time`]), plus one stored *sanity byte*.
///
/// Resolution adds the stored offset to the module's live base address and
/// compares the byte there with the stored sanity byte. A mismatch means the
/// target binary has changed layout since the offset was computed, and
/// resolution fails rather than hand out a wrong address. The single-byte
/// check is a knowingly weak but cheap guard — deliberately not a
/// re-validation of the whole pattern.
#[derive(Debug)]
pub struct StaticSignature {
    /// The cached resolved address; empty until the first successful
    /// resolution.
    pub addr: Option<usize>,
    /// Name of the module the offset was computed for.
    pub module: String,
    /// Precomputed offset from the module's live base address.
    pub offset: usize,
    /// The byte expected at `base + offset` in live memory.
    pub sanity: u8,
}

impl StaticSignature {
    /// A fresh static signature from a `(module name, offset, sanity byte)`
    /// triple, normally one emitted by build-time resolution, with an empty
    /// cache.
    pub fn new(a: (String, usize, u8)) -> (s: Self)
        ensures
            s.addr is None,
            s.module == a.0,
            s.offset == a.1,
            s.sanity == a.2,
            s.wf(),
    {
        StaticSignature { addr: None, module: a.0, offset: a.1, sanity: a.2 }
    }
}

impl Signature for StaticSignature {
    open spec fn wf(&self) -> bool {
        true
    }

    open spec fn cached(&self) -> Option<usize> {
        self.addr
    }

    /// Nothing happens once cached; otherwise, with a region at hand, the
    /// candidate address is the base plus the stored offset, and it is handed
    /// out exactly when the region's byte at the stored offset equals the
    /// stored sanity byte. An offset outside the region fails: the sanity
    /// read is only made inside the mapped module region.
    open spec fn resolve_spec(&self, region: Option<(usize, Seq<u8>)>) -> (Self, Option<usize>) {
        if self.addr is Some {
            (*self, self.addr)
        } else {
            match region {
                None => (*self, None),
                Some((base, bytes)) => {
                    if self.offset < bytes.len() && bytes[self.offset as int] == self.sanity {
                        let a = (base + self.offset) as usize;
                        (
                            StaticSignature {
                                addr: Some(a),
                                module: self.module,
                                offset: self.offset,
                                sanity: self.sanity,
                            },
                            Some(a),
                        )
                    } else {
                        (*self, None)
                    }
                },
            }
        }
    }

    proof fn lemma_cached_sticky(&self, region: Option<(usize, Seq<u8>)>) {
    }

    proof fn lemma_resolve_caches(&self, region: Option<(usize, Seq<u8>)>) {
    }

    proof fn lemma_absent_region(&self) {
    }

    fn get(&mut self, region: Option<&ModuleRegion>) -> (r: Option<usize>) {
        if let Some(x) = self.addr {
            return Some(x);
        }
        match region {
            None => None,
            Some(reg) => {
                if self.offset < reg.bytes.len() && reg.bytes[self.offset] == self.sanity {
                    let a = reg.base + self.offset;
                    self.addr = Some(a);
                    Some(a)
                } else {
                    None
                }
            },
        }
    }
}

/// A sanity-byte mismatch never yields an address: with an empty cache and a
/// live byte at the stored offset different from the stored sanity byte,
/// resolution returns nothing and caches nothing.
pub proof fn lemma_sanity_mismatch(s: StaticSignature, base: usize, bytes: Seq<u8>)
    requires
        s.addr is None,
        s.offset < bytes.len() ==> bytes[s.offset as int] != s.sanity,
    ensures
        s.resolve_spec(Some((base, bytes))) == (s, None::<usize>),
{
}

} // verus!
