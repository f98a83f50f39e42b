//! A signature that is evaluated at run time, by scanning live module memory.

use vstd::prelude::*;

use crate::pattern::{find_pattern, first_match, lemma_first_match_spec, Pattern};
use crate::{ModuleRegion, Signature};

verus! {

/// A signature that is resolved by scanning the named module's live memory at
/// query time; the first successful resolution is cached.
///
/// This strategy re-derives the address correctly across binary updates as
/// long as the byte context around the target is unchanged, at the cost of a
/// full-module scan on first use.
#[derive(Debug)]
pub struct DynamicSignature {
    /// The cached resolved address; empty until the first successful
    /// resolution.
    pub addr: Option<usize>,
    /// Name of the module whose memory is scanned.
    pub module: String,
    /// The pattern scanned for.
    pub pattern: Pattern,
}

impl DynamicSignature {
    /// A fresh dynamic signature for `pattern` inside the module named
    /// `module`, with an empty cache.
    pub fn new(module: String, pattern: Pattern) -> (s: Self)
        requires
            pattern@.len() > 0,
        ensures
            s.addr is None,
            s.module == module,
            s.pattern == pattern,
            s.wf(),
    {
        DynamicSignature { addr: None, module, pattern }
    }
}

impl Signature for DynamicSignature {
    /// A pattern is a non-empty sequence of slots.
    open spec fn wf(&self) -> bool {
        self.pattern@.len() > 0
    }

    open spec fn cached(&self) -> Option<usize> {
        self.addr
    }

    /// Nothing happens once cached; otherwise, with a region at hand, the
    /// resolved address is the base plus the first offset at which the
    /// pattern matches the region's bytes.
    open spec fn resolve_spec(&self, region: Option<(usize, Seq<u8>)>) -> (Self, Option<usize>) {
        if self.addr is Some {
            (*self, self.addr)
        } else {
            match region {
                None => (*self, None),
                Some((base, bytes)) => match first_match(bytes, self.pattern@) {
                    Some(o) => {
                        let a = (base + o) as usize;
                        (
                            DynamicSignature {
                                addr: Some(a),
                                module: self.module,
                                pattern: self.pattern,
                            },
                            Some(a),
                        )
                    },
                    None => (*self, None),
                },
            }
        }
    }

    proof fn lemma_cached_sticky(&self, region: Option<(usize, Seq<u8>)>) {
    }

    proof fn lemma_resolve_caches(&self, region: Option<(usize, Seq<u8>)>) {
    }

    proof fn lemma_absent_region(&self) {
    }

    fn get(&mut self, region: Option<&ModuleRegion>) -> (r: Option<usize>) {
        if let Some(x) = self.addr {
            return Some(x);
        }
        match region {
            None => None,
            Some(reg) => {
                proof {
                    lemma_first_match_spec(reg.bytes@, self.pattern@);
                }
                match find_pattern(&reg.bytes, &self.pattern) {
                    Some(o) => {
                        let a = reg.base + o;
                        self.addr = Some(a);
                        Some(a)
                    },
                    None => None,
                }
            },
        }
    }
}

} // verus!
