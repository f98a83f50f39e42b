//! Build-time resolution: from a module's on-disk image and a pattern to the
//! `(module name, offset, sanity byte)` triple a static signature embeds.

use vstd::prelude::*;

use crate::dynamic_signature::DynamicSignature;
use crate::pattern::{
    find_pattern, first_match, lemma_first_match_spec, lemma_first_match_unique,
    lemma_matches_at_shift, matches_at, Pattern,
};
use crate::static_signature::StaticSignature;
use crate::Signature;

verus! {

/// Size of the on-disk header that the file image omits but that is present
/// once the module is mapped: a file offset becomes an offset from the live
/// base address by adding this constant.
pub const HEADER_SIZE: usize = 0xC00;

/// What build-time resolution yields over a file image: the first match
/// offset adjusted by the header size, paired with the image byte at the raw
/// match offset (the sanity byte); nothing when the pattern matches nowhere.
pub open spec fn build_spec(image: Seq<u8>, pat: Seq<Option<u8>>) -> Option<(usize, u8)> {
    match first_match(image, pat) {
        Some(o) => Some((((o + HEADER_SIZE) as usize), image[o])),
        None => None,
    }
}

/// Build-time resolution over a module's on-disk image.
///
/// Runs the pattern search over the image bytes; on a match it records the
/// matched file offset adjusted by [`HEADER_SIZE`] together with the byte at
/// the raw match offset. `None` — the pattern matches nowhere — is fatal to
/// the caller's build: no triple must be emitted from it.
pub fn resolve_image(image: &Vec<u8>, pattern: &Pattern) -> (r: Option<(usize, u8)>)
    requires
        pattern@.len() > 0,
        image@.len() + HEADER_SIZE <= usize::MAX,
    ensures
        r == build_spec(image@, pattern@),
        r is Some <==> first_match(image@, pattern@) is Some,
{
    proof {
        lemma_first_match_spec(image@, pattern@);
    }
    match find_pattern(image, pattern) {
        Some(o) => {
            let off = o + HEADER_SIZE;
            let sanity = image[o];
            Some((off, sanity))
        },
        None => None,
    }
}

/// Where the pattern first matches the image at file offset `x`, build-time
/// resolution yields exactly the stored offset `x + HEADER_SIZE` and the
/// image byte at `x` as the sanity byte.
pub proof fn lemma_build_offset(image: Seq<u8>, pat: Seq<Option<u8>>, x: int)
    requires
        matches_at(image, pat, x),
        forall|i: int| 0 <= i < x ==> !matches_at(image, pat, i),
    ensures
        build_spec(image, pat) == Some((((x + HEADER_SIZE) as usize), image[x])),
{
    lemma_first_match_unique(image, pat, x);
}

/// Dynamic and static resolution agree: against live memory that maps the
/// module's header followed by its file image, a static signature built from
/// a pattern over the file image resolves to the very address the dynamic
/// signature finds by scanning — and both succeed — provided the pattern does
/// not also match somewhere in the first [`HEADER_SIZE`] bytes of live
/// memory (there the dynamic scan would find an earlier occurrence).
pub proof fn lemma_dynamic_static_agree(
    d: DynamicSignature,
    s: StaticSignature,
    base: usize,
    header: Seq<u8>,
    image: Seq<u8>,
)
    requires
        d.wf(),
        d.addr is None,
        s.addr is None,
        header.len() == HEADER_SIZE,
        image.len() + HEADER_SIZE <= usize::MAX,
        base + header.len() + image.len() <= usize::MAX,
        build_spec(image, d.pattern@) == Some((s.offset, s.sanity)),
        forall|i: int| 0 <= i < header.len() ==> !matches_at(header + image, d.pattern@, i),
    ensures
        ({
            let (d2, da) = d.resolve_spec(Some((base, header + image)));
            let (s2, sa) = s.resolve_spec(Some((base, header + image)));
            da is Some && sa == da
        }),
{
    let pat = d.pattern@;
    let live = header + image;
    lemma_first_match_spec(image, pat);
    let fm = first_match(image, pat);
    assert(fm is Some);
    let f = fm->Some_0;
    assert(f + pat.len() <= image.len());
    assert(f < image.len());
    lemma_matches_at_shift(header, image, pat, HEADER_SIZE + f);
    assert(matches_at(live, pat, HEADER_SIZE + f));
    assert forall|i: int| 0 <= i < HEADER_SIZE + f implies !matches_at(live, pat, i) by {
        if HEADER_SIZE <= i {
            lemma_matches_at_shift(header, image, pat, i);
        }
    }
    lemma_first_match_unique(live, pat, HEADER_SIZE + f);
    assert(s.offset == f + HEADER_SIZE);
    assert(s.sanity == image[f]);
    assert(live[s.offset as int] == image[f]);
}

} // verus!
