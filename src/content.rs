//! The content step of one regular, non-empty file: the digests the plan
//! asks for and, when asked, discovery over the same bytes.

use vstd::prelude::*;
use crate::discover::{discover, spec_metadata};
use crate::hash::{blake3_hex, sha256_hex, ContentDigests};
use crate::layout::{fields_view, Field};
use crate::pipeline::ContentPlan;
use crate::signature::{first_match, spec_registry};

verus! {

/// What the content step found. A computation the plan did not ask for is
/// `None`; discovery finding nothing is `None` too, not an error.
pub struct ContentReport {
    pub digests: ContentDigests,
    pub mime: Option<&'static str>,
    pub metadata: Option<Vec<Field>>,
}

/// Runs the digest and discovery parts of `plan` over `bytes`; each part is
/// independent of the others.
pub fn process_content(bytes: &[u8], plan: ContentPlan) -> (r: ContentReport)
    ensures
        r.digests.blake3 is Some <==> plan.digests.blake3,
        r.digests.blake3 is Some ==> r.digests.blake3.unwrap()@ == blake3_hex(bytes@),
        r.digests.sha256 is Some <==> plan.digests.sha256,
        r.digests.sha256 is Some ==> r.digests.sha256.unwrap()@ == sha256_hex(bytes@),
        r.mime is Some <==> plan.discover && first_match(spec_registry(), bytes@) is Some,
        r.mime is Some ==> r.mime.unwrap()@ == first_match(spec_registry(), bytes@).unwrap().spec_mime(),
        r.metadata is Some <==> plan.discover && first_match(spec_registry(), bytes@) is Some
            && spec_metadata(first_match(spec_registry(), bytes@).unwrap(), bytes@) is Some,
        r.metadata is Some ==> fields_view(r.metadata.unwrap()@)
            == spec_metadata(first_match(spec_registry(), bytes@).unwrap(), bytes@).unwrap(),
{
    let digests = ContentDigests::compute(bytes, plan.digests);
    if plan.discover {
        let (mime, metadata) = discover(bytes);
        ContentReport { digests, mime, metadata }
    } else {
        ContentReport { digests, mime: None, metadata: None }
    }
}

} // verus!
