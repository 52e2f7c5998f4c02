//! Discovery: identification by signature followed by the decoding of the
//! format's fixed leading record in the format's own byte order.

use vstd::prelude::*;
use crate::layout::{
    fields_view, BitmapFileHeaderAndCore, Field, FieldValue, IconDir, WavHeader, IHDR,
    BITMAP_HEADER_SIZE, ICON_DIR_SIZE, IHDR_SIZE, WAV_HEADER_SIZE,
};
use crate::signature::{first_match, identify_kind, spec_registry, FileKind};

verus! {

/// The structured metadata of a buffer of kind `k`: the published fields of
/// the kind's leading record, read in the kind's byte order; `None` for kinds
/// without a record and for buffers shorter than the record.
pub open spec fn spec_metadata(k: FileKind, s: Seq<u8>) -> Option<Seq<(Seq<char>, FieldValue)>> {
    let e = k.spec_endianness();
    match k {
        FileKind::Png => if s.len() >= IHDR_SIZE { Some(IHDR::spec_fields(s, e)) } else { None },
        FileKind::Bmp => if s.len() >= BITMAP_HEADER_SIZE {
            Some(BitmapFileHeaderAndCore::spec_fields(s, e))
        } else {
            None
        },
        FileKind::Ico => if s.len() >= ICON_DIR_SIZE { Some(IconDir::spec_fields(s, e)) } else { None },
        FileKind::Wav => if s.len() >= WAV_HEADER_SIZE { Some(WavHeader::spec_fields(s, e)) } else { None },
        _ => None,
    }
}

/// Decodes the leading record of a buffer of kind `kind` into named values.
pub fn metadata(kind: FileKind, bytes: &[u8]) -> (r: Option<Vec<Field>>)
    ensures
        r is Some <==> spec_metadata(kind, bytes@) is Some,
        r is Some ==> fields_view(r.unwrap()@) == spec_metadata(kind, bytes@).unwrap(),
{
    let e = kind.endianness();
    match kind {
        FileKind::Png => match IHDR::decode(bytes, e) {
            Some(h) => Some(h.fields(Ghost(bytes@), Ghost(e))),
            None => None,
        },
        FileKind::Bmp => match BitmapFileHeaderAndCore::decode(bytes, e) {
            Some(h) => Some(h.fields(Ghost(bytes@), Ghost(e))),
            None => None,
        },
        FileKind::Ico => match IconDir::decode(bytes, e) {
            Some(h) => Some(h.fields(Ghost(bytes@), Ghost(e))),
            None => None,
        },
        FileKind::Wav => match WavHeader::decode(bytes, e) {
            Some(h) => Some(h.fields(Ghost(bytes@), Ghost(e))),
            None => None,
        },
        _ => None,
    }
}

/// The label of the first registered signature that `bytes` matches, and the
/// structured metadata of that format when it has some.
pub fn discover(bytes: &[u8]) -> (r: (Option<&'static str>, Option<Vec<Field>>))
    ensures
        r.0 is Some <==> first_match(spec_registry(), bytes@) is Some,
        r.0 is Some ==> r.0.unwrap()@ == first_match(spec_registry(), bytes@).unwrap().spec_mime(),
        r.1 is Some <==> first_match(spec_registry(), bytes@) is Some
            && spec_metadata(first_match(spec_registry(), bytes@).unwrap(), bytes@) is Some,
        r.1 is Some ==> fields_view(r.1.unwrap()@)
            == spec_metadata(first_match(spec_registry(), bytes@).unwrap(), bytes@).unwrap(),
{
    match identify_kind(bytes) {
        None => (None, None),
        Some(k) => (Some(k.label()), metadata(k, bytes)),
    }
}

} // verus!
