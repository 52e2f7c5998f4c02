//! Deep query of a ZIP archive: the list of its members. This opens the
//! archive with a format-aware reader and is never part of identification.

use vstd::prelude::*;

verus! {

/// One member of an archive.
#[derive(Debug, PartialEq, Eq)]
pub struct ZipMember {
    pub name: String,
    /// Uncompressed size in bytes.
    pub size: u64,
}

/// The members of the ZIP archive held in `b`, as (name, uncompressed size),
/// one per distinct name: the reader keys its entries by name, so a repeated
/// name keeps the position of its first entry and the data of the last one.
/// `None` when `b` cannot be read as an archive or one of its members cannot
/// be located.
pub uninterp spec fn zip_listing(b: Seq<u8>) -> Option<Seq<(Seq<char>, u64)>>;

pub open spec fn members_view(v: Seq<ZipMember>) -> Seq<(Seq<char>, u64)> {
    v.map_values(|m: ZipMember| (m.name@, m.size))
}

/// Relies on `zip::ZipArchive::new` over the bytes, then `by_index_raw`,
/// `name` and `size` for each index below `len`: the central directory's
/// entries, read without decompressing anything.
#[verifier::external_body]
fn read_zip_members(b: &[u8]) -> (r: Option<Vec<ZipMember>>)
    ensures
        r is Some <==> zip_listing(b@) is Some,
        r is Some ==> members_view(r.unwrap()@) == zip_listing(b@).unwrap(),
{
    let mut archive = zip::ZipArchive::new(std::io::Cursor::new(b)).ok()?;
    let mut members = Vec::new();
    for i in 0..archive.len() {
        let entry = archive.by_index_raw(i).ok()?;
        let name = entry.name().ok()?.into_owned();
        members.push(ZipMember { name, size: entry.size() });
    }
    Some(members)
}

/// The listing of a ZIP archive.
pub struct ZipFile {
    pub files: Vec<ZipMember>,
}

impl ZipFile {
    /// Lists the members of the archive held in `bytes`; `None` when it
    /// cannot be read as one.
    pub fn files(bytes: &[u8]) -> (r: Option<ZipFile>)
        ensures
            r is Some <==> zip_listing(bytes@) is Some,
            r is Some ==> members_view(r.unwrap().files@) == zip_listing(bytes@).unwrap(),
    {
        match read_zip_members(bytes) {
            Some(files) => Some(ZipFile { files }),
            None => None,
        }
    }
}

} // verus!
