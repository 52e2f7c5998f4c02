//! The registry of known file signatures and first-match identification.

use vstd::prelude::*;

verus! {

/// Byte order of the multi-byte integers of a format's fixed header.
#[derive(Debug, Clone, Copy, PartialEq, Eq, Structural)]
pub enum Endianness {
    BigEndian,
    LittleEndian,
}

/// The closed set of formats the registry knows, one variant per format.
#[derive(Debug, Clone, Copy, PartialEq, Eq, Structural)]
pub enum FileKind {
    Png,
    Sqlite3,
    Gif87a,
    Gif89a,
    Bmp,
    Ico,
    Wav,
    Regf,
    Zip,
}

/// A magic-number signature: leading bytes, optional trailing bytes,
/// a mime-like label and the byte order of the format.
pub struct FileSignature {
    pub header: Vec<u8>,
    pub footer: Option<Vec<u8>>,
    pub mime: &'static str,
    pub endianness: Endianness,
}

/// Whether `b` starts with `pat`.
pub open spec fn has_prefix(b: Seq<u8>, pat: Seq<u8>) -> bool {
    pat.len() <= b.len() && b.subrange(0, pat.len() as int) == pat
}

/// Whether `b` ends with `pat`.
pub open spec fn has_suffix(b: Seq<u8>, pat: Seq<u8>) -> bool {
    pat.len() <= b.len() && b.subrange(b.len() - pat.len(), b.len() as int) == pat
}

/// A buffer matches a signature when it starts with the header and, if a
/// footer is defined, is long enough to hold both and ends with the footer.
pub open spec fn signature_matches(header: Seq<u8>, footer: Option<Seq<u8>>, b: Seq<u8>) -> bool {
    match footer {
        None => has_prefix(b, header),
        Some(f) => header.len() + f.len() <= b.len() && has_prefix(b, header) && has_suffix(b, f),
    }
}

impl FileSignature {
    pub open spec fn footer_view(&self) -> Option<Seq<u8>> {
        match self.footer {
            None => None,
            Some(f) => Some(f@),
        }
    }

    /// A signature has a non-empty header.
    pub open spec fn wf(&self) -> bool {
        self.header@.len() > 0
    }

    pub open spec fn matches(&self, b: Seq<u8>) -> bool {
        signature_matches(self.header@, self.footer_view(), b)
    }

    /// The label of this signature when `bytes` matches it.
    pub fn mime(&self, bytes: &[u8]) -> (r: Option<&'static str>)
        ensures
            r == (if self.matches(bytes@) { Some(self.mime) } else { None }),
    {
        let ok = match &self.footer {
            None => starts_with(bytes, &self.header),
            Some(f) => {
                self.header.len() <= bytes.len() && f.len() <= bytes.len() - self.header.len()
                    && starts_with(bytes, &self.header) && ends_with(bytes, f)
            },
        };
        if ok {
            Some(self.mime)
        } else {
            None
        }
    }
}

/// Whether `bytes` starts with `pat`.
fn starts_with(bytes: &[u8], pat: &Vec<u8>) -> (r: bool)
    ensures
        r == has_prefix(bytes@, pat@),
{
    if pat.len() > bytes.len() {
        return false;
    }
    let mut i: usize = 0;
    while i < pat.len()
        invariant
            pat@.len() <= bytes@.len(),
            i <= pat@.len(),
            forall|j: int| 0 <= j < i ==> bytes@[j] == pat@[j],
        decreases pat@.len() - i,
    {
        if bytes[i] != pat[i] {
            assert(bytes@.subrange(0, pat@.len() as int)[i as int] != pat@[i as int]);
            return false;
        }
        i = i + 1;
    }
    assert(bytes@.subrange(0, pat@.len() as int) =~= pat@);
    true
}

/// Whether `bytes` ends with `pat`.
fn ends_with(bytes: &[u8], pat: &Vec<u8>) -> (r: bool)
    ensures
        r == has_suffix(bytes@, pat@),
{
    if pat.len() > bytes.len() {
        return false;
    }
    let n = bytes.len();
    let start = n - pat.len();
    let mut i: usize = 0;
    while i < pat.len()
        invariant
            n == bytes@.len(),
            pat@.len() <= bytes@.len(),
            start + pat@.len() == bytes@.len(),
            i <= pat@.len(),
            forall|j: int| 0 <= j < i ==> bytes@[start + j] == pat@[j],
        decreases pat@.len() - i,
    {
        if bytes[start + i] != pat[i] {
            assert(bytes@.subrange(start as int, bytes@.len() as int)[i as int] != pat@[i as int]);
            return false;
        }
        i = i + 1;
    }
    assert(bytes@.subrange(start as int, bytes@.len() as int) =~= pat@);
    true
}

impl FileKind {
    pub open spec fn spec_header(self) -> Seq<u8> {
        match self {
            FileKind::Png => seq![0x89u8, 0x50, 0x4E, 0x47, 0x0D, 0x0A, 0x1A, 0x0A],
            FileKind::Sqlite3 => seq![
                0x53u8, 0x51, 0x4C, 0x69, 0x74, 0x65, 0x20, 0x66,
                0x6F, 0x72, 0x6D, 0x61, 0x74, 0x20, 0x33, 0x00,
            ],
            FileKind::Gif87a => seq![0x47u8, 0x49, 0x46, 0x38, 0x37, 0x61],
            FileKind::Gif89a => seq![0x47u8, 0x49, 0x46, 0x38, 0x39, 0x61],
            FileKind::Bmp => seq![0x42u8, 0x4D],
            FileKind::Ico => seq![0x00u8, 0x00, 0x01, 0x00],
            FileKind::Wav => seq![0x52u8, 0x49, 0x46, 0x46],
            FileKind::Regf => seq![0x72u8, 0x65, 0x67, 0x66],
            FileKind::Zip => seq![0x50u8, 0x4B, 0x03, 0x04],
        }
    }

    /// Only PNG carries a footer: the CRC of its trailing IEND chunk.
    pub open spec fn spec_footer(self) -> Option<Seq<u8>> {
        match self {
            FileKind::Png => Some(seq![0xAEu8, 0x42, 0x60, 0x82]),
            _ => None,
        }
    }

    pub open spec fn spec_mime(self) -> Seq<char> {
        match self {
            FileKind::Png => "png"@,
            FileKind::Sqlite3 => "sqlite3"@,
            FileKind::Gif87a => "GIF87a"@,
            FileKind::Gif89a => "GIF89a"@,
            FileKind::Bmp => "bmp"@,
            FileKind::Ico => "ico"@,
            FileKind::Wav => "wav"@,
            FileKind::Regf => "regf"@,
            FileKind::Zip => "zip"@,
        }
    }

    pub open spec fn spec_endianness(self) -> Endianness {
        match self {
            FileKind::Png | FileKind::Sqlite3 => Endianness::BigEndian,
            _ => Endianness::LittleEndian,
        }
    }

    /// Whether `b` is recognised as this format.
    pub open spec fn matches(self, b: Seq<u8>) -> bool {
        signature_matches(self.spec_header(), self.spec_footer(), b)
    }

    pub fn label(self) -> (r: &'static str)
        ensures
            r@ == self.spec_mime(),
    {
        match self {
            FileKind::Png => "png",
            FileKind::Sqlite3 => "sqlite3",
            FileKind::Gif87a => "GIF87a",
            FileKind::Gif89a => "GIF89a",
            FileKind::Bmp => "bmp",
            FileKind::Ico => "ico",
            FileKind::Wav => "wav",
            FileKind::Regf => "regf",
            FileKind::Zip => "zip",
        }
    }

    pub fn endianness(self) -> (r: Endianness)
        ensures
            r == self.spec_endianness(),
    {
        match self {
            FileKind::Png | FileKind::Sqlite3 => Endianness::BigEndian,
            _ => Endianness::LittleEndian,
        }
    }

    /// The signature descriptor of this format.
    pub fn signature(self) -> (s: FileSignature)
        ensures
            s.wf(),
            s.header@ == self.spec_header(),
            s.footer_view() == self.spec_footer(),
            s.mime@ == self.spec_mime(),
            s.endianness == self.spec_endianness(),
    {
        let header: Vec<u8> = match self {
            FileKind::Png => vec![0x89u8, 0x50, 0x4E, 0x47, 0x0D, 0x0A, 0x1A, 0x0A],
            FileKind::Sqlite3 => vec![
                0x53u8, 0x51, 0x4C, 0x69, 0x74, 0x65, 0x20, 0x66,
                0x6F, 0x72, 0x6D, 0x61, 0x74, 0x20, 0x33, 0x00,
            ],
            FileKind::Gif87a => vec![0x47u8, 0x49, 0x46, 0x38, 0x37, 0x61],
            FileKind::Gif89a => vec![0x47u8, 0x49, 0x46, 0x38, 0x39, 0x61],
            FileKind::Bmp => vec![0x42u8, 0x4D],
            FileKind::Ico => vec![0x00u8, 0x00, 0x01, 0x00],
            FileKind::Wav => vec![0x52u8, 0x49, 0x46, 0x46],
            FileKind::Regf => vec![0x72u8, 0x65, 0x67, 0x66],
            FileKind::Zip => vec![0x50u8, 0x4B, 0x03, 0x04],
        };
        let footer: Option<Vec<u8>> = match self {
            FileKind::Png => Some(vec![0xAEu8, 0x42, 0x60, 0x82]),
            _ => None,
        };
        let s = FileSignature { header, footer, mime: self.label(), endianness: self.endianness() };
        assert(s.header@ =~= self.spec_header());
        assert(s.footer_view() =~= self.spec_footer());
        s
    }

    /// The label of this format when `bytes` matches its signature.
    pub fn mime(self, bytes: &[u8]) -> (r: Option<&'static str>)
        ensures
            r.is_some() == self.matches(bytes@),
            r.is_some() ==> r.unwrap()@ == self.spec_mime(),
    {
        let s = self.signature();
        s.mime(bytes)
    }
}

/// The registry, in the order in which signatures are tried.
pub open spec fn spec_registry() -> Seq<FileKind> {
    seq![
        FileKind::Png,
        FileKind::Sqlite3,
        FileKind::Gif87a,
        FileKind::Gif89a,
        FileKind::Bmp,
        FileKind::Ico,
        FileKind::Wav,
        FileKind::Regf,
        FileKind::Zip,
    ]
}

/// The registry, in the order in which signatures are tried.
pub fn registry() -> (r: Vec<FileKind>)
    ensures
        r@ == spec_registry(),
{
    let r = vec![
        FileKind::Png,
        FileKind::Sqlite3,
        FileKind::Gif87a,
        FileKind::Gif89a,
        FileKind::Bmp,
        FileKind::Ico,
        FileKind::Wav,
        FileKind::Regf,
        FileKind::Zip,
    ];
    assert(r@ =~= spec_registry());
    r
}

/// The first kind of `kinds` that `b` matches.
pub open spec fn first_match(kinds: Seq<FileKind>, b: Seq<u8>) -> Option<FileKind>
    decreases kinds.len(),
{
    if kinds.len() == 0 {
        None
    } else if kinds[0].matches(b) {
        Some(kinds[0])
    } else {
        first_match(kinds.drop_first(), b)
    }
}

/// The format of `bytes`: the first registered signature it matches.
pub fn identify_kind(bytes: &[u8]) -> (r: Option<FileKind>)
    ensures
        r == first_match(spec_registry(), bytes@),
{
    let kinds = registry();
    assert(kinds@.subrange(0, kinds@.len() as int) =~= kinds@);
    let mut i: usize = 0;
    while i < kinds.len()
        invariant
            kinds@ == spec_registry(),
            i <= kinds@.len(),
            first_match(spec_registry(), bytes@) == first_match(kinds@.subrange(i as int, kinds@.len() as int), bytes@),
        decreases kinds@.len() - i,
    {
        let k = kinds[i];
        let ghost rest = kinds@.subrange(i as int, kinds@.len() as int);
        assert(rest.drop_first() =~= kinds@.subrange(i + 1, kinds@.len() as int));
        if k.mime(bytes).is_some() {
            return Some(k);
        }
        i = i + 1;
    }
    None
}

/// Label and byte order of the first registered signature that `bytes`
/// matches; `None` when no signature matches.
pub fn identify(bytes: &[u8]) -> (r: Option<(&'static str, Endianness)>)
    ensures
        r.is_some() == first_match(spec_registry(), bytes@).is_some(),
        r.is_some() ==> r.unwrap().0@ == first_match(spec_registry(), bytes@).unwrap().spec_mime()
            && r.unwrap().1 == first_match(spec_registry(), bytes@).unwrap().spec_endianness(),
{
    match identify_kind(bytes) {
        None => None,
        Some(k) => Some((k.label(), k.endianness())),
    }
}

/// A buffer shorter than a signature's header matches no signature with
/// that header, so identification never reports that format for it.
pub proof fn lemma_short_buffer_never_matches(k: FileKind, b: Seq<u8>)
    requires
        b.len() < k.spec_header().len(),
    ensures
        !k.matches(b),
        first_match(spec_registry(), b) != Some(k),
{
    lemma_first_match_order(spec_registry(), b);
}

/// Identification is first-match-wins in registration order: the reported
/// kind matches, every kind registered before it does not, and nothing is
/// reported only when no registered kind matches.
pub proof fn lemma_first_match_order(kinds: Seq<FileKind>, b: Seq<u8>)
    ensures
        first_match(kinds, b) is Some ==> exists|i: int|
            0 <= i < kinds.len() && kinds[i] == first_match(kinds, b).unwrap() && kinds[i].matches(b)
                && forall|j: int| 0 <= j < i ==> !(#[trigger] kinds[j]).matches(b),
        first_match(kinds, b) is None <==> forall|i: int| 0 <= i < kinds.len() ==> !(#[trigger] kinds[i]).matches(b),
    decreases kinds.len(),
{
    if kinds.len() > 0 {
        let rest = kinds.drop_first();
        lemma_first_match_order(rest, b);
        if !kinds[0].matches(b) {
            if first_match(rest, b) is Some {
                let i = choose|i: int|
                    0 <= i < rest.len() && rest[i] == first_match(rest, b).unwrap() && rest[i].matches(b)
                        && forall|j: int| 0 <= j < i ==> !(#[trigger] rest[j]).matches(b);
                assert(kinds[i + 1] == rest[i]);
                assert forall|j: int| 0 <= j < i + 1 implies !(#[trigger] kinds[j]).matches(b) by {
                    if j > 0 {
                        assert(kinds[j] == rest[j - 1]);
                    }
                }
            } else {
                assert forall|i: int| 0 <= i < kinds.len() implies !(#[trigger] kinds[i]).matches(b) by {
                    if i > 0 {
                        assert(kinds[i] == rest[i - 1]);
                    }
                }
            }
        }
    }
}

/// A PNG is recognised only with its footer in place: a buffer whose last
/// four bytes are not the footer is never identified as PNG.
pub proof fn lemma_png_requires_footer(b: Seq<u8>)
    requires
        !has_suffix(b, FileKind::Png.spec_footer().unwrap()),
    ensures
        !FileKind::Png.matches(b),
        first_match(spec_registry(), b) != Some(FileKind::Png),
{
    lemma_first_match_order(spec_registry(), b);
}

/// The two GIF versions are told apart: a buffer that starts with the
/// `GIF89a` header never matches the `GIF87a` signature and is identified as
/// `GIF89a`, and the other way round.
pub proof fn lemma_gif_versions_distinct(b: Seq<u8>)
    ensures
        has_prefix(b, FileKind::Gif89a.spec_header()) ==> !FileKind::Gif87a.matches(b)
            && first_match(spec_registry(), b) == Some(FileKind::Gif89a),
        has_prefix(b, FileKind::Gif87a.spec_header()) ==> !FileKind::Gif89a.matches(b)
            && first_match(spec_registry(), b) == Some(FileKind::Gif87a),
{
    let reg = spec_registry();
    let r1 = reg.drop_first();
    let r2 = r1.drop_first();
    let r3 = r2.drop_first();
    assert(reg[0] == FileKind::Png && r1[0] == FileKind::Sqlite3);
    assert(r2[0] == FileKind::Gif87a && r3[0] == FileKind::Gif89a);
    if b.len() >= 6 {
        assert(b.subrange(0, 6)[0] == b[0]);
        assert(b.subrange(0, 6)[4] == b[4]);
        if b.len() >= 8 {
            assert(b.subrange(0, 8)[0] == b[0]);
        }
        if b.len() >= 16 {
            assert(b.subrange(0, 16)[0] == b[0]);
        }
        if has_prefix(b, FileKind::Gif89a.spec_header()) || has_prefix(b, FileKind::Gif87a.spec_header()) {
            assert(!FileKind::Png.matches(b));
            assert(!FileKind::Sqlite3.matches(b));
            assert(first_match(reg, b) == first_match(r1, b));
            assert(first_match(r1, b) == first_match(r2, b));
            if has_prefix(b, FileKind::Gif89a.spec_header()) {
                assert(!FileKind::Gif87a.matches(b));
                assert(first_match(r2, b) == first_match(r3, b));
            } else {
                assert(!FileKind::Gif89a.matches(b));
            }
        }
    }
}

} // verus!
