//! Fixed-layout leading records of the formats whose header is decoded,
//! and their flattening into a generic list of named values.

use vstd::prelude::*;
use crate::bytes::{i32_at, read_i32, read_u16, read_u32, read_u64, u16_at, u32_at, u64_at};
use crate::signature::Endianness;
use crate::text::{decimal, decimal_text};

verus! {

/// A primitive value of a decoded record.
#[derive(Debug, Clone, Copy, PartialEq, Eq, Structural)]
pub enum FieldValue {
    Unsigned(u64),
    Signed(i64),
}

/// One named value of a decoded record.
#[derive(Debug, Clone, Copy, PartialEq, Eq)]
pub struct Field {
    pub name: &'static str,
    pub value: FieldValue,
}

/// The record as (name, value) pairs, in declaration order.
pub open spec fn fields_view(v: Seq<Field>) -> Seq<(Seq<char>, FieldValue)> {
    v.map_values(|f: Field| (f.name@, f.value))
}

pub open spec fn unsigned(x: int) -> FieldValue {
    FieldValue::Unsigned(x as u64)
}

pub open spec fn signed(x: int) -> FieldValue {
    FieldValue::Signed(x as i64)
}

fn field(name: &'static str, value: FieldValue) -> (r: Field)
    ensures
        r.name == name,
        r.value == value,
{
    Field { name, value }
}

/// The IHDR chunk of a PNG image together with the magic and chunk preamble
/// that precede it: 29 bytes, big-endian.
pub struct IHDR {
    pub signature: [u8; 8],
    pub ihdr_length: u32,
    pub ihdr_type: u32,
    /// Image width in pixels.
    pub width: u32,
    /// Image height in pixels.
    pub height: u32,
    /// Bits per sample or per palette index.
    pub bit_depth: u8,
    /// How pixel data is interpreted (grayscale, truecolor, indexed, ...).
    pub color_type: u8,
    pub compression: u8,
    pub filter: u8,
    /// 0: no interlace, 1: Adam7.
    pub interlace: u8,
}

pub const IHDR_SIZE: usize = 29;

impl IHDR {
    /// Whether this record is what `s` holds in byte order `e`.
    pub open spec fn decoded_from(&self, s: Seq<u8>, e: Endianness) -> bool {
        &&& self.signature@ == s.subrange(0, 8)
        &&& self.ihdr_length == u32_at(s, 8, e)
        &&& self.ihdr_type == u32_at(s, 12, e)
        &&& self.width == u32_at(s, 16, e)
        &&& self.height == u32_at(s, 20, e)
        &&& self.bit_depth == s[24]
        &&& self.color_type == s[25]
        &&& self.compression == s[26]
        &&& self.filter == s[27]
        &&& self.interlace == s[28]
    }

    /// The published fields of the record read from `s`: the magic and the
    /// chunk preamble are left out.
    pub open spec fn spec_fields(s: Seq<u8>, e: Endianness) -> Seq<(Seq<char>, FieldValue)> {
        seq![
            ("width"@, unsigned(u32_at(s, 16, e) as int)),
            ("height"@, unsigned(u32_at(s, 20, e) as int)),
            ("bit_depth"@, unsigned(s[24] as int)),
            ("color_type"@, unsigned(s[25] as int)),
            ("compression"@, unsigned(s[26] as int)),
            ("filter"@, unsigned(s[27] as int)),
            ("interlace"@, unsigned(s[28] as int)),
        ]
    }

    /// Decodes the record from the start of `bytes`; `None` when the buffer
    /// is shorter than the record.
    pub fn decode(bytes: &[u8], e: Endianness) -> (r: Option<IHDR>)
        ensures
            r is Some <==> bytes@.len() >= IHDR_SIZE,
            r is Some ==> r.unwrap().decoded_from(bytes@, e),
    {
        if bytes.len() < IHDR_SIZE {
            return None;
        }
        let signature = [bytes[0], bytes[1], bytes[2], bytes[3], bytes[4], bytes[5], bytes[6], bytes[7]];
        assert(signature@ =~= bytes@.subrange(0, 8));
        Some(IHDR {
            signature,
            ihdr_length: read_u32(bytes, 8, e),
            ihdr_type: read_u32(bytes, 12, e),
            width: read_u32(bytes, 16, e),
            height: read_u32(bytes, 20, e),
            bit_depth: bytes[24],
            color_type: bytes[25],
            compression: bytes[26],
            filter: bytes[27],
            interlace: bytes[28],
        })
    }

    /// The published fields, as named values.
    pub(crate) fn fields(&self, Ghost(s): Ghost<Seq<u8>>, Ghost(e): Ghost<Endianness>) -> (r: Vec<Field>)
        requires
            self.decoded_from(s, e),
        ensures
            fields_view(r@) == Self::spec_fields(s, e),
    {
        let r = vec![
            field("width", FieldValue::Unsigned(self.width as u64)),
            field("height", FieldValue::Unsigned(self.height as u64)),
            field("bit_depth", FieldValue::Unsigned(self.bit_depth as u64)),
            field("color_type", FieldValue::Unsigned(self.color_type as u64)),
            field("compression", FieldValue::Unsigned(self.compression as u64)),
            field("filter", FieldValue::Unsigned(self.filter as u64)),
            field("interlace", FieldValue::Unsigned(self.interlace as u64)),
        ];
        assert(fields_view(r@) =~= Self::spec_fields(s, e));
        r
    }
}


/// The bitmap file header followed by the DIB core header: 54 bytes,
/// little-endian.
pub struct BitmapFileHeaderAndCore {
    /// "BM"
    pub bf_type: [u8; 2],
    /// File size in bytes.
    pub bf_size: u32,
    pub bf_reserved1: u16,
    pub bf_reserved2: u16,
    /// Offset of the pixel data.
    pub bf_off_bits: u32,
    /// Size of the DIB header.
    pub bi_size: u32,
    pub bi_width: i32,
    /// Positive for bottom-up images.
    pub bi_height: i32,
    pub bi_planes: u16,
    pub bi_bit_count: u16,
    pub bi_compression: u32,
    pub bi_size_image: u32,
    pub bi_x_pels_per_meter: i32,
    pub bi_y_pels_per_meter: i32,
    pub bi_clr_used: u32,
    pub bi_clr_important: u32,
}

pub const BITMAP_HEADER_SIZE: usize = 54;

impl BitmapFileHeaderAndCore {
    pub open spec fn decoded_from(&self, s: Seq<u8>, e: Endianness) -> bool {
        &&& self.bf_type@ == s.subrange(0, 2)
        &&& self.bf_size == u32_at(s, 2, e)
        &&& self.bf_reserved1 == u16_at(s, 6, e)
        &&& self.bf_reserved2 == u16_at(s, 8, e)
        &&& self.bf_off_bits == u32_at(s, 10, e)
        &&& self.bi_size == u32_at(s, 14, e)
        &&& self.bi_width == i32_at(s, 18, e)
        &&& self.bi_height == i32_at(s, 22, e)
        &&& self.bi_planes == u16_at(s, 26, e)
        &&& self.bi_bit_count == u16_at(s, 28, e)
        &&& self.bi_compression == u32_at(s, 30, e)
        &&& self.bi_size_image == u32_at(s, 34, e)
        &&& self.bi_x_pels_per_meter == i32_at(s, 38, e)
        &&& self.bi_y_pels_per_meter == i32_at(s, 42, e)
        &&& self.bi_clr_used == u32_at(s, 46, e)
        &&& self.bi_clr_important == u32_at(s, 50, e)
    }

    /// The published fields: the type tag, the reserved words and the pixel
    /// offset are left out.
    pub open spec fn spec_fields(s: Seq<u8>, e: Endianness) -> Seq<(Seq<char>, FieldValue)> {
        seq![
            ("bf_size"@, unsigned(u32_at(s, 2, e) as int)),
            ("bi_size"@, unsigned(u32_at(s, 14, e) as int)),
            ("bi_width"@, signed(i32_at(s, 18, e) as int)),
            ("bi_height"@, signed(i32_at(s, 22, e) as int)),
            ("bi_planes"@, unsigned(u16_at(s, 26, e) as int)),
            ("bi_bit_count"@, unsigned(u16_at(s, 28, e) as int)),
            ("bi_compression"@, unsigned(u32_at(s, 30, e) as int)),
            ("bi_size_image"@, unsigned(u32_at(s, 34, e) as int)),
            ("bi_x_pels_per_meter"@, signed(i32_at(s, 38, e) as int)),
            ("bi_y_pels_per_meter"@, signed(i32_at(s, 42, e) as int)),
            ("bi_clr_used"@, unsigned(u32_at(s, 46, e) as int)),
            ("bi_clr_important"@, unsigned(u32_at(s, 50, e) as int)),
        ]
    }

    /// Decodes the record from the start of `bytes`; `None` when the buffer
    /// is shorter than the record.
    pub fn decode(bytes: &[u8], e: Endianness) -> (r: Option<BitmapFileHeaderAndCore>)
        ensures
            r is Some <==> bytes@.len() >= BITMAP_HEADER_SIZE,
            r is Some ==> r.unwrap().decoded_from(bytes@, e),
    {
        if bytes.len() < BITMAP_HEADER_SIZE {
            return None;
        }
        let bf_type = [bytes[0], bytes[1]];
        assert(bf_type@ =~= bytes@.subrange(0, 2));
        Some(BitmapFileHeaderAndCore {
            bf_type,
            bf_size: read_u32(bytes, 2, e),
            bf_reserved1: read_u16(bytes, 6, e),
            bf_reserved2: read_u16(bytes, 8, e),
            bf_off_bits: read_u32(bytes, 10, e),
            bi_size: read_u32(bytes, 14, e),
            bi_width: read_i32(bytes, 18, e),
            bi_height: read_i32(bytes, 22, e),
            bi_planes: read_u16(bytes, 26, e),
            bi_bit_count: read_u16(bytes, 28, e),
            bi_compression: read_u32(bytes, 30, e),
            bi_size_image: read_u32(bytes, 34, e),
            bi_x_pels_per_meter: read_i32(bytes, 38, e),
            bi_y_pels_per_meter: read_i32(bytes, 42, e),
            bi_clr_used: read_u32(bytes, 46, e),
            bi_clr_important: read_u32(bytes, 50, e),
        })
    }

    pub(crate) fn fields(&self, Ghost(s): Ghost<Seq<u8>>, Ghost(e): Ghost<Endianness>) -> (r: Vec<Field>)
        requires
            self.decoded_from(s, e),
        ensures
            fields_view(r@) == Self::spec_fields(s, e),
    {
        let r = vec![
            field("bf_size", FieldValue::Unsigned(self.bf_size as u64)),
            field("bi_size", FieldValue::Unsigned(self.bi_size as u64)),
            field("bi_width", FieldValue::Signed(self.bi_width as i64)),
            field("bi_height", FieldValue::Signed(self.bi_height as i64)),
            field("bi_planes", FieldValue::Unsigned(self.bi_planes as u64)),
            field("bi_bit_count", FieldValue::Unsigned(self.bi_bit_count as u64)),
            field("bi_compression", FieldValue::Unsigned(self.bi_compression as u64)),
            field("bi_size_image", FieldValue::Unsigned(self.bi_size_image as u64)),
            field("bi_x_pels_per_meter", FieldValue::Signed(self.bi_x_pels_per_meter as i64)),
            field("bi_y_pels_per_meter", FieldValue::Signed(self.bi_y_pels_per_meter as i64)),
            field("bi_clr_used", FieldValue::Unsigned(self.bi_clr_used as u64)),
            field("bi_clr_important", FieldValue::Unsigned(self.bi_clr_important as u64)),
        ];
        assert(fields_view(r@) =~= Self::spec_fields(s, e));
        r
    }
}

/// The directory header of an icon or cursor file: 6 bytes, little-endian.
pub struct IconDir {
    pub id_reserved: u16,
    /// 1 for an icon, 2 for a cursor.
    pub id_type: u16,
    /// Number of images.
    pub id_count: u16,
}

pub const ICON_DIR_SIZE: usize = 6;

impl IconDir {
    pub open spec fn decoded_from(&self, s: Seq<u8>, e: Endianness) -> bool {
        &&& self.id_reserved == u16_at(s, 0, e)
        &&& self.id_type == u16_at(s, 2, e)
        &&& self.id_count == u16_at(s, 4, e)
    }

    /// The published fields: the reserved word is left out.
    pub open spec fn spec_fields(s: Seq<u8>, e: Endianness) -> Seq<(Seq<char>, FieldValue)> {
        seq![
            ("id_type"@, unsigned(u16_at(s, 2, e) as int)),
            ("id_count"@, unsigned(u16_at(s, 4, e) as int)),
        ]
    }

    /// Decodes the record from the start of `bytes`; `None` when the buffer
    /// is shorter than the record.
    pub fn decode(bytes: &[u8], e: Endianness) -> (r: Option<IconDir>)
        ensures
            r is Some <==> bytes@.len() >= ICON_DIR_SIZE,
            r is Some ==> r.unwrap().decoded_from(bytes@, e),
    {
        if bytes.len() < ICON_DIR_SIZE {
            return None;
        }
        Some(IconDir {
            id_reserved: read_u16(bytes, 0, e),
            id_type: read_u16(bytes, 2, e),
            id_count: read_u16(bytes, 4, e),
        })
    }

    pub(crate) fn fields(&self, Ghost(s): Ghost<Seq<u8>>, Ghost(e): Ghost<Endianness>) -> (r: Vec<Field>)
        requires
            self.decoded_from(s, e),
        ensures
            fields_view(r@) == Self::spec_fields(s, e),
    {
        let r = vec![
            field("id_type", FieldValue::Unsigned(self.id_type as u64)),
            field("id_count", FieldValue::Unsigned(self.id_count as u64)),
        ];
        assert(fields_view(r@) =~= Self::spec_fields(s, e));
        r
    }
}

/// The RIFF header and `fmt ` sub-chunk of a WAVE file: 36 bytes,
/// little-endian.
pub struct WavHeader {
    /// "RIFF"
    pub riff_id: [u8; 4],
    /// File size minus 8.
    pub riff_size: u32,
    /// "WAVE"
    pub wave_id: [u8; 4],
    /// "fmt "
    pub fmt_id: [u8; 4],
    pub fmt_size: u32,
    /// 1 for PCM.
    pub audio_format: u16,
    pub num_channels: u16,
    pub sample_rate: u32,
    pub byte_rate: u32,
    pub block_align: u16,
    pub bits_per_sample: u16,
}

pub const WAV_HEADER_SIZE: usize = 36;

impl WavHeader {
    pub open spec fn decoded_from(&self, s: Seq<u8>, e: Endianness) -> bool {
        &&& self.riff_id@ == s.subrange(0, 4)
        &&& self.riff_size == u32_at(s, 4, e)
        &&& self.wave_id@ == s.subrange(8, 12)
        &&& self.fmt_id@ == s.subrange(12, 16)
        &&& self.fmt_size == u32_at(s, 16, e)
        &&& self.audio_format == u16_at(s, 20, e)
        &&& self.num_channels == u16_at(s, 22, e)
        &&& self.sample_rate == u32_at(s, 24, e)
        &&& self.byte_rate == u32_at(s, 28, e)
        &&& self.block_align == u16_at(s, 32, e)
        &&& self.bits_per_sample == u16_at(s, 34, e)
    }

    /// The published fields: the three four-byte tags are left out.
    pub open spec fn spec_fields(s: Seq<u8>, e: Endianness) -> Seq<(Seq<char>, FieldValue)> {
        seq![
            ("riff_size"@, unsigned(u32_at(s, 4, e) as int)),
            ("fmt_size"@, unsigned(u32_at(s, 16, e) as int)),
            ("audio_format"@, unsigned(u16_at(s, 20, e) as int)),
            ("num_channels"@, unsigned(u16_at(s, 22, e) as int)),
            ("sample_rate"@, unsigned(u32_at(s, 24, e) as int)),
            ("byte_rate"@, unsigned(u32_at(s, 28, e) as int)),
            ("block_align"@, unsigned(u16_at(s, 32, e) as int)),
            ("bits_per_sample"@, unsigned(u16_at(s, 34, e) as int)),
        ]
    }

    /// Decodes the record from the start of `bytes`; `None` when the buffer
    /// is shorter than the record.
    pub fn decode(bytes: &[u8], e: Endianness) -> (r: Option<WavHeader>)
        ensures
            r is Some <==> bytes@.len() >= WAV_HEADER_SIZE,
            r is Some ==> r.unwrap().decoded_from(bytes@, e),
    {
        if bytes.len() < WAV_HEADER_SIZE {
            return None;
        }
        let riff_id = [bytes[0], bytes[1], bytes[2], bytes[3]];
        let wave_id = [bytes[8], bytes[9], bytes[10], bytes[11]];
        let fmt_id = [bytes[12], bytes[13], bytes[14], bytes[15]];
        assert(riff_id@ =~= bytes@.subrange(0, 4));
        assert(wave_id@ =~= bytes@.subrange(8, 12));
        assert(fmt_id@ =~= bytes@.subrange(12, 16));
        Some(WavHeader {
            riff_id,
            riff_size: read_u32(bytes, 4, e),
            wave_id,
            fmt_id,
            fmt_size: read_u32(bytes, 16, e),
            audio_format: read_u16(bytes, 20, e),
            num_channels: read_u16(bytes, 22, e),
            sample_rate: read_u32(bytes, 24, e),
            byte_rate: read_u32(bytes, 28, e),
            block_align: read_u16(bytes, 32, e),
            bits_per_sample: read_u16(bytes, 34, e),
        })
    }

    pub(crate) fn fields(&self, Ghost(s): Ghost<Seq<u8>>, Ghost(e): Ghost<Endianness>) -> (r: Vec<Field>)
        requires
            self.decoded_from(s, e),
        ensures
            fields_view(r@) == Self::spec_fields(s, e),
    {
        let r = vec![
            field("riff_size", FieldValue::Unsigned(self.riff_size as u64)),
            field("fmt_size", FieldValue::Unsigned(self.fmt_size as u64)),
            field("audio_format", FieldValue::Unsigned(self.audio_format as u64)),
            field("num_channels", FieldValue::Unsigned(self.num_channels as u64)),
            field("sample_rate", FieldValue::Unsigned(self.sample_rate as u64)),
            field("byte_rate", FieldValue::Unsigned(self.byte_rate as u64)),
            field("block_align", FieldValue::Unsigned(self.block_align as u64)),
            field("bits_per_sample", FieldValue::Unsigned(self.bits_per_sample as u64)),
        ];
        assert(fields_view(r@) =~= Self::spec_fields(s, e));
        r
    }
}


/// The UTC calendar date and time of a FILETIME, as text.
pub uninterp spec fn utc_text(ticks: u64) -> Seq<char>;

/// The first FILETIME past 9999-12-31 23:59:59.9999999 UTC: every earlier
/// one has a calendar date.
pub const FILETIME_CALENDAR_END: u64 = 2_650_467_744_000_000_000;

/// Relies on `nt_time::FileTime::new`, `UtcDateTime::try_from(FileTime)`,
/// which fails only past the year 9999 (and never when the `time` crate's
/// `large-dates` feature is on), and the `Display` of `UtcDateTime`.
#[verifier::external_body]
fn utc_date_time_text(ticks: u64) -> (r: Option<String>)
    ensures
        ticks < FILETIME_CALENDAR_END ==> r is Some,
        r is Some ==> r.unwrap()@ == utc_text(ticks),
{
    match nt_time::time::UtcDateTime::try_from(nt_time::FileTime::new(ticks)) {
        Ok(dt) => Some(dt.to_string()),
        Err(_) => None,
    }
}

/// The text of a FILETIME given its calendar rendering, if it has one: that
/// rendering, else the tick count in decimal.
pub fn filetime_text(utc: Option<String>, ticks: u64) -> (r: String)
    ensures
        r@ == (match utc {
            Some(t) => t@,
            None => decimal_text(ticks as nat),
        }),
{
    match utc {
        Some(t) => t,
        None => decimal(ticks),
    }
}

/// The base block of a Windows registry hive file, up to and including the
/// file name: 112 bytes, little-endian.
pub struct RegistryBaseBlock {
    /// "regf"
    pub signature: [u8; 4],
    /// Incremented at the start of a write to the primary file.
    pub primary_sequence_number: u32,
    /// Incremented at the end of a write; equal to the primary one after a
    /// completed write.
    pub secondary_sequence_number: u32,
    /// FILETIME (100 ns ticks since 1601-01-01 UTC).
    pub last_written_timestamp: u64,
    pub major_version: u32,
    pub minor_version: u32,
    /// 0 for a primary file.
    pub file_type: u32,
    /// 1 for direct memory load.
    pub file_format: u32,
    pub root_cell_offset: u32,
    pub hive_bins_data_size: u32,
    pub clustering_factor: u32,
    /// UTF-16LE code units of the primary file's name, NUL padded.
    pub file_name: Vec<u16>,
}

pub const REGISTRY_BASE_BLOCK_SIZE: usize = 112;

/// Number of UTF-16 code units of the file name of a registry base block.
pub const REGISTRY_FILE_NAME_UNITS: usize = 32;

impl RegistryBaseBlock {
    pub open spec fn decoded_from(&self, s: Seq<u8>, e: Endianness) -> bool {
        &&& self.signature@ == s.subrange(0, 4)
        &&& self.primary_sequence_number == u32_at(s, 4, e)
        &&& self.secondary_sequence_number == u32_at(s, 8, e)
        &&& self.last_written_timestamp == u64_at(s, 12, e)
        &&& self.major_version == u32_at(s, 20, e)
        &&& self.minor_version == u32_at(s, 24, e)
        &&& self.file_type == u32_at(s, 28, e)
        &&& self.file_format == u32_at(s, 32, e)
        &&& self.root_cell_offset == u32_at(s, 36, e)
        &&& self.hive_bins_data_size == u32_at(s, 40, e)
        &&& self.clustering_factor == u32_at(s, 44, e)
        &&& self.file_name@.len() == REGISTRY_FILE_NAME_UNITS
        &&& forall|i: int| 0 <= i < REGISTRY_FILE_NAME_UNITS ==> #[trigger] self.file_name@[i] == u16_at(s, 48 + 2 * i, e)
    }

    /// Decodes the record from the start of `bytes`; `None` when the buffer
    /// is shorter than the record.
    pub fn decode(bytes: &[u8], e: Endianness) -> (r: Option<RegistryBaseBlock>)
        ensures
            r is Some <==> bytes@.len() >= REGISTRY_BASE_BLOCK_SIZE,
            r is Some ==> r.unwrap().decoded_from(bytes@, e),
    {
        if bytes.len() < REGISTRY_BASE_BLOCK_SIZE {
            return None;
        }
        let signature = [bytes[0], bytes[1], bytes[2], bytes[3]];
        assert(signature@ =~= bytes@.subrange(0, 4));
        let mut file_name: Vec<u16> = Vec::new();
        let mut i: usize = 0;
        while i < REGISTRY_FILE_NAME_UNITS
            invariant
                bytes@.len() >= REGISTRY_BASE_BLOCK_SIZE,
                i <= REGISTRY_FILE_NAME_UNITS,
                file_name@.len() == i,
                forall|j: int| 0 <= j < i ==> #[trigger] file_name@[j] == u16_at(bytes@, 48 + 2 * j, e),
            decreases REGISTRY_FILE_NAME_UNITS - i,
        {
            let unit = read_u16(bytes, 48 + 2 * i, e);
            file_name.push(unit);
            i = i + 1;
        }
        Some(RegistryBaseBlock {
            signature,
            primary_sequence_number: read_u32(bytes, 4, e),
            secondary_sequence_number: read_u32(bytes, 8, e),
            last_written_timestamp: read_u64(bytes, 12, e),
            major_version: read_u32(bytes, 20, e),
            minor_version: read_u32(bytes, 24, e),
            file_type: read_u32(bytes, 28, e),
            file_format: read_u32(bytes, 32, e),
            root_cell_offset: read_u32(bytes, 36, e),
            hive_bins_data_size: read_u32(bytes, 40, e),
            clustering_factor: read_u32(bytes, 44, e),
            file_name,
        })
    }

    /// The last-written timestamp as text: its UTC date and time, or its
    /// tick count in decimal when it has no calendar date.
    pub fn last_written(&self) -> (r: String)
        ensures
            self.last_written_timestamp < FILETIME_CALENDAR_END ==> r@ == utc_text(
                self.last_written_timestamp,
            ),
            r@ == utc_text(self.last_written_timestamp) || r@ == decimal_text(
                self.last_written_timestamp as nat,
            ),
    {
        filetime_text(utc_date_time_text(self.last_written_timestamp), self.last_written_timestamp)
    }
}

} // verus!
