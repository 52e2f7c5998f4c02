use artefact_scan::discover::{discover, metadata};
use artefact_scan::layout::{
    BitmapFileHeaderAndCore, FieldValue, IconDir, RegistryBaseBlock, WavHeader, IHDR,
};
use artefact_scan::signature::{identify, identify_kind, registry, Endianness, FileKind};

const PNG_MAGIC: [u8; 8] = [0x89, 0x50, 0x4E, 0x47, 0x0D, 0x0A, 0x1A, 0x0A];
const PNG_FOOTER: [u8; 4] = [0xAE, 0x42, 0x60, 0x82];

fn png_bytes(width: u32, height: u32) -> Vec<u8> {
    let mut v = PNG_MAGIC.to_vec();
    v.extend_from_slice(&13u32.to_be_bytes());
    v.extend_from_slice(b"IHDR");
    v.extend_from_slice(&width.to_be_bytes());
    v.extend_from_slice(&height.to_be_bytes());
    v.extend_from_slice(&[8, 6, 0, 0, 1]);
    v.extend_from_slice(&[0x11, 0x22, 0x33, 0x44]);
    v.extend_from_slice(&[0, 0, 0, 0]);
    v.extend_from_slice(b"IEND");
    v.extend_from_slice(&PNG_FOOTER);
    v
}

fn jpg_bytes() -> Vec<u8> {
    vec![0xFF, 0xD8, 0xFF, 0xE0, 0x00, 0x10, 0x4A, 0x46, 0x49, 0x46, 0x00, 0x01, 0x01, 0x00, 0xFF, 0xD9]
}

fn sqlite_bytes() -> Vec<u8> {
    let mut v = b"SQLite format 3\0".to_vec();
    v.extend_from_slice(&[0x10, 0x00, 0x01, 0x01, 0x00, 0x40, 0x20, 0x20]);
    v.resize(100, 0);
    v
}

fn unsigned_field(fields: &[artefact_scan::layout::Field], name: &str) -> Option<FieldValue> {
    fields.iter().find(|f| f.name == name).map(|f| f.value)
}

#[test]
fn discoverer_png() {
    assert_eq!(FileKind::Png.mime(&png_bytes(1, 1)), Some("png"));
    assert!(FileKind::Png.mime(&jpg_bytes()).is_none());
}

#[test]
fn discoverer_sqlite3() {
    assert_eq!(FileKind::Sqlite3.mime(&sqlite_bytes()), Some("sqlite3"));
    assert!(FileKind::Sqlite3.mime(&jpg_bytes()).is_none());
}

#[test]
fn mod_png() {
    let sig = FileKind::Png.signature();
    assert_eq!(sig.mime(&png_bytes(3, 4)), Some("png"));
    assert!(sig.mime(&jpg_bytes()).is_none());
}

#[test]
fn mod_sqlite3() {
    let sig = FileKind::Sqlite3.signature();
    assert_eq!(sig.mime(&sqlite_bytes()), Some("sqlite3"));
    assert!(sig.mime(&jpg_bytes()).is_none());
}

#[test]
fn short_buffers_match_no_signature() {
    for kind in registry() {
        let sig = kind.signature();
        for n in 0..sig.header.len() {
            let buf: Vec<u8> = sig.header[..n].to_vec();
            assert!(kind.mime(&buf).is_none());
            assert_ne!(identify_kind(&buf), Some(kind));
        }
    }
    assert_eq!(identify(&[]), None);
}

#[test]
fn png_identified_and_decoded() {
    let bytes = png_bytes(0x0102_0304, 480);
    assert_eq!(identify(&bytes), Some(("png", Endianness::BigEndian)));
    let h = IHDR::decode(&bytes, Endianness::BigEndian).unwrap();
    assert_eq!(h.width, 0x0102_0304);
    assert_eq!(h.height, 480);
    assert_eq!(h.bit_depth, 8);
    assert_eq!(h.color_type, 6);
    assert_eq!(h.interlace, 1);
    assert_eq!(h.ihdr_length, 13);
    let (label, meta) = discover(&bytes);
    assert_eq!(label, Some("png"));
    let meta = meta.unwrap();
    assert_eq!(meta.len(), 7);
    assert_eq!(meta[0].name, "width");
    assert_eq!(unsigned_field(&meta, "width"), Some(FieldValue::Unsigned(0x0102_0304)));
    assert_eq!(unsigned_field(&meta, "height"), Some(FieldValue::Unsigned(480)));
    assert_eq!(unsigned_field(&meta, "interlace"), Some(FieldValue::Unsigned(1)));
}

#[test]
fn png_with_corrupted_footer_is_not_identified() {
    let mut bytes = png_bytes(640, 480);
    let last = bytes.len() - 1;
    bytes[last] ^= 0x01;
    assert_eq!(identify(&bytes), None);
    assert!(FileKind::Png.mime(&bytes).is_none());
    assert_eq!(discover(&bytes), (None, None));
}

#[test]
fn png_magic_without_room_for_footer_is_not_identified() {
    let mut bytes = PNG_MAGIC.to_vec();
    bytes.extend_from_slice(&PNG_FOOTER[1..]);
    assert_eq!(bytes.len(), 11);
    assert_eq!(identify(&bytes), None);
    let mut exact = PNG_MAGIC.to_vec();
    exact.extend_from_slice(&PNG_FOOTER);
    assert_eq!(identify(&exact), Some(("png", Endianness::BigEndian)));
    // identified, but too short for its header record
    assert_eq!(discover(&exact), (Some("png"), None));
}

#[test]
fn gif_versions_are_distinct() {
    let mut a = b"GIF89a".to_vec();
    a.extend_from_slice(&[1, 0, 1, 0, 0, 0, 0]);
    let mut b = b"GIF87a".to_vec();
    b.extend_from_slice(&[1, 0, 1, 0, 0, 0, 0]);
    assert!(FileKind::Gif87a.mime(&a).is_none());
    assert!(FileKind::Gif89a.mime(&b).is_none());
    assert_eq!(identify(&a), Some(("GIF89a", Endianness::LittleEndian)));
    assert_eq!(identify(&b), Some(("GIF87a", Endianness::LittleEndian)));
}

#[test]
fn registry_order_is_explicit() {
    assert_eq!(
        registry(),
        vec![
            FileKind::Png,
            FileKind::Sqlite3,
            FileKind::Gif87a,
            FileKind::Gif89a,
            FileKind::Bmp,
            FileKind::Ico,
            FileKind::Wav,
            FileKind::Regf,
            FileKind::Zip,
        ]
    );
    assert_eq!(identify(&sqlite_bytes()), Some(("sqlite3", Endianness::BigEndian)));
    assert_eq!(identify(b"regf\0\0\0\0"), Some(("regf", Endianness::LittleEndian)));
    assert_eq!(identify(b"PK\x03\x04rest"), Some(("zip", Endianness::LittleEndian)));
    assert_eq!(identify(&jpg_bytes()), None);
}

fn bmp_bytes() -> Vec<u8> {
    let mut v = b"BM".to_vec();
    v.extend_from_slice(&1078u32.to_le_bytes());
    v.extend_from_slice(&0u16.to_le_bytes());
    v.extend_from_slice(&0u16.to_le_bytes());
    v.extend_from_slice(&54u32.to_le_bytes());
    v.extend_from_slice(&40u32.to_le_bytes());
    v.extend_from_slice(&16i32.to_le_bytes());
    v.extend_from_slice(&(-8i32).to_le_bytes());
    v.extend_from_slice(&1u16.to_le_bytes());
    v.extend_from_slice(&24u16.to_le_bytes());
    v.extend_from_slice(&0u32.to_le_bytes());
    v.extend_from_slice(&384u32.to_le_bytes());
    v.extend_from_slice(&2835i32.to_le_bytes());
    v.extend_from_slice(&(-2835i32).to_le_bytes());
    v.extend_from_slice(&0u32.to_le_bytes());
    v.extend_from_slice(&7u32.to_le_bytes());
    v
}

#[test]
fn bmp_little_endian_record() {
    let bytes = bmp_bytes();
    assert_eq!(bytes.len(), 54);
    let h = BitmapFileHeaderAndCore::decode(&bytes, Endianness::LittleEndian).unwrap();
    assert_eq!(h.bf_type, *b"BM");
    assert_eq!(h.bf_size, 1078);
    assert_eq!(h.bf_off_bits, 54);
    assert_eq!(h.bi_width, 16);
    assert_eq!(h.bi_height, -8);
    assert_eq!(h.bi_bit_count, 24);
    assert_eq!(h.bi_y_pels_per_meter, -2835);
    assert_eq!(h.bi_clr_important, 7);
    let (label, meta) = discover(&bytes);
    assert_eq!(label, Some("bmp"));
    let meta = meta.unwrap();
    assert_eq!(meta.len(), 12);
    assert_eq!(unsigned_field(&meta, "bi_height"), Some(FieldValue::Signed(-8)));
    assert_eq!(unsigned_field(&meta, "bf_size"), Some(FieldValue::Unsigned(1078)));
    assert!(BitmapFileHeaderAndCore::decode(&bytes[..53], Endianness::LittleEndian).is_none());
    assert_eq!(discover(&bytes[..53]), (Some("bmp"), None));
}

#[test]
fn byte_order_changes_the_reading() {
    let bytes = bmp_bytes();
    let be = BitmapFileHeaderAndCore::decode(&bytes, Endianness::BigEndian).unwrap();
    assert_eq!(be.bf_size, 1078u32.swap_bytes());
    assert_eq!(be.bi_height, (-8i32).swap_bytes());
}

#[test]
fn ico_record() {
    let bytes = [0u8, 0, 1, 0, 3, 0, 16, 16];
    let d = IconDir::decode(&bytes, Endianness::LittleEndian).unwrap();
    assert_eq!((d.id_reserved, d.id_type, d.id_count), (0, 1, 3));
    let meta = metadata(FileKind::Ico, &bytes).unwrap();
    assert_eq!(meta.len(), 2);
    assert_eq!(meta[0].name, "id_type");
    assert_eq!(meta[1].value, FieldValue::Unsigned(3));
    assert!(IconDir::decode(&bytes[..5], Endianness::LittleEndian).is_none());
}

#[test]
fn wav_record() {
    let mut v = b"RIFF".to_vec();
    v.extend_from_slice(&1000u32.to_le_bytes());
    v.extend_from_slice(b"WAVEfmt ");
    v.extend_from_slice(&16u32.to_le_bytes());
    v.extend_from_slice(&1u16.to_le_bytes());
    v.extend_from_slice(&2u16.to_le_bytes());
    v.extend_from_slice(&44100u32.to_le_bytes());
    v.extend_from_slice(&176400u32.to_le_bytes());
    v.extend_from_slice(&4u16.to_le_bytes());
    v.extend_from_slice(&16u16.to_le_bytes());
    let w = WavHeader::decode(&v, Endianness::LittleEndian).unwrap();
    assert_eq!(w.wave_id, *b"WAVE");
    assert_eq!(w.fmt_id, *b"fmt ");
    assert_eq!(w.sample_rate, 44100);
    assert_eq!(w.byte_rate, 176400);
    assert_eq!(w.bits_per_sample, 16);
    let (label, meta) = discover(&v);
    assert_eq!(label, Some("wav"));
    let meta = meta.unwrap();
    assert_eq!(meta.len(), 8);
    assert_eq!(unsigned_field(&meta, "num_channels"), Some(FieldValue::Unsigned(2)));
}

#[test]
fn regf_record_and_no_metadata() {
    let mut v = b"regf".to_vec();
    v.extend_from_slice(&5u32.to_le_bytes());
    v.extend_from_slice(&5u32.to_le_bytes());
    v.extend_from_slice(&116444736000000000u64.to_le_bytes());
    for x in [1u32, 5, 0, 1, 32, 4096, 1] {
        v.extend_from_slice(&x.to_le_bytes());
    }
    for c in "SYSTEM".encode_utf16() {
        v.extend_from_slice(&c.to_le_bytes());
    }
    v.resize(112, 0);
    let r = RegistryBaseBlock::decode(&v, Endianness::LittleEndian).unwrap();
    assert_eq!(r.primary_sequence_number, 5);
    assert_eq!(r.last_written_timestamp, 116444736000000000);
    assert_eq!(r.minor_version, 5);
    assert_eq!(r.hive_bins_data_size, 4096);
    assert_eq!(r.file_name.len(), 32);
    assert_eq!(&r.file_name[..6], &"SYSTEM".encode_utf16().collect::<Vec<u16>>()[..]);
    assert_eq!(r.file_name[6], 0);
    assert!(RegistryBaseBlock::decode(&v[..111], Endianness::LittleEndian).is_none());
    assert_eq!(discover(&v), (Some("regf"), None));
    assert_eq!(r.last_written(), nt_time::time::UtcDateTime::UNIX_EPOCH.to_string());
    assert_ne!(r.last_written(), "116444736000000000");
}

#[test]
fn regf_timestamp_out_of_calendar_range() {
    let mut v = b"regf".to_vec();
    v.extend_from_slice(&[0u8; 8]);
    v.extend_from_slice(&u64::MAX.to_le_bytes());
    v.resize(112, 0);
    let r = RegistryBaseBlock::decode(&v, Endianness::LittleEndian).unwrap();
    assert_eq!(r.last_written_timestamp, u64::MAX);
    assert_eq!(r.last_written(), "18446744073709551615");
}
