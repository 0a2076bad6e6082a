use opentype_rs::error::Error;
use opentype_rs::offset_table::{parse_offset_table, OffsetTable, SfntVersion};
use opentype_rs::otff::{parse_font_file, parse_otff, OpenTypeFontKind};
use opentype_rs::table::Table;
use opentype_rs::table_record::{
    compute_checksum, compute_checksum_for_head, parse_table_record, parse_table_records,
};
use opentype_rs::ttc_header::parse_ttc_header;
use opentype_rs::tables::FontTable;
use opentype_rs::types::{TableTag, Tag};
use opentype_rs::{Font, OpenTypeFontFile, TableRecord};

fn bytes_with_sfnt_version(sfnt_version: &[u8]) -> [u8; 12] {
    let rest: &[u8] = &[0x00, 0x12, 0x01, 0x00, 0x00, 0x04, 0x00, 0x20];
    let bytes = &[sfnt_version, rest].concat();
    let mut array = [0; 12];
    array.copy_from_slice(bytes);
    array
}

#[test]
fn case_sfnt_version_tt_1() {
    let bytes = bytes_with_sfnt_version(&[0x00, 0x01, 0x00, 0x00]);
    assert_eq!(parse_offset_table(&bytes).unwrap().1.sfnt_version(), SfntVersion::TrueType);
}

#[test]
fn case_sfnt_version_tt_2() {
    let bytes = bytes_with_sfnt_version("true".as_bytes());
    assert_eq!(parse_offset_table(&bytes).unwrap().1.sfnt_version(), SfntVersion::TrueType);
}

#[test]
fn case_sfnt_version_tt_3() {
    let bytes = bytes_with_sfnt_version("typ1".as_bytes());
    assert_eq!(parse_offset_table(&bytes).unwrap().1.sfnt_version(), SfntVersion::TrueType);
}

#[test]
fn case_sfnt_version_cff() {
    let bytes = bytes_with_sfnt_version("OTTO".as_bytes());
    assert_eq!(parse_offset_table(&bytes).unwrap().1.sfnt_version(), SfntVersion::CFF);
}

#[test]
fn case_offset_table() {
    let bytes: &[u8] = &[
        0x00, 0x01, 0x00, 0x00, 0x00, 0x12, 0x01, 0x00, 0x00, 0x04, 0x00, 0x20,
    ];
    let offset_table = parse_offset_table(bytes).unwrap().1;
    assert_eq!(offset_table.sfnt_version(), SfntVersion::TrueType);
    assert_eq!(offset_table.num_tables(), 18);
    assert_eq!(offset_table.search_range(), 256);
    assert_eq!(offset_table.entry_selector(), 4);
    assert_eq!(offset_table.range_shift(), 32);
}

#[test]
fn offset_table_case_offset_table_invalid_empty_slice() {
    let bytes: &[u8] = &[];
    assert_eq!(parse_offset_table(bytes), Err(Error::Truncated));
}

#[test]
fn offset_table_case_offset_table_invalid_sfnt_version() {
    let bytes: &[u8] = &[
        0x00, 0x00, 0x00, 0x00, 0x00, 0x0f, 0x00, 0x80, 0x00, 0x03, 0x00, 0x70,
    ];
    assert_eq!(parse_offset_table(bytes), Err(Error::UnsupportedFormat));
}

#[test]
fn case_offset_table_true_type() {
    let bytes: &[u8] = &[
        0x00, 0x01, 0x00, 0x00, 0x00, 0x12, 0x01, 0x00, 0x00, 0x04, 0x00, 0x20];
    let offset_table = parse_offset_table(bytes).unwrap().1;
    assert_eq!(offset_table.sfnt_version(), SfntVersion::TrueType);
    assert_eq!(offset_table.num_tables(), 18);
    assert_eq!(offset_table.search_range(), 256);
    assert_eq!(offset_table.entry_selector(), 4);
    assert_eq!(offset_table.range_shift(), 32);
}

#[test]
fn case_offset_table_cff() {
    let bytes: &[u8] = &[
        0x4F, 0x54, 0x54, 0x4F, 0x00, 0x0E, 0x00, 0x80, 0x00, 0x03, 0x00, 0x60
    ];
    let offset_table = parse_offset_table(bytes).unwrap().1;
    assert_eq!(offset_table.sfnt_version(), SfntVersion::CFF);
    assert_eq!(offset_table.num_tables(), 14);
    assert_eq!(offset_table.search_range(), 128);
    assert_eq!(offset_table.entry_selector(), 3);
    assert_eq!(offset_table.range_shift(), 96);
}

fn check_open_type_font_file() {
    let bytes: &[u8] = &[
        0x00, 0x01, 0x00, 0x00, 0x00, 0x12, 0x01, 0x00, 0x00, 0x04, 0x00, 0x20];
    let kind = parse_otff(bytes).unwrap().1;
    match kind {
        OpenTypeFontKind::Font(offset_table) => {
            assert_eq!(offset_table.sfnt_version(), SfntVersion::TrueType);
            assert_eq!(offset_table.num_tables(), 18);
            assert_eq!(offset_table.search_range(), 256);
            assert_eq!(offset_table.entry_selector(), 4);
            assert_eq!(offset_table.range_shift(), 32);
        },
        _ => assert!(false)
    }
}

#[test]
fn otff_case_open_type_font_file() {
    check_open_type_font_file();
}

#[test]
fn mod_case_open_type_font_file() {
    check_open_type_font_file();
}

#[test]
fn table_record_case_table_record() {
    // The record of the GDEF table of Roboto Regular, bytes 12 to 28 of the file.
    let bytes: &[u8] = &[
        0x47, 0x44, 0x45, 0x46, 0xB4, 0x42, 0xB0, 0x82, 0x00, 0x02, 0x28, 0xDC, 0x00, 0x00,
        0x02, 0x62];
    let expected = (&b""[..], TableRecord {
        table_tag: Tag::from(TableTag::Gdef),
        checksum: 3024269442,
        offset: 141532,
        length: 610
    });
    let res = parse_table_record(bytes).unwrap();
    assert_eq!(res, expected);
}

#[test]
fn table_case_table_record() {
    let bytes: &[u8] = &[0x05, 0x48, 0x65, 0x6C, 0x6C, 0x6F, 0x05, 0x00,
        0x00, 0x00, 0x00, 0x00];
    assert_eq!(Table::new(
        bytes, TableTag::Cmap, 1907845740, 0, 7).get_table_as_slice().unwrap(), &bytes[..7]);
}

#[test]
fn case_table_record_empty() {
    let table_record = Table::new(&[] as &[u8], TableTag::Cmap, 0, 0, 0);
    assert_eq!(table_record.get_table_as_slice().unwrap(), &[] as &[u8]);
}

#[test]
fn case_table_record_invalid_offset() {
    let bytes: &[u8] = &[0x05, 0x48, 0x65, 0x6C, 0x6C, 0x6F, 0x05, 0x57,
        0x6F, 0x72, 0x6C, 0x64];
    assert!(Table::new(bytes, TableTag::Cmap, 0, 13, 5).get_table_as_slice().is_err());
}

#[test]
fn case_table_record_invalid_length() {
    let bytes: &[u8] = &[0x05, 0x48, 0x65, 0x6C, 0x6C, 0x6F, 0x05, 0x57,
        0x6F, 0x72, 0x6C, 0x64];
    assert!(Table::new(bytes, TableTag::Cmap, 0, 0, 13).get_table_as_slice().is_err());
    assert!(Table::new(bytes, TableTag::Cmap, 0, 4, 7).get_table_as_slice().is_err());
}

#[test]
fn case_ttc_header_v1_0() {
    let bytes: &[u8] = &[
        0x74, 0x74, 0x63, 0x66, 0x00, 0x01, 0x00, 0x00, 0x00, 0x00, 0x00, 0x08, 0x00, 0x00,
        0x00, 0x2C, 0x00, 0x00, 0x01, 0x28, 0x00, 0x00, 0x02, 0x24, 0x00, 0x00, 0x03, 0x20,
        0x00, 0x00, 0x04, 0x1C, 0x00, 0x00, 0x05, 0x18, 0x00, 0x00, 0x06, 0x14, 0x00, 0x00,
        0x07, 0x10, 0x4F, 0x54, 0x54, 0x4F];
    let ttc_header = parse_ttc_header(bytes).unwrap().1;
    assert_eq!(ttc_header.offset_table().len(), 8);
    assert_eq!(ttc_header.offset_table(), &([44, 296, 548, 800, 1052, 1304, 1556, 1808] as [u32; 8]));
    assert_eq!(ttc_header.dsig(), None);
}

#[test]
fn case_ttc_header_v2_0() {
    let bytes: &[u8] = &[
        0x74, 0x74, 0x63, 0x66, 0x00, 0x02, 0x00, 0x00, 0x00, 0x00, 0x00, 0x02, 0x00, 0x00,
        0x00, 0x20, 0x00, 0x00, 0x01, 0x00, 0x44, 0x53, 0x49, 0x47, 0x00, 0x00, 0x00, 0x10,
        0x00, 0x00, 0x02, 0x00];
    let ttc_header = parse_ttc_header(bytes).unwrap().1;
    assert_eq!(ttc_header.offset_table(), &[32u32, 256]);
    let dsig = ttc_header.dsig().unwrap();
    assert_eq!(dsig.dsig_length(), 16);
    assert_eq!(dsig.dsig_offset(), 512);

    let mut unsigned = bytes.to_vec();
    for b in &mut unsigned[20..32] {
        *b = 0;
    }
    assert_eq!(parse_ttc_header(&unsigned).unwrap().1.dsig(), None);
}

#[test]
fn case_ttc_header_invalid_version() {
    let bytes: &[u8] = &[
        0x74, 0x74, 0x63, 0x66, 0x00, 0x00, 0x00, 0x00,
        0x00, 0x00, 0x00, 0x04, 0x00, 0x00, 0x00, 0x1C,
        0x00, 0x00, 0x01, 0x18, 0x00, 0x00, 0x02, 0x14,
        0x00, 0x00, 0x03, 0x10
    ];
    assert_eq!(parse_ttc_header(bytes), Err(Error::InvalidDiscriminant(4)));
}

#[test]
fn ttc_header_truncated_offsets() {
    let bytes: &[u8] = &[0x74, 0x74, 0x63, 0x66, 0x00, 0x01, 0x00, 0x00, 0x00, 0x00, 0x00, 0x02,
        0x00, 0x00, 0x00, 0x20];
    assert_eq!(parse_ttc_header(bytes), Err(Error::Truncated));
}

#[test]
fn font_file_collection_kind() {
    let bytes: &[u8] = &[
        0x74, 0x74, 0x63, 0x66, 0x00, 0x01, 0x00, 0x00, 0x00, 0x00, 0x00, 0x01, 0x00, 0x00,
        0x00, 0x10, 0x00, 0x01, 0x00, 0x00, 0x00, 0x00, 0x00, 0x00, 0x00, 0x00, 0x00, 0x00];
    match parse_font_file(bytes).unwrap() {
        OpenTypeFontKind::FontCollection(h) => assert_eq!(h.offset_table(), &[16u32]),
        _ => panic!("expected a collection"),
    }
    let file = OpenTypeFontFile::parse(bytes).unwrap();
    assert_eq!(file.num_fonts(), 1);
    let font = file.font(0).unwrap().unwrap();
    assert_eq!(font.sfnt_version(), SfntVersion::TrueType);
    assert_eq!(font.num_tables(), 0);
    assert!(file.font(1).is_none());
}

#[test]
fn font_file_unknown_magic() {
    assert_eq!(parse_font_file(b"wOFF\0\0\0\0\0\0\0\0"), Err(Error::UnsupportedFormat));
    assert_eq!(parse_font_file(b"ttc"), Err(Error::Truncated));
}

#[test]
fn checksum_sums_whole_words() {
    let bytes: &[u8] = &[0x00, 0x00, 0x00, 0x01, 0xFF, 0xFF, 0xFF, 0xFF, 0x00, 0x00, 0x00, 0x05, 0x77];
    // 1 + 0xFFFFFFFF + 5 wraps to 5; the trailing byte is not summed.
    assert_eq!(compute_checksum(bytes), 5);
    // The head variant reads bytes 8 to 11 as zero.
    assert_eq!(compute_checksum_for_head(bytes), 0);
}

#[test]
fn head_checksum_matches_zeroed_adjustment() {
    let mut head: Vec<u8> = (0u8..54).map(|i| i.wrapping_mul(37)).collect();
    head.extend_from_slice(&[0, 0]);
    let recorded = compute_checksum_for_head(&head);
    let mut zeroed = head.clone();
    for b in &mut zeroed[8..12] {
        *b = 0;
    }
    assert_eq!(compute_checksum(&zeroed), recorded);
    assert_ne!(compute_checksum(&head), recorded);
}

#[test]
fn resolve_bounds() {
    let buf = [0u8; 12];
    let record = |offset, length| TableRecord::new(Tag(0x636D6170), 0, offset, length);
    assert_eq!(Table::resolve(&buf, &record(0, 0)), Ok(&buf[..0]));
    assert_eq!(Table::resolve(&buf, &record(0, 7)), Ok(&buf[..7]));
    assert_eq!(Table::resolve(&buf, &record(4, 7)), Err(Error::OutOfBounds));
    assert_eq!(Table::resolve(&buf, &record(13, 0)), Err(Error::OutOfBounds));
    assert_eq!(Table::resolve(&buf, &record(0, u32::MAX)), Err(Error::OutOfBounds));
    assert_eq!(Table::resolve(&buf, &record(u32::MAX, u32::MAX)), Err(Error::OutOfBounds));
    assert_eq!(Table::resolve(&buf, &record(12, 0)), Ok(&buf[12..]));
}

fn push_u16(v: &mut Vec<u8>, x: u16) {
    v.extend_from_slice(&x.to_be_bytes());
}

fn push_u32(v: &mut Vec<u8>, x: u32) {
    v.extend_from_slice(&x.to_be_bytes());
}

/// A font with a `head` table, a `name` table and an unknown `zzzz` table.
fn small_font() -> Vec<u8> {
    let mut head: Vec<u8> = vec![
        0x00, 0x01, 0x00, 0x00, 0x00, 0x02, 0x23, 0x12, 0x8A, 0x7F, 0x70, 0x48, 0x5F, 0x0F,
        0x3C, 0xF5, 0x00, 0x19, 0x08, 0x00, 0x00, 0x00, 0x00, 0x00, 0xC4, 0xF0, 0x11, 0x2E,
        0x00, 0x00, 0x00, 0x00, 0xD5, 0x01, 0x52, 0xF4, 0xFA, 0x1B, 0xFD, 0xD5, 0x09, 0x30,
        0x08, 0x73, 0x00, 0x00, 0x00, 0x09, 0x00, 0x02, 0x00, 0x00, 0x00, 0x00];
    head.extend_from_slice(&[0, 0]);
    let name: Vec<u8> = vec![0x00, 0x00, 0x00, 0x00, 0x00, 0x06, 0x00, 0x00];
    let other: Vec<u8> = vec![1, 2, 3, 4];
    let tables: Vec<(&[u8; 4], &Vec<u8>)> = vec![(b"head", &head), (b"name", &name), (b"zzzz", &other)];
    let mut file = Vec::new();
    push_u32(&mut file, 0x00010000);
    push_u16(&mut file, 3);
    push_u16(&mut file, 32);
    push_u16(&mut file, 1);
    push_u16(&mut file, 16);
    let mut offset = 12 + 16 * 3;
    let mut data = Vec::new();
    for (tag, bytes) in &tables {
        let length = if *tag == b"head" {
            54
        } else if *tag == b"name" {
            6
        } else {
            bytes.len()
        };
        let checksum = if *tag == b"head" {
            compute_checksum_for_head(bytes)
        } else {
            compute_checksum(bytes)
        };
        file.extend_from_slice(&tag[..]);
        push_u32(&mut file, checksum);
        push_u32(&mut file, offset as u32);
        push_u32(&mut file, length as u32);
        data.extend_from_slice(bytes);
        offset = 12 + 16 * 3 + data.len();
    }
    file.extend_from_slice(&data);
    file
}

#[test]
fn font_directory_lookup_and_checksums() {
    let file = small_font();
    let otff = OpenTypeFontFile::parse(&file).unwrap();
    let font = otff.font(0).unwrap().unwrap();
    assert_eq!(font.records().len(), 3);
    let head = font.table(Tag::from(TableTag::Head)).unwrap();
    assert_eq!(head.offset(), 60);
    assert_eq!(head.length(), 54);
    assert!(font.table(Tag::from(TableTag::Cmap)).is_none());
    for record in font.records() {
        assert_eq!(font.table(record.table_tag()), Some(*record));
    }
    let checks = font.checksums();
    assert_eq!(checks.len(), 3);
    assert!(checks.iter().all(|(_, ok)| *ok));

    let mut iter = font.iter();
    let first = iter.next().unwrap();
    assert_eq!(first.tag(), TableTag::Head);
    assert!(first.is_checksum_valid());
    assert_eq!(first.get_table_as_slice().unwrap().len(), 54);
    assert_eq!(iter.next().unwrap().tag(), TableTag::Name);
    // The unknown table is skipped.
    assert!(iter.next().is_none());
}

#[test]
fn font_corrupt_checksum_is_reported() {
    let mut file = small_font();
    // Bump one byte of the name table's data.
    let name = 60 + 56;
    file[name + 5] ^= 0xFF;
    let font = Font::parse(&file, 0).unwrap();
    let checks = font.checksums();
    assert!(checks[0].1);
    assert!(!checks[1].1);
    // Changing the head table's adjustment field leaves its checksum intact.
    let mut file = small_font();
    file[60 + 8] ^= 0xFF;
    let font = Font::parse(&file, 0).unwrap();
    assert!(font.checksums()[0].1);
}

#[test]
fn font_unsorted_directory_is_refused() {
    let offset_table = OffsetTable {
        sfnt_version: SfntVersion::TrueType,
        num_tables: 2,
        search_range: 32,
        entry_selector: 1,
        range_shift: 0,
    };
    let a = TableRecord::new(Tag(2), 0, 0, 0);
    let b = TableRecord::new(Tag(1), 0, 0, 0);
    assert!(Font::new(&[], offset_table, vec![a, b]).is_err());
    assert!(Font::new(&[], offset_table, vec![b, a]).is_ok());
}

#[test]
fn table_records_in_a_row() {
    let bytes: Vec<u8> = (0u8..40).collect();
    let (rest, records) = parse_table_records(&bytes, 2).unwrap();
    assert_eq!(rest, &bytes[32..]);
    assert_eq!(records[1].table_tag(), Tag(0x10111213));
    assert_eq!(records[1].length(), 0x1C1D1E1F);
    assert_eq!(parse_table_records(&bytes, 3), Err(Error::Truncated));
}

#[test]
fn table_tag_round_trip() {
    let tags = [TableTag::Avar, TableTag::Cff, TableTag::Cmap, TableTag::Cvt, TableTag::Gdef,
        TableTag::Head, TableTag::Os2, TableTag::Svg, TableTag::Vvar];
    for t in tags {
        assert_eq!(TableTag::parse(Tag::from(t)), Some(t));
    }
    assert_eq!(Tag::from(TableTag::Os2), Tag::new(b"OS/2"));
    assert_eq!(Tag::from(TableTag::Cvt), Tag::new(b"cvt "));
    assert_eq!(TableTag::parse(Tag::new(b"zzzz")), None);
}

#[test]
fn fonts_of_a_file_in_turn() {
    let file = small_font();
    let mut fonts = OpenTypeFontFile::parse(&file).unwrap().fonts();
    let font = fonts.next().unwrap().unwrap();
    assert_eq!(font.num_tables(), 3);
    assert!(fonts.next().is_none());
    assert_eq!(Font::parse(&file, file.len() + 1).unwrap_err(), Error::OutOfBounds);
    assert_eq!(Font::parse(&file, file.len() - 4).unwrap_err(), Error::UnsupportedFormat);
}

#[test]
fn decode_tables_by_tag() {
    let file = small_font();
    let font = Font::parse(&file, 0).unwrap();
    match font.decode(TableTag::Head) {
        Some(Ok(FontTable::Head(head))) => {
            assert_eq!(head.font_revision(), 140050);
            assert_eq!(head.units_per_em(), 2048);
        },
        _ => panic!("expected a font header"),
    }
    match font.decode(TableTag::Name) {
        Some(Ok(FontTable::Name(name))) => assert_eq!(name.string_offset(), 6),
        _ => panic!("expected a naming table"),
    }
    assert!(font.decode(TableTag::Cmap).is_none());
}

#[test]
fn table_checksum_mismatch_is_reported() {
    let bytes: &[u8] = &[0x05, 0x48, 0x65, 0x6C, 0x6C, 0x6F, 0x05, 0x00,
        0x00, 0x00, 0x00, 0x00];
    let table = Table::new(bytes, TableTag::Cmap, 1907845741, 0, 7);
    assert!(!table.is_checksum_valid());
    assert_eq!(table.get_table_as_slice(), Err(Error::ChecksumMismatch));
    let record = TableRecord::new(Tag::from(TableTag::Cmap), 1907845740, 0, 7);
    assert!(Table::validate_checksum(bytes, &record));
    assert_eq!(Table::resolve(bytes, &record), Ok(&bytes[..7]));
}
