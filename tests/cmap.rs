use opentype_rs::error::Error;
use opentype_rs::tables::cmap::{
    parse_character_to_glyph_index_mapping_subtable, parse_default_uvs_table, parse_non_default_uvs_table,
    CharacterGlyphIndexMappingSubtable, CharacterGlyphIndexMappingTable,
};
use opentype_rs::tables::name::{MacintoshEncoding, MacintoshLanguage, Platform, UnicodeEncoding};

fn push_u16(v: &mut Vec<u8>, x: u16) {
    v.extend_from_slice(&x.to_be_bytes());
}

fn push_u32(v: &mut Vec<u8>, x: u32) {
    v.extend_from_slice(&x.to_be_bytes());
}

/// A format 4 subtable with the segments `(start, end, delta, range_offset)`
/// and the given glyph array.
fn format4(segments: &[(u16, u16, i16, u16)], glyphs: &[u16]) -> Vec<u8> {
    let n = segments.len() as u16;
    let mut v = Vec::new();
    push_u16(&mut v, 4);
    push_u16(&mut v, 0);
    push_u16(&mut v, 0);
    push_u16(&mut v, 2 * n);
    push_u16(&mut v, 2);
    push_u16(&mut v, 0);
    push_u16(&mut v, 2 * n - 2);
    for s in segments {
        push_u16(&mut v, s.1);
    }
    push_u16(&mut v, 0);
    for s in segments {
        push_u16(&mut v, s.0);
    }
    for s in segments {
        push_u16(&mut v, s.2 as u16);
    }
    for s in segments {
        push_u16(&mut v, s.3);
    }
    for g in glyphs {
        push_u16(&mut v, *g);
    }
    v
}

#[test]
fn format0_lookup() {
    let mut v = Vec::new();
    push_u16(&mut v, 0);
    push_u16(&mut v, 262);
    push_u16(&mut v, 0);
    for i in 0..256u32 {
        v.push((255 - i) as u8);
    }
    let t = parse_character_to_glyph_index_mapping_subtable(&v).unwrap();
    assert_eq!(t.get_glyph_id(0), Some(255));
    assert_eq!(t.get_glyph_id(65), Some(190));
    assert_eq!(t.get_glyph_id(256), None);
    assert_eq!(parse_character_to_glyph_index_mapping_subtable(&v[..261]), Err(Error::Truncated));
}

#[test]
fn format4_delta_and_array_lookup() {
    // Codes 10..=20 by delta 5; codes 30..=32 through the glyph array; then the terminal segment.
    let data = format4(&[(10, 20, 5, 0), (30, 32, 0, 4), (0xFFFF, 0xFFFF, 1, 0)], &[7, 0, 9]);
    let t = parse_character_to_glyph_index_mapping_subtable(&data).unwrap();
    match &t {
        CharacterGlyphIndexMappingSubtable::Format_4(s) => {
            assert_eq!(s.seg_count(), 3);
            assert_eq!(s.end_code(), &[20, 32, 0xFFFF]);
            assert_eq!(s.start_code(), &[10, 30, 0xFFFF]);
            assert_eq!(s.id_delta(), &[5, 0, 1]);
            assert_eq!(s.id_range_offset(), &[0, 4, 0]);
            assert_eq!(s.glyph_id_array().len(), 6);
            assert_eq!(s.get_glyph_id(12), Some(17));
            assert_eq!(s.get_glyph_id(25), None);
        },
        _ => panic!("expected format 4"),
    }
    assert_eq!(t.get_glyph_id(10), Some(15));
    assert_eq!(t.get_glyph_id(9), None);
    assert_eq!(t.get_glyph_id(30), Some(7));
    assert_eq!(t.get_glyph_id(31), None);
    assert_eq!(t.get_glyph_id(32), Some(9));
    assert_eq!(t.get_glyph_id(0xFFFF), Some(0));
    assert_eq!(t.get_glyph_id(0x10000), None);
}

#[test]
fn format4_requires_terminal_segment() {
    let data = format4(&[(10, 20, 5, 0), (30, 0xFFFE, 0, 0)], &[]);
    assert_eq!(parse_character_to_glyph_index_mapping_subtable(&data), Err(Error::MalformedInvariant));
    let data = format4(&[(10, 20, 5, 0), (0xFFFE, 0xFFFF, 0, 0)], &[]);
    assert_eq!(parse_character_to_glyph_index_mapping_subtable(&data), Err(Error::MalformedInvariant));
    let data = format4(&[(10, 20, 5, 0), (0xFFFF, 0xFFFF, 1, 0)], &[]);
    assert!(parse_character_to_glyph_index_mapping_subtable(&data).is_ok());
}

#[test]
fn format4_glyph_array_must_be_present() {
    let data = format4(&[(30, 32, 0, 4), (0xFFFF, 0xFFFF, 1, 0)], &[7, 8]);
    assert_eq!(parse_character_to_glyph_index_mapping_subtable(&data), Err(Error::Truncated));
    let mut odd = format4(&[(0xFFFF, 0xFFFF, 1, 0)], &[]);
    odd[7] = 3;
    assert_eq!(parse_character_to_glyph_index_mapping_subtable(&odd), Err(Error::MalformedInvariant));
}

#[test]
fn format6_lookup() {
    let mut v = Vec::new();
    push_u16(&mut v, 6);
    push_u16(&mut v, 16);
    push_u16(&mut v, 0);
    push_u16(&mut v, 100);
    push_u16(&mut v, 3);
    for g in [4u16, 5, 6] {
        push_u16(&mut v, g);
    }
    let t = parse_character_to_glyph_index_mapping_subtable(&v).unwrap();
    assert_eq!(t.get_glyph_id(99), None);
    assert_eq!(t.get_glyph_id(100), Some(4));
    assert_eq!(t.get_glyph_id(102), Some(6));
    assert_eq!(t.get_glyph_id(103), None);
    match &t {
        CharacterGlyphIndexMappingSubtable::Format_6(s) => {
            assert_eq!(s.first_code(), 100);
            assert_eq!(s.entry_count(), 3);
            assert_eq!(s.get_glyph_id(101), Some(5));
        },
        _ => panic!("expected format 6"),
    }
}

fn groups_subtable(format: u16, groups: &[(u32, u32, u32)]) -> Vec<u8> {
    let mut v = Vec::new();
    push_u16(&mut v, format);
    push_u16(&mut v, 0);
    push_u32(&mut v, 0);
    push_u32(&mut v, 0);
    push_u32(&mut v, groups.len() as u32);
    for g in groups {
        push_u32(&mut v, g.0);
        push_u32(&mut v, g.1);
        push_u32(&mut v, g.2);
    }
    v
}

#[test]
fn format12_and_13_lookup() {
    let data12 = groups_subtable(12, &[(0x20, 0x7E, 1), (0x1F600, 0x1F64F, 500)]);
    let t = parse_character_to_glyph_index_mapping_subtable(&data12).unwrap();
    assert_eq!(t.get_glyph_id(0x20), Some(1));
    assert_eq!(t.get_glyph_id(0x41), Some(34));
    assert_eq!(t.get_glyph_id(0x7F), None);
    assert_eq!(t.get_glyph_id(0x1F601), Some(501));
    let data13 = groups_subtable(13, &[(0x20, 0x7E, 1)]);
    let t = parse_character_to_glyph_index_mapping_subtable(&data13).unwrap();
    assert_eq!(t.get_glyph_id(0x41), Some(1));
    assert_eq!(t.get_glyph_id(0x1F), None);
    assert_eq!(
        parse_character_to_glyph_index_mapping_subtable(&groups_subtable(12, &[(0x20, 0x7E, 1), (0x70, 0x80, 2)])),
        Err(Error::MalformedInvariant)
    );
    assert_eq!(
        parse_character_to_glyph_index_mapping_subtable(&groups_subtable(13, &[(0x30, 0x20, 1)])),
        Err(Error::MalformedInvariant)
    );
}

#[test]
fn format10_lookup() {
    let mut v = Vec::new();
    push_u16(&mut v, 10);
    push_u16(&mut v, 0);
    push_u32(&mut v, 24);
    push_u32(&mut v, 0);
    push_u32(&mut v, 0x10000);
    push_u32(&mut v, 2);
    push_u16(&mut v, 8);
    push_u16(&mut v, 9);
    let t = parse_character_to_glyph_index_mapping_subtable(&v).unwrap();
    assert_eq!(t.get_glyph_id(0x10001), Some(9));
    assert_eq!(t.get_glyph_id(0x10002), None);
    assert_eq!(t.get_glyph_id(0xFFFF), None);
}

#[test]
fn format14_and_variation_tables() {
    let mut v = Vec::new();
    push_u16(&mut v, 14);
    push_u32(&mut v, 21);
    push_u32(&mut v, 1);
    v.extend_from_slice(&[0x00, 0xFE, 0x00]);
    push_u32(&mut v, 21);
    push_u32(&mut v, 0);
    match parse_character_to_glyph_index_mapping_subtable(&v).unwrap() {
        CharacterGlyphIndexMappingSubtable::Format_14(s) => {
            let r = s.var_selector()[0];
            assert_eq!(r.var_selector(), 0xFE00);
            assert_eq!(r.default_uvs_offset(), 21);
            assert_eq!(r.non_default_uvs_offset(), 0);
        },
        _ => panic!("expected format 14"),
    }
    let d = parse_default_uvs_table(&[0, 0, 0, 1, 0x00, 0x4E, 0x00, 0x03]).unwrap();
    assert_eq!(d.ranges()[0].start_unicode_value(), 0x4E00);
    assert_eq!(d.ranges()[0].additional_count(), 3);
    let n = parse_non_default_uvs_table(&[0, 0, 0, 1, 0x00, 0x4E, 0x00, 0x01, 0x02]).unwrap();
    assert_eq!(n.uvs_mappings()[0].unicode_value(), 0x4E00);
    assert_eq!(n.uvs_mappings()[0].glyph_id(), 258);
    assert_eq!(parse_non_default_uvs_table(&[0, 0, 0, 2, 0, 0, 0, 0, 0]).unwrap_err(), Error::Truncated);
}

#[test]
fn unknown_format_is_refused() {
    assert_eq!(parse_character_to_glyph_index_mapping_subtable(&[0, 3, 0, 0]), Err(Error::InvalidDiscriminant(0)));
    assert_eq!(parse_character_to_glyph_index_mapping_subtable(&[0]), Err(Error::Truncated));
}

#[test]
fn encoding_records_with_macintosh_language() {
    let sub4 = format4(&[(0x41, 0x5A, 1, 0), (0xFFFF, 0xFFFF, 1, 0)], &[]);
    let mut sub0 = Vec::new();
    push_u16(&mut sub0, 0);
    push_u16(&mut sub0, 262);
    // Raw language 18: Macintosh language id 17.
    push_u16(&mut sub0, 18);
    sub0.extend_from_slice(&[3u8; 256]);
    let mut cmap = Vec::new();
    push_u16(&mut cmap, 0);
    push_u16(&mut cmap, 3);
    push_u16(&mut cmap, 0);
    push_u16(&mut cmap, 3);
    push_u32(&mut cmap, 28);
    push_u16(&mut cmap, 1);
    push_u16(&mut cmap, 0);
    push_u32(&mut cmap, 28 + sub4.len() as u32);
    push_u16(&mut cmap, 9);
    push_u16(&mut cmap, 0);
    push_u32(&mut cmap, 28);
    cmap.extend_from_slice(&sub4);
    cmap.extend_from_slice(&sub0);
    let records = CharacterGlyphIndexMappingTable::parse(&cmap).unwrap();
    assert_eq!(records.table.num_tables(), 3);
    let first = records.record(0).unwrap().unwrap();
    assert_eq!(first.platform(), Platform::Unicode(UnicodeEncoding::Unicode_2_0_Bmp, None));
    assert_eq!(first.character_to_glyph_index_mapping_subtable().get_glyph_id(0x41), Some(0x42));
    let second = records.record(1).unwrap().unwrap();
    assert_eq!(second.platform(), Platform::Macintosh(MacintoshEncoding::Roman, MacintoshLanguage::from_u16(17)));
    assert_eq!(second.character_to_glyph_index_mapping_subtable().language(), 18);
    assert_eq!(records.record(2).unwrap().unwrap_err(), Error::InvalidDiscriminant(20));
    assert!(records.record(3).is_none());
    let mut iter = records.iter();
    assert!(iter.next().is_some());
    assert!(iter.next().is_some());
    assert!(iter.next().is_none());
    assert!(iter.next().is_none());
    assert_eq!(CharacterGlyphIndexMappingTable::parse(&[0, 1, 0, 0]).unwrap_err(), Error::InvalidDiscriminant(0));
}

#[test]
fn format2_sub_headers() {
    let mut v = Vec::new();
    push_u16(&mut v, 2);
    push_u16(&mut v, 0);
    push_u16(&mut v, 0);
    for i in 0..256u16 {
        push_u16(&mut v, if i == 0x81 { 8 } else { 0 });
    }
    for (first, count, delta, offset) in [(0u16, 256u16, 0i16, 2u16), (0x40, 10, -3, 4)] {
        push_u16(&mut v, first);
        push_u16(&mut v, count);
        push_u16(&mut v, delta as u16);
        push_u16(&mut v, offset);
    }
    match parse_character_to_glyph_index_mapping_subtable(&v).unwrap() {
        CharacterGlyphIndexMappingSubtable::Format_2(s) => {
            assert_eq!(s.sub_header_keys()[0x81], 8);
            assert_eq!(s.sub_headers().len(), 2);
            let h = s.sub_headers()[1];
            assert_eq!(h.first_code(), 0x40);
            assert_eq!(h.entry_count(), 10);
            assert_eq!(h.id_delta(), -3);
            assert_eq!(h.id_range_offset(), 4);
        },
        _ => panic!("expected format 2"),
    }
    assert_eq!(parse_character_to_glyph_index_mapping_subtable(&v[..v.len() - 1]), Err(Error::Truncated));
}

#[test]
fn dense_mapping_matches_lookup() {
    let data = format4(&[(10, 12, 5, 0), (30, 32, 0, 4), (0xFFFF, 0xFFFF, 1, 0)], &[7, 0, 9]);
    let t = parse_character_to_glyph_index_mapping_subtable(&data).unwrap();
    let m = t.mapping();
    assert_eq!(m.len(), 6);
    assert_eq!(m.get(&10), Some(&15));
    assert_eq!(m.get(&12), Some(&17));
    assert_eq!(m.get(&30), Some(&7));
    assert_eq!(m.get(&31), None);
    assert_eq!(m.get(&32), Some(&9));
    assert_eq!(m.get(&0xFFFF), Some(&0));
    let data12 = groups_subtable(12, &[(0x20, 0x22, 1), (0x1F600, 0x1F601, 500)]);
    let t = parse_character_to_glyph_index_mapping_subtable(&data12).unwrap();
    let m = t.mapping();
    assert_eq!(m.len(), 5);
    assert_eq!(m.get(&0x21), Some(&2));
    assert_eq!(m.get(&0x1F601), Some(&501));
}
