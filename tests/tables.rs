use opentype_rs::error::Error;
use opentype_rs::tables::head::parse_font_header_table;
use opentype_rs::tables::hhea::parse_horizontal_header_table;
use opentype_rs::tables::hmtx::{parse_horizontal_metrics_table, HorizontalMetricsTable, LongHorMetricRecord};
use opentype_rs::tables::loca::{parse_index_to_location_table, IndexToLocationTable};
use opentype_rs::tables::maxp::parse_maximum_profile_table;
use opentype_rs::tables::name::{
    parse_name_record, parse_naming_table, MacintoshLanguage, NameId, NameRecord, NamingTable, Platform,
    WindowsEncoding, WindowsLanguage,
};
use opentype_rs::tables::os2::{
    parse_os2, parse_os2v1, parse_os2v4, CodePageRange, FontSelectionFlags, Os2Version, Panose, UnicodeRange,
    FS_OBLIQUE,
};
use opentype_rs::tables::post::{
    parse_pascal_strings, parse_pascal_strings_to_owned, parse_post_script_table, PostScriptTable, PostScriptVersion,
};
use opentype_rs::tables::{parse_table, FontTable};
use opentype_rs::types::{Rect, TableTag, Tag};

const HEAD: [u8; 54] = [
    0x00, 0x01, 0x00, 0x00, 0x00, 0x02, 0x23, 0x12, 0x8A, 0x7F, 0x70, 0x48, 0x5F, 0x0F,
    0x3C, 0xF5, 0x00, 0x19, 0x08, 0x00, 0x00, 0x00, 0x00, 0x00, 0xC4, 0xF0, 0x11, 0x2E,
    0x00, 0x00, 0x00, 0x00, 0xD5, 0x01, 0x52, 0xF4, 0xFA, 0x1B, 0xFD, 0xD5, 0x09, 0x30,
    0x08, 0x73, 0x00, 0x00, 0x00, 0x09, 0x00, 0x02, 0x00, 0x00, 0x00, 0x00];

#[test]
fn case_font_header_table_invalid_empty_slice() {
    let bytes: &[u8] = &[];
    assert_eq!(parse_font_header_table(bytes), Err(Error::Truncated));
}

#[test]
fn case_font_header_table_invalid_magic_number() {
    let bytes: &[u8] = &[
        0x00, 0x01, 0x00, 0x00, 0x00, 0x02, 0x23, 0x12, 0x8A, 0x7F, 0x70, 0x48, 0x00, 0x00,
        0x00, 0x00, 0x00, 0x19, 0x08, 0x00, 0x00, 0x00, 0x00, 0x00, 0xC4, 0xF0, 0x11, 0x2E,
        0x00, 0x00, 0x00, 0x00, 0xD5, 0x01, 0x52, 0xF4, 0xFA, 0x1B, 0xFD, 0xD5, 0x09, 0x30,
        0x08, 0x73, 0x00, 0x00, 0x00, 0x09, 0x00, 0x02, 0x00, 0x00, 0x00, 0x00
    ];
    assert_eq!(parse_font_header_table(bytes), Err(Error::InvalidDiscriminant(12)));
}

#[test]
fn font_header_table_fields() {
    let (rest, head) = parse_font_header_table(&HEAD).unwrap();
    assert!(rest.is_empty());
    assert_eq!(head.font_revision(), 140050);
    assert_eq!(head.check_sum_adjustment(), 0x8A7F7048);
    assert_eq!(head.flags(), 0x19);
    assert_eq!(head.units_per_em(), 2048);
    assert_eq!(head.created(), 0xC4F0112E);
    assert_eq!(head.modified(), 0xD50152F4);
    assert_eq!(head.bounding_box(), Rect::new(-1509, -555, 2352, 2163));
    assert_eq!(head.bounding_box().x_min(), -1509);
    assert_eq!(head.bounding_box().y_max(), 2163);
    assert_eq!(head.mac_style(), 0);
    assert_eq!(head.lowest_rec_ppem(), 9);
    assert_eq!(head.font_direction_hint(), 2);
    assert_eq!(head.index_to_loc_format(), 0);
    assert_eq!(head.glyph_data_format(), 0);
    assert_eq!(parse_font_header_table(&HEAD[..53]), Err(Error::Truncated));
    let mut bad_version = HEAD;
    bad_version[3] = 1;
    assert_eq!(parse_font_header_table(&bad_version), Err(Error::InvalidDiscriminant(2)));
}

#[test]
fn case_head_invalid_empty_slice() {
    let bytes: &[u8] = &[];
    assert_eq!(parse_horizontal_header_table(bytes), Err(Error::Truncated));
}

#[test]
fn horizontal_header_table_fields() {
    let bytes: &[u8] = &[
        0x00, 0x01, 0x00, 0x00, 0x07, 0x6C, 0xFE, 0x0C, 0x00, 0x00, 0x09, 0x30, 0xFA, 0x1B,
        0xFE, 0x2F, 0x09, 0x30, 0x00, 0x01, 0x00, 0x00, 0x00, 0x00, 0x00, 0x00, 0x00, 0x00,
        0x00, 0x00, 0x00, 0x00, 0x00, 0x00, 0x05, 0x0E];
    let hhea = parse_horizontal_header_table(bytes).unwrap().1;
    assert_eq!(hhea.ascender(), 1900);
    assert_eq!(hhea.descender(), -500);
    assert_eq!(hhea.line_gap(), 0);
    assert_eq!(hhea.advance_width_max(), 2352);
    assert_eq!(hhea.min_left_side_bearing(), -1509);
    assert_eq!(hhea.min_right_side_bearing(), -465);
    assert_eq!(hhea.x_max_extent(), 2352);
    assert_eq!(hhea.caret_slope_rise(), 1);
    assert_eq!(hhea.caret_slope_run(), 0);
    assert_eq!(hhea.caret_offset(), 0);
    assert_eq!(hhea.metric_data_format(), 0);
    assert_eq!(hhea.number_of_hmetrics(), 1294);
}

#[test]
fn case_horizontal_metrics_table_left_side_bearings() {
    let bytes: &[u8] = &[0x03, 0x8C, 0x00, 0x64, 0x00, 0x00, 0x00, 0x00,
        0x00, 0x00, 0x00, 0x00, 0x01, 0xFB, 0x00, 0x00];
    let expected = (&b""[..], HorizontalMetricsTable {
        h_metrics: Vec::new(),
        left_side_bearings: vec![908, 100, 0, 0, 0, 0, 507, 0],
    });
    let res = parse_horizontal_metrics_table(bytes, 0, 8).unwrap();
    assert_eq!(res, expected);
}

#[test]
fn case_horizontal_metrics_table_invalid_empty_slice() {
    let bytes: &[u8] = &[];
    assert_eq!(parse_horizontal_metrics_table(bytes, 10, 10), Err(Error::Truncated));
}

#[test]
fn horizontal_metrics_records_then_bearings() {
    let bytes: &[u8] = &[0x03, 0x8C, 0x00, 0x64, 0x01, 0x00, 0xFF, 0xFE, 0x00, 0x07];
    let table = HorizontalMetricsTable::parse(bytes, 2, 3).unwrap();
    assert_eq!(table.h_metrics(), &vec![
        LongHorMetricRecord { advance_width: 908, lsb: 100 },
        LongHorMetricRecord { advance_width: 256, lsb: -2 },
    ]);
    assert_eq!(table.h_metrics()[1].advance_width(), 256);
    assert_eq!(table.h_metrics()[1].lsb(), -2);
    assert_eq!(table.left_side_bearings(), &[7]);
}

#[test]
fn index_to_location_formats() {
    let bytes: &[u8] = &[0x00, 0x00, 0x00, 0x10, 0x00, 0x20, 0x00, 0x00];
    let (rest, short) = parse_index_to_location_table(bytes, 0, 2).unwrap();
    assert_eq!(rest, &[0x00, 0x00]);
    assert_eq!(short, IndexToLocationTable::Short(vec![0, 16, 32]));
    assert_eq!(short.get_glyf_offset(1), Some(16));
    assert_eq!(short.get_glyf_offset(3), None);
    let long = IndexToLocationTable::parse(bytes, 1, 1).unwrap();
    assert_eq!(long.get_glyf_offset(0), Some(16));
    assert_eq!(long.get_glyf_offset(1), Some(0x200000));
    assert_eq!(IndexToLocationTable::parse(bytes, 1, 2), Err(Error::Truncated));
    assert_eq!(IndexToLocationTable::parse(bytes, 2, 1), Err(Error::InvalidDiscriminant(0)));
}

#[test]
fn maxp_case_maximum_profile_table_invalid_empty_slice() {
    let bytes: &[u8] = &[];
    assert_eq!(parse_maximum_profile_table(bytes), Err(Error::Truncated));
}

#[test]
fn maximum_profile_versions() {
    let simple: &[u8] = &[0x00, 0x00, 0x50, 0x00, 0x05, 0x0E];
    let maxp = parse_maximum_profile_table(simple).unwrap().1;
    assert_eq!(maxp.num_glyphs(), 1294);
    assert!(maxp.extension().is_none());

    let extended: &[u8] = &[
        0x00, 0x01, 0x00, 0x00, 0x05, 0x0E, 0x00, 0x8F, 0x00, 0x16, 0x00, 0x54, 0x00, 0x05,
        0x00, 0x01, 0x00, 0x00, 0x00, 0x0F, 0x00, 0x2A, 0x00, 0x00, 0x02, 0x00, 0x01, 0x58,
        0x00, 0x02, 0x00, 0x01];
    let maxp = parse_maximum_profile_table(extended).unwrap().1;
    assert_eq!(maxp.num_glyphs(), 1294);
    let ext = maxp.extension().unwrap();
    assert_eq!(ext.max_points(), 143);
    assert_eq!(ext.max_contours(), 22);
    assert_eq!(ext.max_composite_points(), 84);
    assert_eq!(ext.max_composite_contours(), 5);
    assert_eq!(ext.max_zones(), 1);
    assert_eq!(ext.max_twilight_points(), 0);
    assert_eq!(ext.max_storage(), 15);
    assert_eq!(ext.max_function_defs(), 42);
    assert_eq!(ext.max_instruction_defs(), 0);
    assert_eq!(ext.max_stack_elements(), 512);
    assert_eq!(ext.max_size_of_instructions(), 344);
    assert_eq!(ext.max_component_elements(), 2);
    assert_eq!(ext.max_component_depth(), 1);

    assert_eq!(parse_maximum_profile_table(&extended[..31]), Err(Error::Truncated));
    let unknown: &[u8] = &[0x00, 0x02, 0x00, 0x00, 0x05, 0x0E];
    assert_eq!(parse_maximum_profile_table(unknown), Err(Error::InvalidDiscriminant(0)));
}

#[test]
fn case_naming_table_invalid_empty_slice() {
    let bytes: &[u8] = &[];
    assert_eq!(parse_naming_table(bytes), Err(Error::Truncated));
}

#[test]
fn case_naming_table_invalid_format() {
    let bytes: &[u8] = &[0x01, 0x01];
    assert_eq!(parse_naming_table(bytes), Err(Error::InvalidDiscriminant(0)));
}

#[test]
fn case_naming_table_invalid_incomplete() {
    let bytes: &[u8] = &[0x00, 0x00, 0x00, 0x1A, 0x01, 0x3E, 0x00, 0x01, 0x00, 0x00, 0x00,
        0x00, 0x00, 0x00, 0x00, 0x2F, 0x00, 0x00, 0x00, 0x01, 0x00, 0x00, 0x00, 0x00, 0x00,
        0x01, 0x00, 0x06, 0x00, 0x2F, 0x00, 0x01, 0x00, 0x00, 0x00, 0x00, 0x00, 0x02, 0x00,
        0x07, 0x00, 0x35];
    assert_eq!(parse_naming_table(bytes), Err(Error::Truncated));
}

#[test]
fn case_name_record_name_id_font_specific_name() {
    let bytes: &[u8] = &[0x00, 0x01, 0x00, 0x00, 0x00, 0x00, 0x0F, 0xFF,
        0x00, 0x00, 0x00, 0x00];
    let expected = (&b""[..], NameRecord {
        platform: Platform::new(1, 0, Some(0)).unwrap(),
        name_id: NameId::FontSpecificName(0x0FFF),
        offset: 0,
        length: 0
    });
    let res = parse_name_record(bytes).unwrap();
    assert_eq!(res, expected);
}

#[test]
fn case_name_record_invalid_platform_id() {
    let bytes: &[u8] = &[0x00, 0x05, 0x00, 0x00, 0x00, 0x00];
    assert_eq!(parse_name_record(bytes), Err(Error::InvalidDiscriminant(0)));
}

#[test]
fn case_name_record_invalid_macintosh_encoding_id() {
    let bytes: &[u8] = &[0x00, 0x01, 0x00, 0xFF, 0x00, 0x00];
    assert_eq!(parse_name_record(bytes), Err(Error::InvalidDiscriminant(0)));
}

#[test]
fn case_name_record_malformed_macintosh_language_id() {
    let bytes: &[u8] = &[0x00, 0x01, 0x00, 0x00, 0x00, 0xFF, 0x00, 0x01, 0x00, 0x00, 0x00,
        0x00];
    let expected = (&b""[..], NameRecord {
        platform: Platform::new(1, 0, None).unwrap(),
        name_id: NameId::FontFamilyName,
        offset: 0,
        length: 0
    });
    let res = parse_name_record(bytes).unwrap();
    assert_eq!(res, expected);
}

#[test]
fn case_name_record_invalid_name_id() {
    let bytes: &[u8] = &[0x00, 0x01, 0x00, 0x00, 0x00, 0x00, 0x00, 0xFF];
    assert_eq!(parse_name_record(bytes), Err(Error::InvalidDiscriminant(6)));
}

#[test]
fn naming_table_format_one() {
    let bytes: &[u8] = &[
        0x00, 0x01, 0x00, 0x02, 0x00, 0x26,
        0x00, 0x03, 0x00, 0x01, 0x04, 0x09, 0x00, 0x01, 0x00, 0x0A, 0x00, 0x00,
        0x00, 0x03, 0x00, 0x01, 0x80, 0x00, 0x00, 0x02, 0x00, 0x04, 0x00, 0x0A,
        0x00, 0x01, 0x00, 0x04, 0x00, 0x0E];
    let (rest, table) = parse_naming_table(bytes).unwrap();
    assert!(rest.is_empty());
    assert_eq!(table.string_offset(), 0x26);
    assert_eq!(table.name_records().len(), 2);
    let first = table.name_records()[0];
    assert_eq!(first.platform(),
        Platform::Windows(WindowsEncoding::UnicodeBmp, Some(WindowsLanguage::EnglishUnitedStates)));
    assert_eq!(first.name_id(), NameId::FontFamilyName);
    assert_eq!(first.length(), 10);
    assert_eq!(first.offset(), 0);
    // Language 0x8000 names a language tag record, which no Windows language is.
    let second = table.name_records()[1];
    assert_eq!(second.platform(), Platform::Windows(WindowsEncoding::UnicodeBmp, None));
    let tags = table.lang_tag_records().unwrap();
    assert_eq!(tags.len(), 1);
    assert_eq!(tags[0].length(), 4);
    assert_eq!(tags[0].offset(), 14);
    assert_eq!(table.lang_tag(0x8000), Some(tags[0]));
    assert_eq!(table.lang_tag(0x8001), None);
    assert_eq!(table.lang_tag(0x0409), None);
    assert_eq!(NamingTable::parse(bytes).unwrap(), table);
}

#[test]
fn naming_table_bad_record_is_located() {
    let bytes: &[u8] = &[
        0x00, 0x00, 0x00, 0x02, 0x00, 0x1E,
        0x00, 0x03, 0x00, 0x01, 0x04, 0x09, 0x00, 0x01, 0x00, 0x0A, 0x00, 0x00,
        0x00, 0x07, 0x00, 0x01, 0x04, 0x09, 0x00, 0x02, 0x00, 0x04, 0x00, 0x0A];
    assert_eq!(parse_naming_table(bytes), Err(Error::InvalidDiscriminant(18)));
}

#[test]
fn platform_identification() {
    assert_eq!(Platform::new(1, 0, Some(0)), Some(Platform::Macintosh(
        opentype_rs::tables::name::MacintoshEncoding::Roman, Some(MacintoshLanguage::English))));
    assert_eq!(Platform::new(4, 9, Some(3)), Some(Platform::Custom(9, Some(3))));
    assert_eq!(Platform::new(250, 1, None), Some(Platform::UserDefined(1, None)));
    assert_eq!(Platform::new(5, 0, None), None);
    assert_eq!(Platform::new(3, 7, None), None);
    assert_eq!(NameId::from_u16(15), None);
    assert_eq!(NameId::from_u16(256), Some(NameId::FontSpecificName(256)));
    assert_eq!(NameId::from_u16(32768), None);
}

const OS2_V3: &[u8] = &[
    0x00, 0x03, 0x04, 0x86, 0x01, 0x90, 0x00, 0x05, 0x00, 0x00, 0x05, 0x9A, 0x05, 0x33,
    0x00, 0x00, 0x01, 0x1F, 0x05, 0x9A, 0x05, 0x33, 0x00, 0x00, 0x03, 0xD1, 0x00, 0x66,
    0x02, 0x00, 0x00, 0x00, 0x02, 0x00, 0x00, 0x00, 0x00, 0x00, 0x00, 0x00, 0x00, 0x00,
    0xE0, 0x00, 0x02, 0xFF, 0x50, 0x00, 0x20, 0x5B, 0x00, 0x00, 0x00, 0x20, 0x00, 0x00,
    0x00, 0x00, 0x47, 0x4F, 0x4F, 0x47, 0x00, 0x40, 0x00, 0x00, 0xFF, 0xFD, 0x06, 0x00,
    0xFE, 0x00, 0x00, 0x66, 0x07, 0x9A, 0x02, 0x00, 0x20, 0x00, 0x01, 0x9F, 0x00, 0x00,
    0x00, 0x00, 0x04, 0x3A, 0x05, 0xB0, 0x00, 0x20, 0x00, 0x20, 0x00, 0x03];

#[test]
fn case_os2_invalid_empty_slice() {
    let bytes: &[u8] = &[];
    assert_eq!(parse_os2(bytes), Err(Error::Truncated));
}

#[test]
fn os2_version_3() {
    let os2_table = parse_os2(OS2_V3).unwrap().1;
    match os2_table.version() {
        Os2Version::Version3(os2) => {
            assert_eq!(os2.x_avg_char_width(), 1158);
            assert_eq!(os2.us_weight_class(), 400);
            assert_eq!(os2.us_width_class(), 5);
            assert_eq!(os2.fs_type(), 0);
            assert_eq!(os2.y_subscript_xsize(), 1434);
            assert_eq!(os2.y_subscript_ysize(), 1331);
            assert_eq!(os2.y_subscript_xoffset(), 0);
            assert_eq!(os2.y_subscript_yoffset(), 287);
            assert_eq!(os2.y_superscript_xsize(), 1434);
            assert_eq!(os2.y_superscript_ysize(), 1331);
            assert_eq!(os2.y_superscript_xoffset(), 0);
            assert_eq!(os2.y_superscript_yoffset(), 977);
            assert_eq!(os2.y_strikeout_size(), 102);
            assert_eq!(os2.y_strikeout_position(), 512);
            assert_eq!(os2.s_family_class(), 0);
            assert_eq!(os2.panose(), &Panose::new(&[2, 0, 0, 0, 0, 0, 0, 0, 0, 0]));
            assert_eq!(os2.ul_unicode_range(), UnicodeRange::new(3758097151, 1342185563, 32, 0));
            assert_eq!(os2.ach_vend_id(), Tag::new(b"GOOG"));
            assert_eq!(os2.fs_selection(), FontSelectionFlags::from_bits(FS_OBLIQUE).unwrap());
            assert_eq!(os2.us_first_char_index(), 0);
            assert_eq!(os2.us_last_char_index(), 65533);
            assert_eq!(os2.s_typo_ascender(), 1536);
            assert_eq!(os2.s_typo_descender(), -512);
            assert_eq!(os2.s_typo_line_gap(), 102);
            assert_eq!(os2.us_win_ascent(), 1946);
            assert_eq!(os2.us_win_descent(), 512);
            assert_eq!(os2.ul_code_page_range(), CodePageRange::new(536871327, 0));
            assert_eq!(os2.sx_height(), 1082);
            assert_eq!(os2.s_cap_height(), 1456);
            assert_eq!(os2.us_default_char(), 32);
            assert_eq!(os2.us_break_char(), 32);
            assert_eq!(os2.us_max_context(), 3);
        },
        _ => assert!(false)
    }
    assert_eq!(os2_table.x_avg_char_width(), 1158);
    assert_eq!(os2_table.us_win_descent(), 512);
    assert!(os2_table.fs_selection().contains(FS_OBLIQUE));
    assert_eq!(os2_table.ul_unicode_range().range1(), 3758097151);
    assert_eq!(os2_table.ul_unicode_range().range4(), 0);
}

#[test]
fn os2_extension_chain() {
    let mut v4 = OS2_V3.to_vec();
    v4[1] = 4;
    let full = match parse_os2(&v4).unwrap().1.version() {
        Os2Version::Version4(t) => *t,
        _ => panic!("expected version 4"),
    };
    let prefix = parse_os2v1(&v4[..86]).unwrap();
    assert_eq!(prefix, full.os2_v1);
    assert_eq!(prefix.ul_code_page_range().range1(), 536871327);
    assert_eq!(parse_os2v4(&v4).unwrap(), full);
    assert_eq!(parse_os2(&v4[..95]), Err(Error::Truncated));
    let mut v6 = OS2_V3.to_vec();
    v6[1] = 6;
    assert_eq!(parse_os2(&v6), Err(Error::InvalidDiscriminant(0)));
    let mut reserved = OS2_V3.to_vec();
    reserved[63] = 0x41;
    assert_eq!(parse_os2(&reserved), Err(Error::MalformedInvariant));
}

#[test]
fn case_post_script_table_pascal_strings() {
    let bytes: &[u8] = &[0x05, 0x48, 0x65, 0x6C, 0x6C, 0x6F, 0x05, 0x57,
        0x6F, 0x72, 0x6C, 0x64];
    let pascal_strings = parse_pascal_strings(bytes, 2).unwrap().1;
    assert_eq!(pascal_strings.len(), 2);
    assert_eq!(pascal_strings.get(0).unwrap(), &"Hello");
    assert_eq!(pascal_strings.get(1).unwrap(), &"World");
}

#[test]
fn case_post_script_table_pascal_strings_to_owned() {
    let bytes: &[u8] = &[0x05, 0x48, 0x65, 0x6C, 0x6C, 0x6F, 0x05, 0x57,
        0x6F, 0x72, 0x6C, 0x64];
    let pascal_strings = parse_pascal_strings_to_owned(bytes, 2).unwrap().1;
    assert_eq!(pascal_strings.len(), 2);
    assert_eq!(pascal_strings.get(0).unwrap(), &"Hello");
    assert_eq!(pascal_strings.get(1).unwrap(), &"World");
}

#[test]
fn case_post_script_table_invalid_empty_slice() {
    let bytes: &[u8] = &[];
    assert_eq!(parse_post_script_table(bytes), Err(Error::Truncated));
}

#[test]
fn pascal_strings_errors() {
    assert_eq!(parse_pascal_strings(&[0x05, 0x48, 0x65], 1), Err(Error::Truncated));
    assert_eq!(parse_pascal_strings(&[0x01, 0xFF], 1), Err(Error::MalformedInvariant));
    assert_eq!(parse_pascal_strings(&[0x00], 2), Err(Error::Truncated));
}

#[test]
fn post_script_version_2() {
    let mut bytes: Vec<u8> = vec![
        0x00, 0x02, 0x00, 0x00, 0xFF, 0xF4, 0x00, 0x00, 0xFF, 0x9C, 0x00, 0x32,
        0x00, 0x00, 0x00, 0x01, 0x00, 0x00, 0x00, 0x00, 0x00, 0x00, 0x00, 0x00,
        0x00, 0x00, 0x00, 0x00, 0x00, 0x00, 0x00, 0x00,
        0x00, 0x03, 0x00, 0x00, 0x01, 0x02, 0x01, 0x03];
    bytes.extend_from_slice(&[0x01, 0x61, 0x02, 0x62, 0x63]);
    let table = PostScriptTable::parse(&bytes).unwrap();
    assert_eq!(table.italic_angle(), -786432);
    assert_eq!(table.underline_position(), -100);
    assert_eq!(table.underline_thickness(), 50);
    assert_eq!(table.is_fixed_pitch(), 1);
    assert_eq!(table.min_mem_type_42(), 0);
    match table.version() {
        PostScriptVersion::Version_2_0(v2) => {
            assert_eq!(v2.num_glyphs(), 3);
            assert_eq!(v2.glyph_name_indexes(), &[0, 258, 259]);
            assert_eq!(v2.parse_glyph_names(table.buf).unwrap(), vec!["a", "bc"]);
            assert_eq!(v2.parse_glyph_names_to_owned(table.buf).unwrap(), vec!["a".to_string(), "bc".to_string()]);
        },
        _ => panic!("expected version 2.0"),
    }
    bytes[1] = 0x03;
    let v3 = parse_post_script_table(&bytes).unwrap();
    assert_eq!(v3.0.len(), bytes.len() - 32);
    assert!(matches!(v3.1, PostScriptVersion::Version_3_0(_)));
    bytes[1] = 0x07;
    assert_eq!(parse_post_script_table(&bytes), Err(Error::InvalidDiscriminant(0)));
}

#[test]
fn decode_by_tag() {
    match parse_table(TableTag::Head, &HEAD).unwrap() {
        FontTable::Head(h) => assert_eq!(h.units_per_em(), 2048),
        _ => panic!("expected a font header"),
    }
    assert!(matches!(parse_table(TableTag::Glyf, &HEAD), Err(Error::UnsupportedFormat)));
    assert!(matches!(parse_table(TableTag::Hhea, &HEAD[..3]), Err(Error::Truncated)));
}
