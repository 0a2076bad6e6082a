//! Decoders of individual tables, and decoding a table chosen by its tag.

pub mod cmap;
pub mod head;
pub mod hhea;
pub mod hmtx;
pub mod loca;
pub mod maxp;
pub mod name;
pub mod os2;
pub mod post;

use crate::error::Error;
use crate::types::TableTag;
use vstd::prelude::*;

verus! {

/// A decoded table of one of the kinds that decode from their own bytes.
#[derive(Debug, Clone)]
pub enum FontTable<'a> {
    /// Character to glyph mapping.
    Cmap(cmap::EncodingRecords<'a>),
    /// Font header.
    Head(head::FontHeaderTable),
    /// Horizontal header.
    Hhea(hhea::HorizontalHeaderTable),
    /// Maximum profile.
    Maxp(maxp::MaximumProfileTable),
    /// Naming table.
    Name(name::NamingTable),
    /// OS/2 and Windows specific metrics.
    Os2(os2::Os2),
    /// PostScript information.
    Post(post::PostScriptTable<'a>),
}

/// Whether a table of kind `tag` decodes from its own bytes alone.
pub open spec fn spec_decodable(tag: TableTag) -> bool {
    tag == TableTag::Cmap || tag == TableTag::Head || tag == TableTag::Hhea || tag == TableTag::Maxp || tag
        == TableTag::Name || tag == TableTag::Os2 || tag == TableTag::Post
}

/// `r` is what decoding the bytes `data` of a table of kind `table_tag`
/// gives.
pub open spec fn spec_table_decoded(table_tag: TableTag, data: Seq<u8>, r: Result<FontTable, Error>) -> bool {
    &&& (!spec_decodable(table_tag) ==> r == Err::<FontTable, Error>(Error::UnsupportedFormat))
    &&& (table_tag == TableTag::Head ==> match r {
            Ok(FontTable::Head(t)) => head::spec_font_header_table(data) matches Ok((u, _)) && t == u,
            Err(e) => head::spec_font_header_table(data) == Err::<(head::FontHeaderTable, int), Error>(e),
            _ => false,
        })
    &&& (table_tag == TableTag::Hhea ==> match r {
            Ok(FontTable::Hhea(t)) => hhea::spec_horizontal_header_table(data) matches Ok((u, _)) && t == u,
            Err(e) => hhea::spec_horizontal_header_table(data) == Err::<(hhea::HorizontalHeaderTable, int), Error>(e),
            _ => false,
        })
    &&& (table_tag == TableTag::Maxp ==> match r {
            Ok(FontTable::Maxp(t)) => maxp::spec_maximum_profile_table(data) matches Ok((u, _)) && t == u,
            Err(e) => maxp::spec_maximum_profile_table(data) == Err::<(maxp::MaximumProfileTable, int), Error>(e),
            _ => false,
        })
    &&& (table_tag == TableTag::Post ==> match r {
            Ok(FontTable::Post(t)) => post::spec_post_error(data) is None && post::post_version_at(data, t.version),
            Err(e) => post::spec_post_error(data) == Some(e),
            _ => false,
        })
    &&& (table_tag == TableTag::Os2 ==> match r {
            Ok(FontTable::Os2(t)) => exists|rest: &[u8]| os2::spec_os2_agrees(Ok((rest, t)), data),
            Err(e) => os2::spec_os2_agrees(Err(e), data),
            _ => false,
        })
    &&& (table_tag == TableTag::Name ==> match r {
            Ok(FontTable::Name(t)) => exists|rest: &[u8]| name::spec_naming_agrees(Ok((rest, t)), data),
            Err(e) => name::spec_naming_agrees(Err(e), data),
            _ => false,
        })
    &&& (table_tag == TableTag::Cmap ==> match r {
            Ok(FontTable::Cmap(t)) => data.len() >= 4 && crate::codec::spec_u16(data, 0) == 0 && t.buf@
                == data && t.table.num_tables == crate::codec::spec_u16(data, 2),
            Err(e) => (data.len() < 4 && e == Error::Truncated) || (data.len() >= 4 && crate::codec::spec_u16(
                data,
                0,
            ) != 0 && e == Error::InvalidDiscriminant(0)),
            _ => false,
        })
}

/// Decodes the bytes `data` of a table of kind `table_tag`. Tables that need
/// other tables to decode (`hmtx`, `loca`) and tables without a decoder are
/// refused with `UnsupportedFormat`.
pub fn parse_table<'a>(table_tag: TableTag, data: &'a [u8]) -> (r: Result<FontTable<'a>, Error>)
    ensures
        spec_table_decoded(table_tag, data@, r),
{
    match table_tag {
        TableTag::Cmap => Ok(FontTable::Cmap(cmap::CharacterGlyphIndexMappingTable::parse(data)?)),
        TableTag::Head => Ok(FontTable::Head(head::parse_font_header_table(data)?.1)),
        TableTag::Hhea => Ok(FontTable::Hhea(hhea::parse_horizontal_header_table(data)?.1)),
        TableTag::Maxp => Ok(FontTable::Maxp(maxp::parse_maximum_profile_table(data)?.1)),
        TableTag::Name => Ok(FontTable::Name(name::parse_naming_table(data)?.1)),
        TableTag::Os2 => Ok(FontTable::Os2(os2::parse_os2(data)?.1)),
        TableTag::Post => Ok(FontTable::Post(post::PostScriptTable::parse(data)?)),
        _ => Err(Error::UnsupportedFormat),
    }
}

} // verus!
