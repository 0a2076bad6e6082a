//! The font header table (`head`).
use crate::codec::{i16_at, i32_at, i64_at, parsed, slice_range, spec_i16, spec_i32, spec_i64, spec_u16, spec_u32, u16_at, u32_at};
use crate::error::Error;
use crate::types::Rect;
use vstd::prelude::*;

verus! {

/// The magic number that every font header holds at byte 12.
pub const HEAD_MAGIC_NUMBER: u32 = 0x5F0F3CF5;

/// Global information about the font.
#[derive(Debug, Clone, Copy, PartialEq, Eq, Structural)]
pub struct FontHeaderTable {
    pub font_revision: i32,
    pub check_sum_adjustment: u32,
    pub flags: u16,
    pub units_per_em: u16,
    pub created: i64,
    pub modified: i64,
    pub x_min: i16,
    pub y_min: i16,
    pub x_max: i16,
    pub y_max: i16,
    pub mac_style: u16,
    pub lowest_rec_ppem: u16,
    pub font_direction_hint: i16,
    pub index_to_loc_format: i16,
    pub glyph_data_format: i16,
}

impl FontHeaderTable {
    /// Revision of the font, set by its manufacturer (16.16 fixed point).
    pub fn font_revision(&self) -> (r: i32)
        ensures
            r == self.font_revision,
    {
        self.font_revision
    }

    /// Value that makes the checksum of the whole font come out right.
    pub fn check_sum_adjustment(&self) -> (r: u32)
        ensures
            r == self.check_sum_adjustment,
    {
        self.check_sum_adjustment
    }

    /// Font flags.
    pub fn flags(&self) -> (r: u16)
        ensures
            r == self.flags,
    {
        self.flags
    }

    /// Units per em, from 16 to 16384.
    pub fn units_per_em(&self) -> (r: u16)
        ensures
            r == self.units_per_em,
    {
        self.units_per_em
    }

    /// Creation time, in seconds since 1904-01-01.
    pub fn created(&self) -> (r: i64)
        ensures
            r == self.created,
    {
        self.created
    }

    /// Modification time, in seconds since 1904-01-01.
    pub fn modified(&self) -> (r: i64)
        ensures
            r == self.modified,
    {
        self.modified
    }

    /// Smallest x of all glyph bounding boxes.
    pub fn x_min(&self) -> (r: i16)
        ensures
            r == self.x_min,
    {
        self.x_min
    }

    /// Smallest y of all glyph bounding boxes.
    pub fn y_min(&self) -> (r: i16)
        ensures
            r == self.y_min,
    {
        self.y_min
    }

    /// Largest x of all glyph bounding boxes.
    pub fn x_max(&self) -> (r: i16)
        ensures
            r == self.x_max,
    {
        self.x_max
    }

    /// Largest y of all glyph bounding boxes.
    pub fn y_max(&self) -> (r: i16)
        ensures
            r == self.y_max,
    {
        self.y_max
    }

    /// Macintosh style bits.
    pub fn mac_style(&self) -> (r: u16)
        ensures
            r == self.mac_style,
    {
        self.mac_style
    }

    /// Smallest readable size in pixels.
    pub fn lowest_rec_ppem(&self) -> (r: u16)
        ensures
            r == self.lowest_rec_ppem,
    {
        self.lowest_rec_ppem
    }

    /// Deprecated direction hint.
    pub fn font_direction_hint(&self) -> (r: i16)
        ensures
            r == self.font_direction_hint,
    {
        self.font_direction_hint
    }

    /// 0 for short offsets in `loca`, 1 for long ones.
    pub fn index_to_loc_format(&self) -> (r: i16)
        ensures
            r == self.index_to_loc_format,
    {
        self.index_to_loc_format
    }

    /// 0 for the current glyph data format.
    pub fn glyph_data_format(&self) -> (r: i16)
        ensures
            r == self.glyph_data_format,
    {
        self.glyph_data_format
    }

}

/// Wire format of the table.
pub open spec fn spec_font_header_table(b: Seq<u8>) -> Result<(FontHeaderTable, int), Error> {
    if b.len() < 2 {
        Err(Error::Truncated)
    } else if spec_u16(b, 0) != 1 {
        Err(Error::InvalidDiscriminant(0))
    } else if b.len() < 4 {
        Err(Error::Truncated)
    } else if spec_u16(b, 2) != 0 {
        Err(Error::InvalidDiscriminant(2))
    } else if b.len() < 16 {
        Err(Error::Truncated)
    } else if spec_u32(b, 12) != HEAD_MAGIC_NUMBER {
        Err(Error::InvalidDiscriminant(12))
    } else if b.len() < 54 {
        Err(Error::Truncated)
    } else {
        Ok((FontHeaderTable { font_revision: spec_i32(b, 4), check_sum_adjustment: spec_u32(b, 8), flags: spec_u16(b, 16), units_per_em: spec_u16(b, 18), created: spec_i64(b, 20), modified: spec_i64(b, 28), x_min: spec_i16(b, 36), y_min: spec_i16(b, 38), x_max: spec_i16(b, 40), y_max: spec_i16(b, 42), mac_style: spec_u16(b, 44), lowest_rec_ppem: spec_u16(b, 46), font_direction_hint: spec_i16(b, 48), index_to_loc_format: spec_i16(b, 50), glyph_data_format: spec_i16(b, 52) }, 54))
    }
}

/// Decodes a font header table; its version must be 1.0 and its magic number `0x5F0F3CF5`.
pub fn parse_font_header_table(input: &[u8]) -> (r: Result<(&[u8], FontHeaderTable), Error>)
    ensures
        parsed(r, spec_font_header_table(input@), input@),
{
    if input.len() < 2 {
        return Err(Error::Truncated);
    }
    if u16_at(input, 0) != 1 {
        return Err(Error::InvalidDiscriminant(0));
    }
    if input.len() < 4 {
        return Err(Error::Truncated);
    }
    if u16_at(input, 2) != 0 {
        return Err(Error::InvalidDiscriminant(2));
    }
    if input.len() < 16 {
        return Err(Error::Truncated);
    }
    if u32_at(input, 12) != HEAD_MAGIC_NUMBER {
        return Err(Error::InvalidDiscriminant(12));
    }
    if input.len() < 54 {
        return Err(Error::Truncated);
    }
    let table = FontHeaderTable { font_revision: i32_at(input, 4), check_sum_adjustment: u32_at(input, 8), flags: u16_at(input, 16), units_per_em: u16_at(input, 18), created: i64_at(input, 20), modified: i64_at(input, 28), x_min: i16_at(input, 36), y_min: i16_at(input, 38), x_max: i16_at(input, 40), y_max: i16_at(input, 42), mac_style: u16_at(input, 44), lowest_rec_ppem: u16_at(input, 46), font_direction_hint: i16_at(input, 48), index_to_loc_format: i16_at(input, 50), glyph_data_format: i16_at(input, 52) };
    Ok((slice_range(input, 54, input.len()), table))
}

impl FontHeaderTable {
    /// Bounding box of all glyphs.
    pub fn bounding_box(&self) -> (r: Rect<i16>)
        ensures
            r == (Rect { x_min: self.x_min, y_min: self.y_min, x_max: self.x_max, y_max: self.y_max }),
    {
        Rect::new(self.x_min, self.y_min, self.x_max, self.y_max)
    }
}


} // verus!
