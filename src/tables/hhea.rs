//! The horizontal header table (`hhea`).
use crate::codec::{i16_at, parsed, slice_range, spec_i16, spec_u16, u16_at};
use crate::error::Error;
use vstd::prelude::*;

verus! {

/// Information for horizontal layout.
#[derive(Debug, Clone, Copy, PartialEq, Eq, Structural)]
pub struct HorizontalHeaderTable {
    pub ascender: i16,
    pub descender: i16,
    pub line_gap: i16,
    pub advance_width_max: u16,
    pub min_left_side_bearing: i16,
    pub min_right_side_bearing: i16,
    pub x_max_extent: i16,
    pub caret_slope_rise: i16,
    pub caret_slope_run: i16,
    pub caret_offset: i16,
    pub metric_data_format: i16,
    pub number_of_hmetrics: u16,
}

impl HorizontalHeaderTable {
    /// Typographic ascent.
    pub fn ascender(&self) -> (r: i16)
        ensures
            r == self.ascender,
    {
        self.ascender
    }

    /// Typographic descent.
    pub fn descender(&self) -> (r: i16)
        ensures
            r == self.descender,
    {
        self.descender
    }

    /// Typographic line gap.
    pub fn line_gap(&self) -> (r: i16)
        ensures
            r == self.line_gap,
    {
        self.line_gap
    }

    /// Largest advance width in `hmtx`.
    pub fn advance_width_max(&self) -> (r: u16)
        ensures
            r == self.advance_width_max,
    {
        self.advance_width_max
    }

    /// Smallest left side bearing of glyphs with contours.
    pub fn min_left_side_bearing(&self) -> (r: i16)
        ensures
            r == self.min_left_side_bearing,
    {
        self.min_left_side_bearing
    }

    /// Smallest right side bearing of glyphs with contours.
    pub fn min_right_side_bearing(&self) -> (r: i16)
        ensures
            r == self.min_right_side_bearing,
    {
        self.min_right_side_bearing
    }

    /// Largest `lsb + (x_max - x_min)`.
    pub fn x_max_extent(&self) -> (r: i16)
        ensures
            r == self.x_max_extent,
    {
        self.x_max_extent
    }

    /// Rise of the caret slope; 1 for a vertical caret.
    pub fn caret_slope_rise(&self) -> (r: i16)
        ensures
            r == self.caret_slope_rise,
    {
        self.caret_slope_rise
    }

    /// Run of the caret slope; 0 for a vertical caret.
    pub fn caret_slope_run(&self) -> (r: i16)
        ensures
            r == self.caret_slope_run,
    {
        self.caret_slope_run
    }

    /// Shift of the slanted caret highlight.
    pub fn caret_offset(&self) -> (r: i16)
        ensures
            r == self.caret_offset,
    {
        self.caret_offset
    }

    /// 0 for the current format.
    pub fn metric_data_format(&self) -> (r: i16)
        ensures
            r == self.metric_data_format,
    {
        self.metric_data_format
    }

    /// Number of long metric records in `hmtx`.
    pub fn number_of_hmetrics(&self) -> (r: u16)
        ensures
            r == self.number_of_hmetrics,
    {
        self.number_of_hmetrics
    }

}

/// Wire format of the table.
pub open spec fn spec_horizontal_header_table(b: Seq<u8>) -> Result<(HorizontalHeaderTable, int), Error> {
    if b.len() < 2 {
        Err(Error::Truncated)
    } else if spec_u16(b, 0) != 1 {
        Err(Error::InvalidDiscriminant(0))
    } else if b.len() < 4 {
        Err(Error::Truncated)
    } else if spec_u16(b, 2) != 0 {
        Err(Error::InvalidDiscriminant(2))
    } else if b.len() < 36 {
        Err(Error::Truncated)
    } else {
        Ok((HorizontalHeaderTable { ascender: spec_i16(b, 4), descender: spec_i16(b, 6), line_gap: spec_i16(b, 8), advance_width_max: spec_u16(b, 10), min_left_side_bearing: spec_i16(b, 12), min_right_side_bearing: spec_i16(b, 14), x_max_extent: spec_i16(b, 16), caret_slope_rise: spec_i16(b, 18), caret_slope_run: spec_i16(b, 20), caret_offset: spec_i16(b, 22), metric_data_format: spec_i16(b, 32), number_of_hmetrics: spec_u16(b, 34) }, 36))
    }
}

/// Decodes a horizontal header table; its version must be 1.0.
pub fn parse_horizontal_header_table(input: &[u8]) -> (r: Result<(&[u8], HorizontalHeaderTable), Error>)
    ensures
        parsed(r, spec_horizontal_header_table(input@), input@),
{
    if input.len() < 2 {
        return Err(Error::Truncated);
    }
    if u16_at(input, 0) != 1 {
        return Err(Error::InvalidDiscriminant(0));
    }
    if input.len() < 4 {
        return Err(Error::Truncated);
    }
    if u16_at(input, 2) != 0 {
        return Err(Error::InvalidDiscriminant(2));
    }
    if input.len() < 36 {
        return Err(Error::Truncated);
    }
    let table = HorizontalHeaderTable { ascender: i16_at(input, 4), descender: i16_at(input, 6), line_gap: i16_at(input, 8), advance_width_max: u16_at(input, 10), min_left_side_bearing: i16_at(input, 12), min_right_side_bearing: i16_at(input, 14), x_max_extent: i16_at(input, 16), caret_slope_rise: i16_at(input, 18), caret_slope_run: i16_at(input, 20), caret_offset: i16_at(input, 22), metric_data_format: i16_at(input, 32), number_of_hmetrics: u16_at(input, 34) };
    Ok((slice_range(input, 36, input.len()), table))
}


} // verus!
