//! The offset table that starts the directory of one font.
use crate::codec::{parsed, slice_range, spec_u16, spec_u32, u16_at, u32_at};
use crate::error::Error;
use vstd::prelude::*;

verus! {

/// Outline flavour of a font, read from its leading version tag.
#[derive(Debug, Clone, Copy, PartialEq, Eq, Structural)]
pub enum SfntVersion {
    /// TrueType outlines (`0x00010000`, `true` or `typ1`).
    TrueType,
    /// Compact Font Format outlines (`OTTO`).
    CFF,
}

/// The sfnt version `0x00010000`.
pub const SFNT_VERSION_1_0: u32 = 0x00010000;

/// The sfnt version tag `true`.
pub const SFNT_VERSION_TRUE: u32 = 0x74727565;

/// The sfnt version tag `typ1`.
pub const SFNT_VERSION_TYP1: u32 = 0x74797031;

/// The sfnt version tag `OTTO`.
pub const SFNT_VERSION_OTTO: u32 = 0x4F54544F;

/// The outline flavour that the leading tag `v` announces, if any.
pub open spec fn spec_sfnt_version(v: u32) -> Option<SfntVersion> {
    if v == SFNT_VERSION_1_0 || v == SFNT_VERSION_TRUE || v == SFNT_VERSION_TYP1 {
        Some(SfntVersion::TrueType)
    } else if v == SFNT_VERSION_OTTO {
        Some(SfntVersion::CFF)
    } else {
        None
    }
}

/// Recognises the leading tag of a font.
pub fn sfnt_version_of(v: u32) -> (r: Option<SfntVersion>)
    ensures
        r == spec_sfnt_version(v),
{
    if v == SFNT_VERSION_1_0 || v == SFNT_VERSION_TRUE || v == SFNT_VERSION_TYP1 {
        Some(SfntVersion::TrueType)
    } else if v == SFNT_VERSION_OTTO {
        Some(SfntVersion::CFF)
    } else {
        None
    }
}

/// The header of a font's table directory.
#[derive(Debug, Clone, Copy, PartialEq, Eq, Structural)]
pub struct OffsetTable {
    pub sfnt_version: SfntVersion,
    pub num_tables: u16,
    pub search_range: u16,
    pub entry_selector: u16,
    pub range_shift: u16,
}

impl OffsetTable {
    /// Outline flavour of the font.
    pub fn sfnt_version(&self) -> (r: SfntVersion)
        ensures
            r == self.sfnt_version,
    {
        self.sfnt_version
    }

    /// Number of tables.
    pub fn num_tables(&self) -> (r: u16)
        ensures
            r == self.num_tables,
    {
        self.num_tables
    }

    /// Largest power of two not above `num_tables`, times 16.
    pub fn search_range(&self) -> (r: u16)
        ensures
            r == self.search_range,
    {
        self.search_range
    }

    /// Base-2 logarithm of the largest power of two not above `num_tables`.
    pub fn entry_selector(&self) -> (r: u16)
        ensures
            r == self.entry_selector,
    {
        self.entry_selector
    }

    /// `num_tables` times 16, minus `search_range`.
    pub fn range_shift(&self) -> (r: u16)
        ensures
            r == self.range_shift,
    {
        self.range_shift
    }
}

/// Size in bytes of an offset table.
pub const OFFSET_TABLE_SIZE: usize = 12;

/// Wire format of an offset table.
pub open spec fn spec_offset_table(b: Seq<u8>) -> Result<(OffsetTable, int), Error> {
    if b.len() < 4 {
        Err(Error::Truncated)
    } else if spec_sfnt_version(spec_u32(b, 0)) is None {
        Err(Error::UnsupportedFormat)
    } else if b.len() < 12 {
        Err(Error::Truncated)
    } else {
        Ok(
            (
                OffsetTable {
                    sfnt_version: spec_sfnt_version(spec_u32(b, 0))->Some_0,
                    num_tables: spec_u16(b, 4),
                    search_range: spec_u16(b, 6),
                    entry_selector: spec_u16(b, 8),
                    range_shift: spec_u16(b, 10),
                },
                12,
            ),
        )
    }
}

/// Decodes an offset table from the front of `input`.
pub fn parse_offset_table(input: &[u8]) -> (r: Result<(&[u8], OffsetTable), Error>)
    ensures
        parsed(r, spec_offset_table(input@), input@),
{
    if input.len() < 4 {
        return Err(Error::Truncated);
    }
    let sfnt_version = match sfnt_version_of(u32_at(input, 0)) {
        Some(v) => v,
        None => {
            return Err(Error::UnsupportedFormat);
        },
    };
    if input.len() < OFFSET_TABLE_SIZE {
        return Err(Error::Truncated);
    }
    let table = OffsetTable {
        sfnt_version,
        num_tables: u16_at(input, 4),
        search_range: u16_at(input, 6),
        entry_selector: u16_at(input, 8),
        range_shift: u16_at(input, 10),
    };
    Ok((slice_range(input, OFFSET_TABLE_SIZE, input.len()), table))
}

} // verus!
