//! The maximum profile table (`maxp`).
use crate::codec::{i32_at, parsed, slice_range, spec_i32, spec_u16, u16_at};
use crate::error::Error;
use vstd::prelude::*;

verus! {

/// Version 0.5 of the table, for fonts with CFF outlines.
pub const MAXP_VERSION_0_5: i32 = 0x00005000;

/// Version 1.0 of the table, for fonts with TrueType outlines.
pub const MAXP_VERSION_1_0: i32 = 0x00010000;

/// The memory needs of the font; version 1.0 adds the TrueType limits.
#[derive(Debug, Clone, Copy, PartialEq, Eq, Structural)]
pub struct MaximumProfileTable {
    pub num_glyphs: u16,
    pub extension: Option<MaximumProfileTableExtension>,
}

impl MaximumProfileTable {
    /// Number of glyphs in the font.
    pub fn num_glyphs(&self) -> (r: u16)
        ensures
            r == self.num_glyphs,
    {
        self.num_glyphs
    }

    /// The TrueType limits of a version 1.0 table.
    pub fn extension(&self) -> (r: Option<&MaximumProfileTableExtension>)
        ensures
            match (r, self.extension) {
                (Some(a), Some(b)) => *a == b,
                (None, None) => true,
                _ => false,
            },
    {
        self.extension.as_ref()
    }
}

/// The limits that version 1.0 adds, for TrueType outlines.
#[derive(Debug, Clone, Copy, PartialEq, Eq, Structural)]
pub struct MaximumProfileTableExtension {
    pub max_points: u16,
    pub max_contours: u16,
    pub max_composite_points: u16,
    pub max_composite_contours: u16,
    pub max_zones: u16,
    pub max_twilight_points: u16,
    pub max_storage: u16,
    pub max_function_defs: u16,
    pub max_instruction_defs: u16,
    pub max_stack_elements: u16,
    pub max_size_of_instructions: u16,
    pub max_component_elements: u16,
    pub max_component_depth: u16,
}

impl MaximumProfileTableExtension {
    /// Most points in a simple glyph.
    pub fn max_points(&self) -> (r: u16)
        ensures
            r == self.max_points,
    {
        self.max_points
    }

    /// Most contours in a simple glyph.
    pub fn max_contours(&self) -> (r: u16)
        ensures
            r == self.max_contours,
    {
        self.max_contours
    }

    /// Most points in a composite glyph.
    pub fn max_composite_points(&self) -> (r: u16)
        ensures
            r == self.max_composite_points,
    {
        self.max_composite_points
    }

    /// Most contours in a composite glyph.
    pub fn max_composite_contours(&self) -> (r: u16)
        ensures
            r == self.max_composite_contours,
    {
        self.max_composite_contours
    }

    /// 1 without the twilight zone, 2 with it.
    pub fn max_zones(&self) -> (r: u16)
        ensures
            r == self.max_zones,
    {
        self.max_zones
    }

    /// Most points used in the twilight zone.
    pub fn max_twilight_points(&self) -> (r: u16)
        ensures
            r == self.max_twilight_points,
    {
        self.max_twilight_points
    }

    /// Number of storage area locations.
    pub fn max_storage(&self) -> (r: u16)
        ensures
            r == self.max_storage,
    {
        self.max_storage
    }

    /// Number of function definitions.
    pub fn max_function_defs(&self) -> (r: u16)
        ensures
            r == self.max_function_defs,
    {
        self.max_function_defs
    }

    /// Number of instruction definitions.
    pub fn max_instruction_defs(&self) -> (r: u16)
        ensures
            r == self.max_instruction_defs,
    {
        self.max_instruction_defs
    }

    /// Largest stack depth.
    pub fn max_stack_elements(&self) -> (r: u16)
        ensures
            r == self.max_stack_elements,
    {
        self.max_stack_elements
    }

    /// Largest byte count of glyph instructions.
    pub fn max_size_of_instructions(&self) -> (r: u16)
        ensures
            r == self.max_size_of_instructions,
    {
        self.max_size_of_instructions
    }

    /// Most components at the top level of a composite glyph.
    pub fn max_component_elements(&self) -> (r: u16)
        ensures
            r == self.max_component_elements,
    {
        self.max_component_elements
    }

    /// Deepest nesting of composite glyphs.
    pub fn max_component_depth(&self) -> (r: u16)
        ensures
            r == self.max_component_depth,
    {
        self.max_component_depth
    }

}

/// Wire format of the table: version 0.5 holds the glyph count, version 1.0
/// adds thirteen limits.
pub open spec fn spec_maximum_profile_table(b: Seq<u8>) -> Result<(MaximumProfileTable, int), Error> {
    if b.len() < 4 {
        Err(Error::Truncated)
    } else if spec_i32(b, 0) == MAXP_VERSION_0_5 {
        if b.len() < 6 {
            Err(Error::Truncated)
        } else {
            Ok((MaximumProfileTable { num_glyphs: spec_u16(b, 4), extension: None }, 6))
        }
    } else if spec_i32(b, 0) == MAXP_VERSION_1_0 {
        if b.len() < 32 {
            Err(Error::Truncated)
        } else {
            Ok(
                (
                    MaximumProfileTable {
                        num_glyphs: spec_u16(b, 4),
                        extension: Some(MaximumProfileTableExtension { max_points: spec_u16(b, 6), max_contours: spec_u16(b, 8), max_composite_points: spec_u16(b, 10), max_composite_contours: spec_u16(b, 12), max_zones: spec_u16(b, 14), max_twilight_points: spec_u16(b, 16), max_storage: spec_u16(b, 18), max_function_defs: spec_u16(b, 20), max_instruction_defs: spec_u16(b, 22), max_stack_elements: spec_u16(b, 24), max_size_of_instructions: spec_u16(b, 26), max_component_elements: spec_u16(b, 28), max_component_depth: spec_u16(b, 30) }),
                    },
                    32,
                ),
            )
        }
    } else {
        Err(Error::InvalidDiscriminant(0))
    }
}

/// Decodes a maximum profile table.
pub fn parse_maximum_profile_table(input: &[u8]) -> (r: Result<(&[u8], MaximumProfileTable), Error>)
    ensures
        parsed(r, spec_maximum_profile_table(input@), input@),
{
    if input.len() < 4 {
        return Err(Error::Truncated);
    }
    let version = i32_at(input, 0);
    if version == MAXP_VERSION_0_5 {
        if input.len() < 6 {
            return Err(Error::Truncated);
        }
        let table = MaximumProfileTable { num_glyphs: u16_at(input, 4), extension: None };
        Ok((slice_range(input, 6, input.len()), table))
    } else if version == MAXP_VERSION_1_0 {
        if input.len() < 32 {
            return Err(Error::Truncated);
        }
        let extension = MaximumProfileTableExtension { max_points: u16_at(input, 6), max_contours: u16_at(input, 8), max_composite_points: u16_at(input, 10), max_composite_contours: u16_at(input, 12), max_zones: u16_at(input, 14), max_twilight_points: u16_at(input, 16), max_storage: u16_at(input, 18), max_function_defs: u16_at(input, 20), max_instruction_defs: u16_at(input, 22), max_stack_elements: u16_at(input, 24), max_size_of_instructions: u16_at(input, 26), max_component_elements: u16_at(input, 28), max_component_depth: u16_at(input, 30) };
        let table = MaximumProfileTable { num_glyphs: u16_at(input, 4), extension: Some(extension) };
        Ok((slice_range(input, 32, input.len()), table))
    } else {
        Err(Error::InvalidDiscriminant(0))
    }
}

} // verus!
