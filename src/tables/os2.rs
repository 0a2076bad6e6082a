//! The OS/2 and Windows metrics table (`OS/2`), versions 0 to 5.
//!
//! Each version extends the one before it: version 1 adds the code page
//! ranges, versions 2 to 4 share one layout that adds five metrics, and
//! version 5 adds the optical size range.
use crate::codec::{i16_at, slice_range, spec_i16, spec_u16, spec_u32, u16_at, u32_at};
use crate::error::Error;
use crate::types::Tag;
use vstd::prelude::*;

verus! {

/// Size in bytes of a version 0 table.
pub const OS2_V0_SIZE: usize = 78;

/// Size in bytes of a version 1 table.
pub const OS2_V1_SIZE: usize = 86;

/// Size in bytes of a version 2, 3 or 4 table.
pub const OS2_V4_SIZE: usize = 96;

/// Size in bytes of a version 5 table.
pub const OS2_V5_SIZE: usize = 100;

/// Unicode blocks that the font covers, as four 32-bit masks.
#[derive(Debug, Clone, Copy, PartialEq, Eq, Structural)]
pub struct UnicodeRange {
    pub ul_unicode_range1: u32,
    pub ul_unicode_range2: u32,
    pub ul_unicode_range3: u32,
    pub ul_unicode_range4: u32,
}

impl UnicodeRange {
    /// The masks for bits 0 to 127.
    pub fn new(ul_unicode_range1: u32, ul_unicode_range2: u32, ul_unicode_range3: u32, ul_unicode_range4: u32) -> (r: UnicodeRange)
        ensures
            r == (UnicodeRange { ul_unicode_range1, ul_unicode_range2, ul_unicode_range3, ul_unicode_range4 }),
    {
        UnicodeRange { ul_unicode_range1, ul_unicode_range2, ul_unicode_range3, ul_unicode_range4 }
    }

    /// Bits 0 to 31.
    pub fn range1(&self) -> (r: u32)
        ensures
            r == self.ul_unicode_range1,
    {
        self.ul_unicode_range1
    }

    /// Bits 32 to 63.
    pub fn range2(&self) -> (r: u32)
        ensures
            r == self.ul_unicode_range2,
    {
        self.ul_unicode_range2
    }

    /// Bits 64 to 95.
    pub fn range3(&self) -> (r: u32)
        ensures
            r == self.ul_unicode_range3,
    {
        self.ul_unicode_range3
    }

    /// Bits 96 to 127.
    pub fn range4(&self) -> (r: u32)
        ensures
            r == self.ul_unicode_range4,
    {
        self.ul_unicode_range4
    }
}

/// Code pages that the font covers, as two 32-bit masks.
#[derive(Debug, Clone, Copy, PartialEq, Eq, Structural)]
pub struct CodePageRange {
    pub ul_code_page_range1: u32,
    pub ul_code_page_range2: u32,
}

impl CodePageRange {
    /// The masks for bits 0 to 63.
    pub fn new(ul_code_page_range1: u32, ul_code_page_range2: u32) -> (r: CodePageRange)
        ensures
            r == (CodePageRange { ul_code_page_range1, ul_code_page_range2 }),
    {
        CodePageRange { ul_code_page_range1, ul_code_page_range2 }
    }

    /// Bits 0 to 31.
    pub fn range1(&self) -> (r: u32)
        ensures
            r == self.ul_code_page_range1,
    {
        self.ul_code_page_range1
    }

    /// Bits 32 to 63.
    pub fn range2(&self) -> (r: u32)
        ensures
            r == self.ul_code_page_range2,
    {
        self.ul_code_page_range2
    }
}

/// Font selection flags; the six lowest bits are reserved and must be clear.
#[derive(Debug, Clone, Copy, PartialEq, Eq, Structural)]
pub struct FontSelectionFlags {
    pub bits: u16,
}

/// Italic glyphs.
pub const FS_ITALIC: u16 = 0x8000;

/// Underscored glyphs.
pub const FS_UNDERSCORE: u16 = 0x4000;

/// Glyphs with foreground and background reversed.
pub const FS_NEGATIVE: u16 = 0x2000;

/// Outlined (hollow) glyphs.
pub const FS_OUTLINED: u16 = 0x1000;

/// Overstruck glyphs.
pub const FS_STRIKEOUT: u16 = 0x0800;

/// Emboldened glyphs.
pub const FS_BOLD: u16 = 0x0400;

/// Regular weight glyphs.
pub const FS_REGULAR: u16 = 0x0200;

/// Typographic metrics are to be used for line spacing.
pub const FS_USE_TYPO_METRICS: u16 = 0x0100;

/// Names follow the weight, width and slope model.
pub const FS_WWS: u16 = 0x0080;

/// Oblique glyphs.
pub const FS_OBLIQUE: u16 = 0x0040;

/// Whether `bits` sets no reserved bit.
pub open spec fn spec_valid_selection(bits: u16) -> bool {
    bits % 64 == 0
}

impl FontSelectionFlags {
    /// The flags `bits`, if no reserved bit is set.
    pub fn from_bits(bits: u16) -> (r: Option<FontSelectionFlags>)
        ensures
            spec_valid_selection(bits) ==> r == Some(FontSelectionFlags { bits }),
            !spec_valid_selection(bits) ==> r is None,
    {
        if bits % 64 == 0 {
            Some(FontSelectionFlags { bits })
        } else {
            None
        }
    }

    /// The raw flags.
    pub fn bits(&self) -> (r: u16)
        ensures
            r == self.bits,
    {
        self.bits
    }

    /// Whether every flag of `mask` is set.
    pub fn contains(&self, mask: u16) -> (r: bool)
        ensures
            r == (self.bits & mask == mask),
    {
        self.bits & mask == mask
    }
}

/// The ten Panose classification digits.
#[derive(Debug, Clone, Copy, PartialEq, Eq)]
pub struct Panose {
    pub bytes: [u8; 10],
}

impl Panose {
    /// The classification made of the ten bytes of `s`.
    pub fn new(s: &[u8]) -> (r: Panose)
        requires
            s@.len() == 10,
        ensures
            r.bytes@ == s@,
    {
        let bytes: [u8; 10] = [s[0], s[1], s[2], s[3], s[4], s[5], s[6], s[7], s[8], s[9]];
        assert(bytes@ =~= s@);
        Panose { bytes }
    }

    /// The classification digits.
    pub fn bytes(&self) -> (r: &[u8])
        ensures
            r@ == self.bytes@,
    {
        self.bytes.as_slice()
    }
}

/// The fields of a version 0 table, shared by every later version.
#[derive(Debug, Clone, Copy, PartialEq, Eq)]
pub struct Os2V0 {
    pub x_avg_char_width: i16,
    pub us_weight_class: u16,
    pub us_width_class: u16,
    pub fs_type: u16,
    pub y_subscript_xsize: i16,
    pub y_subscript_ysize: i16,
    pub y_subscript_xoffset: i16,
    pub y_subscript_yoffset: i16,
    pub y_superscript_xsize: i16,
    pub y_superscript_ysize: i16,
    pub y_superscript_xoffset: i16,
    pub y_superscript_yoffset: i16,
    pub y_strikeout_size: i16,
    pub y_strikeout_position: i16,
    pub s_family_class: i16,
    pub panose: Panose,
    pub ul_unicode_range: UnicodeRange,
    pub ach_vend_id: Tag,
    pub fs_selection: FontSelectionFlags,
    pub us_first_char_index: u16,
    pub us_last_char_index: u16,
    pub s_typo_ascender: i16,
    pub s_typo_descender: i16,
    pub s_typo_line_gap: i16,
    pub us_win_ascent: u16,
    pub us_win_descent: u16,
}

impl Os2V0 {
    /// Average advance width of the lower-case letters.
    pub fn x_avg_char_width(&self) -> (r: i16)
        ensures
            r == self.x_avg_char_width,
    {
        self.x_avg_char_width
    }

    /// Visual weight, from 1 to 1000.
    pub fn us_weight_class(&self) -> (r: u16)
        ensures
            r == self.us_weight_class,
    {
        self.us_weight_class
    }

    /// Relative width, from 1 (ultra-condensed) to 9 (ultra-expanded).
    pub fn us_width_class(&self) -> (r: u16)
        ensures
            r == self.us_width_class,
    {
        self.us_width_class
    }

    /// Embedding licensing rights.
    pub fn fs_type(&self) -> (r: u16)
        ensures
            r == self.fs_type,
    {
        self.fs_type
    }

    /// Horizontal size of subscripts.
    pub fn y_subscript_xsize(&self) -> (r: i16)
        ensures
            r == self.y_subscript_xsize,
    {
        self.y_subscript_xsize
    }

    /// Vertical size of subscripts.
    pub fn y_subscript_ysize(&self) -> (r: i16)
        ensures
            r == self.y_subscript_ysize,
    {
        self.y_subscript_ysize
    }

    /// Horizontal offset of subscripts.
    pub fn y_subscript_xoffset(&self) -> (r: i16)
        ensures
            r == self.y_subscript_xoffset,
    {
        self.y_subscript_xoffset
    }

    /// Vertical offset of subscripts.
    pub fn y_subscript_yoffset(&self) -> (r: i16)
        ensures
            r == self.y_subscript_yoffset,
    {
        self.y_subscript_yoffset
    }

    /// Horizontal size of superscripts.
    pub fn y_superscript_xsize(&self) -> (r: i16)
        ensures
            r == self.y_superscript_xsize,
    {
        self.y_superscript_xsize
    }

    /// Vertical size of superscripts.
    pub fn y_superscript_ysize(&self) -> (r: i16)
        ensures
            r == self.y_superscript_ysize,
    {
        self.y_superscript_ysize
    }

    /// Horizontal offset of superscripts.
    pub fn y_superscript_xoffset(&self) -> (r: i16)
        ensures
            r == self.y_superscript_xoffset,
    {
        self.y_superscript_xoffset
    }

    /// Vertical offset of superscripts.
    pub fn y_superscript_yoffset(&self) -> (r: i16)
        ensures
            r == self.y_superscript_yoffset,
    {
        self.y_superscript_yoffset
    }

    /// Thickness of the strikeout stroke.
    pub fn y_strikeout_size(&self) -> (r: i16)
        ensures
            r == self.y_strikeout_size,
    {
        self.y_strikeout_size
    }

    /// Position of the top of the strikeout stroke.
    pub fn y_strikeout_position(&self) -> (r: i16)
        ensures
            r == self.y_strikeout_position,
    {
        self.y_strikeout_position
    }

    /// Font family class and subclass.
    pub fn s_family_class(&self) -> (r: i16)
        ensures
            r == self.s_family_class,
    {
        self.s_family_class
    }

    /// Panose classification.
    pub fn panose(&self) -> (r: &Panose)
        ensures
            *r == self.panose,
    {
        &self.panose
    }

    /// Unicode blocks the font covers.
    pub fn ul_unicode_range(&self) -> (r: UnicodeRange)
        ensures
            r == self.ul_unicode_range,
    {
        self.ul_unicode_range
    }

    /// Vendor identifier.
    pub fn ach_vend_id(&self) -> (r: Tag)
        ensures
            r == self.ach_vend_id,
    {
        self.ach_vend_id
    }

    /// Font selection flags.
    pub fn fs_selection(&self) -> (r: FontSelectionFlags)
        ensures
            r == self.fs_selection,
    {
        self.fs_selection
    }

    /// Smallest character code in the font.
    pub fn us_first_char_index(&self) -> (r: u16)
        ensures
            r == self.us_first_char_index,
    {
        self.us_first_char_index
    }

    /// Largest character code in the font.
    pub fn us_last_char_index(&self) -> (r: u16)
        ensures
            r == self.us_last_char_index,
    {
        self.us_last_char_index
    }

    /// Typographic ascender.
    pub fn s_typo_ascender(&self) -> (r: i16)
        ensures
            r == self.s_typo_ascender,
    {
        self.s_typo_ascender
    }

    /// Typographic descender.
    pub fn s_typo_descender(&self) -> (r: i16)
        ensures
            r == self.s_typo_descender,
    {
        self.s_typo_descender
    }

    /// Typographic line gap.
    pub fn s_typo_line_gap(&self) -> (r: i16)
        ensures
            r == self.s_typo_line_gap,
    {
        self.s_typo_line_gap
    }

    /// Windows clipping ascent.
    pub fn us_win_ascent(&self) -> (r: u16)
        ensures
            r == self.us_win_ascent,
    {
        self.us_win_ascent
    }

    /// Windows clipping descent.
    pub fn us_win_descent(&self) -> (r: u16)
        ensures
            r == self.us_win_descent,
    {
        self.us_win_descent
    }
}

/// A version 1 table: version 0 and the code page ranges.
#[derive(Debug, Clone, Copy, PartialEq, Eq)]
pub struct Os2V1 {
    pub os2_v0: Os2V0,
    pub ul_code_page_range: CodePageRange,
}

/// A version 2, 3 or 4 table: version 1 and five metrics.
#[derive(Debug, Clone, Copy, PartialEq, Eq)]
pub struct Os2V4 {
    pub os2_v1: Os2V1,
    pub sx_height: i16,
    pub s_cap_height: i16,
    pub us_default_char: u16,
    pub us_break_char: u16,
    pub us_max_context: u16,
}

/// A version 5 table: version 4 and the optical size range.
#[derive(Debug, Clone, Copy, PartialEq, Eq)]
pub struct Os2V5 {
    pub os2_v4: Os2V4,
    pub us_lower_optical_point_size: u16,
    pub us_upper_optical_point_size: u16,
}

impl Os2V1 {
    /// Code pages the font covers.
    pub fn ul_code_page_range(&self) -> (r: CodePageRange)
        ensures
            r == self.ul_code_page_range,
    {
        self.ul_code_page_range
    }

    /// Average advance width of the lower-case letters.
    pub fn x_avg_char_width(&self) -> (r: i16)
        ensures
            r == self.os2_v0.x_avg_char_width,
    {
        self.os2_v0.x_avg_char_width
    }

    /// Visual weight, from 1 to 1000.
    pub fn us_weight_class(&self) -> (r: u16)
        ensures
            r == self.os2_v0.us_weight_class,
    {
        self.os2_v0.us_weight_class
    }

    /// Relative width, from 1 (ultra-condensed) to 9 (ultra-expanded).
    pub fn us_width_class(&self) -> (r: u16)
        ensures
            r == self.os2_v0.us_width_class,
    {
        self.os2_v0.us_width_class
    }

    /// Embedding licensing rights.
    pub fn fs_type(&self) -> (r: u16)
        ensures
            r == self.os2_v0.fs_type,
    {
        self.os2_v0.fs_type
    }

    /// Horizontal size of subscripts.
    pub fn y_subscript_xsize(&self) -> (r: i16)
        ensures
            r == self.os2_v0.y_subscript_xsize,
    {
        self.os2_v0.y_subscript_xsize
    }

    /// Vertical size of subscripts.
    pub fn y_subscript_ysize(&self) -> (r: i16)
        ensures
            r == self.os2_v0.y_subscript_ysize,
    {
        self.os2_v0.y_subscript_ysize
    }

    /// Horizontal offset of subscripts.
    pub fn y_subscript_xoffset(&self) -> (r: i16)
        ensures
            r == self.os2_v0.y_subscript_xoffset,
    {
        self.os2_v0.y_subscript_xoffset
    }

    /// Vertical offset of subscripts.
    pub fn y_subscript_yoffset(&self) -> (r: i16)
        ensures
            r == self.os2_v0.y_subscript_yoffset,
    {
        self.os2_v0.y_subscript_yoffset
    }

    /// Horizontal size of superscripts.
    pub fn y_superscript_xsize(&self) -> (r: i16)
        ensures
            r == self.os2_v0.y_superscript_xsize,
    {
        self.os2_v0.y_superscript_xsize
    }

    /// Vertical size of superscripts.
    pub fn y_superscript_ysize(&self) -> (r: i16)
        ensures
            r == self.os2_v0.y_superscript_ysize,
    {
        self.os2_v0.y_superscript_ysize
    }

    /// Horizontal offset of superscripts.
    pub fn y_superscript_xoffset(&self) -> (r: i16)
        ensures
            r == self.os2_v0.y_superscript_xoffset,
    {
        self.os2_v0.y_superscript_xoffset
    }

    /// Vertical offset of superscripts.
    pub fn y_superscript_yoffset(&self) -> (r: i16)
        ensures
            r == self.os2_v0.y_superscript_yoffset,
    {
        self.os2_v0.y_superscript_yoffset
    }

    /// Thickness of the strikeout stroke.
    pub fn y_strikeout_size(&self) -> (r: i16)
        ensures
            r == self.os2_v0.y_strikeout_size,
    {
        self.os2_v0.y_strikeout_size
    }

    /// Position of the top of the strikeout stroke.
    pub fn y_strikeout_position(&self) -> (r: i16)
        ensures
            r == self.os2_v0.y_strikeout_position,
    {
        self.os2_v0.y_strikeout_position
    }

    /// Font family class and subclass.
    pub fn s_family_class(&self) -> (r: i16)
        ensures
            r == self.os2_v0.s_family_class,
    {
        self.os2_v0.s_family_class
    }

    /// Panose classification.
    pub fn panose(&self) -> (r: &Panose)
        ensures
            *r == self.os2_v0.panose,
    {
        &self.os2_v0.panose
    }

    /// Unicode blocks the font covers.
    pub fn ul_unicode_range(&self) -> (r: UnicodeRange)
        ensures
            r == self.os2_v0.ul_unicode_range,
    {
        self.os2_v0.ul_unicode_range
    }

    /// Vendor identifier.
    pub fn ach_vend_id(&self) -> (r: Tag)
        ensures
            r == self.os2_v0.ach_vend_id,
    {
        self.os2_v0.ach_vend_id
    }

    /// Font selection flags.
    pub fn fs_selection(&self) -> (r: FontSelectionFlags)
        ensures
            r == self.os2_v0.fs_selection,
    {
        self.os2_v0.fs_selection
    }

    /// Smallest character code in the font.
    pub fn us_first_char_index(&self) -> (r: u16)
        ensures
            r == self.os2_v0.us_first_char_index,
    {
        self.os2_v0.us_first_char_index
    }

    /// Largest character code in the font.
    pub fn us_last_char_index(&self) -> (r: u16)
        ensures
            r == self.os2_v0.us_last_char_index,
    {
        self.os2_v0.us_last_char_index
    }

    /// Typographic ascender.
    pub fn s_typo_ascender(&self) -> (r: i16)
        ensures
            r == self.os2_v0.s_typo_ascender,
    {
        self.os2_v0.s_typo_ascender
    }

    /// Typographic descender.
    pub fn s_typo_descender(&self) -> (r: i16)
        ensures
            r == self.os2_v0.s_typo_descender,
    {
        self.os2_v0.s_typo_descender
    }

    /// Typographic line gap.
    pub fn s_typo_line_gap(&self) -> (r: i16)
        ensures
            r == self.os2_v0.s_typo_line_gap,
    {
        self.os2_v0.s_typo_line_gap
    }

    /// Windows clipping ascent.
    pub fn us_win_ascent(&self) -> (r: u16)
        ensures
            r == self.os2_v0.us_win_ascent,
    {
        self.os2_v0.us_win_ascent
    }

    /// Windows clipping descent.
    pub fn us_win_descent(&self) -> (r: u16)
        ensures
            r == self.os2_v0.us_win_descent,
    {
        self.os2_v0.us_win_descent
    }
}

impl Os2V4 {
    /// Height of flat lower-case letters.
    pub fn sx_height(&self) -> (r: i16)
        ensures
            r == self.sx_height,
    {
        self.sx_height
    }

    /// Height of flat capital letters.
    pub fn s_cap_height(&self) -> (r: i16)
        ensures
            r == self.s_cap_height,
    {
        self.s_cap_height
    }

    /// Character shown for missing glyphs.
    pub fn us_default_char(&self) -> (r: u16)
        ensures
            r == self.us_default_char,
    {
        self.us_default_char
    }

    /// Character used as word break.
    pub fn us_break_char(&self) -> (r: u16)
        ensures
            r == self.us_break_char,
    {
        self.us_break_char
    }

    /// Longest context of any feature.
    pub fn us_max_context(&self) -> (r: u16)
        ensures
            r == self.us_max_context,
    {
        self.us_max_context
    }

    /// Code pages the font covers.
    pub fn ul_code_page_range(&self) -> (r: CodePageRange)
        ensures
            r == self.os2_v1.ul_code_page_range,
    {
        self.os2_v1.ul_code_page_range
    }

    /// Average advance width of the lower-case letters.
    pub fn x_avg_char_width(&self) -> (r: i16)
        ensures
            r == self.os2_v1.os2_v0.x_avg_char_width,
    {
        self.os2_v1.os2_v0.x_avg_char_width
    }

    /// Visual weight, from 1 to 1000.
    pub fn us_weight_class(&self) -> (r: u16)
        ensures
            r == self.os2_v1.os2_v0.us_weight_class,
    {
        self.os2_v1.os2_v0.us_weight_class
    }

    /// Relative width, from 1 (ultra-condensed) to 9 (ultra-expanded).
    pub fn us_width_class(&self) -> (r: u16)
        ensures
            r == self.os2_v1.os2_v0.us_width_class,
    {
        self.os2_v1.os2_v0.us_width_class
    }

    /// Embedding licensing rights.
    pub fn fs_type(&self) -> (r: u16)
        ensures
            r == self.os2_v1.os2_v0.fs_type,
    {
        self.os2_v1.os2_v0.fs_type
    }

    /// Horizontal size of subscripts.
    pub fn y_subscript_xsize(&self) -> (r: i16)
        ensures
            r == self.os2_v1.os2_v0.y_subscript_xsize,
    {
        self.os2_v1.os2_v0.y_subscript_xsize
    }

    /// Vertical size of subscripts.
    pub fn y_subscript_ysize(&self) -> (r: i16)
        ensures
            r == self.os2_v1.os2_v0.y_subscript_ysize,
    {
        self.os2_v1.os2_v0.y_subscript_ysize
    }

    /// Horizontal offset of subscripts.
    pub fn y_subscript_xoffset(&self) -> (r: i16)
        ensures
            r == self.os2_v1.os2_v0.y_subscript_xoffset,
    {
        self.os2_v1.os2_v0.y_subscript_xoffset
    }

    /// Vertical offset of subscripts.
    pub fn y_subscript_yoffset(&self) -> (r: i16)
        ensures
            r == self.os2_v1.os2_v0.y_subscript_yoffset,
    {
        self.os2_v1.os2_v0.y_subscript_yoffset
    }

    /// Horizontal size of superscripts.
    pub fn y_superscript_xsize(&self) -> (r: i16)
        ensures
            r == self.os2_v1.os2_v0.y_superscript_xsize,
    {
        self.os2_v1.os2_v0.y_superscript_xsize
    }

    /// Vertical size of superscripts.
    pub fn y_superscript_ysize(&self) -> (r: i16)
        ensures
            r == self.os2_v1.os2_v0.y_superscript_ysize,
    {
        self.os2_v1.os2_v0.y_superscript_ysize
    }

    /// Horizontal offset of superscripts.
    pub fn y_superscript_xoffset(&self) -> (r: i16)
        ensures
            r == self.os2_v1.os2_v0.y_superscript_xoffset,
    {
        self.os2_v1.os2_v0.y_superscript_xoffset
    }

    /// Vertical offset of superscripts.
    pub fn y_superscript_yoffset(&self) -> (r: i16)
        ensures
            r == self.os2_v1.os2_v0.y_superscript_yoffset,
    {
        self.os2_v1.os2_v0.y_superscript_yoffset
    }

    /// Thickness of the strikeout stroke.
    pub fn y_strikeout_size(&self) -> (r: i16)
        ensures
            r == self.os2_v1.os2_v0.y_strikeout_size,
    {
        self.os2_v1.os2_v0.y_strikeout_size
    }

    /// Position of the top of the strikeout stroke.
    pub fn y_strikeout_position(&self) -> (r: i16)
        ensures
            r == self.os2_v1.os2_v0.y_strikeout_position,
    {
        self.os2_v1.os2_v0.y_strikeout_position
    }

    /// Font family class and subclass.
    pub fn s_family_class(&self) -> (r: i16)
        ensures
            r == self.os2_v1.os2_v0.s_family_class,
    {
        self.os2_v1.os2_v0.s_family_class
    }

    /// Panose classification.
    pub fn panose(&self) -> (r: &Panose)
        ensures
            *r == self.os2_v1.os2_v0.panose,
    {
        &self.os2_v1.os2_v0.panose
    }

    /// Unicode blocks the font covers.
    pub fn ul_unicode_range(&self) -> (r: UnicodeRange)
        ensures
            r == self.os2_v1.os2_v0.ul_unicode_range,
    {
        self.os2_v1.os2_v0.ul_unicode_range
    }

    /// Vendor identifier.
    pub fn ach_vend_id(&self) -> (r: Tag)
        ensures
            r == self.os2_v1.os2_v0.ach_vend_id,
    {
        self.os2_v1.os2_v0.ach_vend_id
    }

    /// Font selection flags.
    pub fn fs_selection(&self) -> (r: FontSelectionFlags)
        ensures
            r == self.os2_v1.os2_v0.fs_selection,
    {
        self.os2_v1.os2_v0.fs_selection
    }

    /// Smallest character code in the font.
    pub fn us_first_char_index(&self) -> (r: u16)
        ensures
            r == self.os2_v1.os2_v0.us_first_char_index,
    {
        self.os2_v1.os2_v0.us_first_char_index
    }

    /// Largest character code in the font.
    pub fn us_last_char_index(&self) -> (r: u16)
        ensures
            r == self.os2_v1.os2_v0.us_last_char_index,
    {
        self.os2_v1.os2_v0.us_last_char_index
    }

    /// Typographic ascender.
    pub fn s_typo_ascender(&self) -> (r: i16)
        ensures
            r == self.os2_v1.os2_v0.s_typo_ascender,
    {
        self.os2_v1.os2_v0.s_typo_ascender
    }

    /// Typographic descender.
    pub fn s_typo_descender(&self) -> (r: i16)
        ensures
            r == self.os2_v1.os2_v0.s_typo_descender,
    {
        self.os2_v1.os2_v0.s_typo_descender
    }

    /// Typographic line gap.
    pub fn s_typo_line_gap(&self) -> (r: i16)
        ensures
            r == self.os2_v1.os2_v0.s_typo_line_gap,
    {
        self.os2_v1.os2_v0.s_typo_line_gap
    }

    /// Windows clipping ascent.
    pub fn us_win_ascent(&self) -> (r: u16)
        ensures
            r == self.os2_v1.os2_v0.us_win_ascent,
    {
        self.os2_v1.os2_v0.us_win_ascent
    }

    /// Windows clipping descent.
    pub fn us_win_descent(&self) -> (r: u16)
        ensures
            r == self.os2_v1.os2_v0.us_win_descent,
    {
        self.os2_v1.os2_v0.us_win_descent
    }
}

impl Os2V5 {
    /// Smallest size, in twentieths of a point, the font is meant for.
    pub fn us_lower_optical_point_size(&self) -> (r: u16)
        ensures
            r == self.us_lower_optical_point_size,
    {
        self.us_lower_optical_point_size
    }

    /// Largest size, in twentieths of a point, the font is meant for.
    pub fn us_upper_optical_point_size(&self) -> (r: u16)
        ensures
            r == self.us_upper_optical_point_size,
    {
        self.us_upper_optical_point_size
    }

    /// Height of flat lower-case letters.
    pub fn sx_height(&self) -> (r: i16)
        ensures
            r == self.os2_v4.sx_height,
    {
        self.os2_v4.sx_height
    }

    /// Height of flat capital letters.
    pub fn s_cap_height(&self) -> (r: i16)
        ensures
            r == self.os2_v4.s_cap_height,
    {
        self.os2_v4.s_cap_height
    }

    /// Character shown for missing glyphs.
    pub fn us_default_char(&self) -> (r: u16)
        ensures
            r == self.os2_v4.us_default_char,
    {
        self.os2_v4.us_default_char
    }

    /// Character used as word break.
    pub fn us_break_char(&self) -> (r: u16)
        ensures
            r == self.os2_v4.us_break_char,
    {
        self.os2_v4.us_break_char
    }

    /// Longest context of any feature.
    pub fn us_max_context(&self) -> (r: u16)
        ensures
            r == self.os2_v4.us_max_context,
    {
        self.os2_v4.us_max_context
    }

    /// Code pages the font covers.
    pub fn ul_code_page_range(&self) -> (r: CodePageRange)
        ensures
            r == self.os2_v4.os2_v1.ul_code_page_range,
    {
        self.os2_v4.os2_v1.ul_code_page_range
    }

    /// Average advance width of the lower-case letters.
    pub fn x_avg_char_width(&self) -> (r: i16)
        ensures
            r == self.os2_v4.os2_v1.os2_v0.x_avg_char_width,
    {
        self.os2_v4.os2_v1.os2_v0.x_avg_char_width
    }

    /// Visual weight, from 1 to 1000.
    pub fn us_weight_class(&self) -> (r: u16)
        ensures
            r == self.os2_v4.os2_v1.os2_v0.us_weight_class,
    {
        self.os2_v4.os2_v1.os2_v0.us_weight_class
    }

    /// Relative width, from 1 (ultra-condensed) to 9 (ultra-expanded).
    pub fn us_width_class(&self) -> (r: u16)
        ensures
            r == self.os2_v4.os2_v1.os2_v0.us_width_class,
    {
        self.os2_v4.os2_v1.os2_v0.us_width_class
    }

    /// Embedding licensing rights.
    pub fn fs_type(&self) -> (r: u16)
        ensures
            r == self.os2_v4.os2_v1.os2_v0.fs_type,
    {
        self.os2_v4.os2_v1.os2_v0.fs_type
    }

    /// Horizontal size of subscripts.
    pub fn y_subscript_xsize(&self) -> (r: i16)
        ensures
            r == self.os2_v4.os2_v1.os2_v0.y_subscript_xsize,
    {
        self.os2_v4.os2_v1.os2_v0.y_subscript_xsize
    }

    /// Vertical size of subscripts.
    pub fn y_subscript_ysize(&self) -> (r: i16)
        ensures
            r == self.os2_v4.os2_v1.os2_v0.y_subscript_ysize,
    {
        self.os2_v4.os2_v1.os2_v0.y_subscript_ysize
    }

    /// Horizontal offset of subscripts.
    pub fn y_subscript_xoffset(&self) -> (r: i16)
        ensures
            r == self.os2_v4.os2_v1.os2_v0.y_subscript_xoffset,
    {
        self.os2_v4.os2_v1.os2_v0.y_subscript_xoffset
    }

    /// Vertical offset of subscripts.
    pub fn y_subscript_yoffset(&self) -> (r: i16)
        ensures
            r == self.os2_v4.os2_v1.os2_v0.y_subscript_yoffset,
    {
        self.os2_v4.os2_v1.os2_v0.y_subscript_yoffset
    }

    /// Horizontal size of superscripts.
    pub fn y_superscript_xsize(&self) -> (r: i16)
        ensures
            r == self.os2_v4.os2_v1.os2_v0.y_superscript_xsize,
    {
        self.os2_v4.os2_v1.os2_v0.y_superscript_xsize
    }

    /// Vertical size of superscripts.
    pub fn y_superscript_ysize(&self) -> (r: i16)
        ensures
            r == self.os2_v4.os2_v1.os2_v0.y_superscript_ysize,
    {
        self.os2_v4.os2_v1.os2_v0.y_superscript_ysize
    }

    /// Horizontal offset of superscripts.
    pub fn y_superscript_xoffset(&self) -> (r: i16)
        ensures
            r == self.os2_v4.os2_v1.os2_v0.y_superscript_xoffset,
    {
        self.os2_v4.os2_v1.os2_v0.y_superscript_xoffset
    }

    /// Vertical offset of superscripts.
    pub fn y_superscript_yoffset(&self) -> (r: i16)
        ensures
            r == self.os2_v4.os2_v1.os2_v0.y_superscript_yoffset,
    {
        self.os2_v4.os2_v1.os2_v0.y_superscript_yoffset
    }

    /// Thickness of the strikeout stroke.
    pub fn y_strikeout_size(&self) -> (r: i16)
        ensures
            r == self.os2_v4.os2_v1.os2_v0.y_strikeout_size,
    {
        self.os2_v4.os2_v1.os2_v0.y_strikeout_size
    }

    /// Position of the top of the strikeout stroke.
    pub fn y_strikeout_position(&self) -> (r: i16)
        ensures
            r == self.os2_v4.os2_v1.os2_v0.y_strikeout_position,
    {
        self.os2_v4.os2_v1.os2_v0.y_strikeout_position
    }

    /// Font family class and subclass.
    pub fn s_family_class(&self) -> (r: i16)
        ensures
            r == self.os2_v4.os2_v1.os2_v0.s_family_class,
    {
        self.os2_v4.os2_v1.os2_v0.s_family_class
    }

    /// Panose classification.
    pub fn panose(&self) -> (r: &Panose)
        ensures
            *r == self.os2_v4.os2_v1.os2_v0.panose,
    {
        &self.os2_v4.os2_v1.os2_v0.panose
    }

    /// Unicode blocks the font covers.
    pub fn ul_unicode_range(&self) -> (r: UnicodeRange)
        ensures
            r == self.os2_v4.os2_v1.os2_v0.ul_unicode_range,
    {
        self.os2_v4.os2_v1.os2_v0.ul_unicode_range
    }

    /// Vendor identifier.
    pub fn ach_vend_id(&self) -> (r: Tag)
        ensures
            r == self.os2_v4.os2_v1.os2_v0.ach_vend_id,
    {
        self.os2_v4.os2_v1.os2_v0.ach_vend_id
    }

    /// Font selection flags.
    pub fn fs_selection(&self) -> (r: FontSelectionFlags)
        ensures
            r == self.os2_v4.os2_v1.os2_v0.fs_selection,
    {
        self.os2_v4.os2_v1.os2_v0.fs_selection
    }

    /// Smallest character code in the font.
    pub fn us_first_char_index(&self) -> (r: u16)
        ensures
            r == self.os2_v4.os2_v1.os2_v0.us_first_char_index,
    {
        self.os2_v4.os2_v1.os2_v0.us_first_char_index
    }

    /// Largest character code in the font.
    pub fn us_last_char_index(&self) -> (r: u16)
        ensures
            r == self.os2_v4.os2_v1.os2_v0.us_last_char_index,
    {
        self.os2_v4.os2_v1.os2_v0.us_last_char_index
    }

    /// Typographic ascender.
    pub fn s_typo_ascender(&self) -> (r: i16)
        ensures
            r == self.os2_v4.os2_v1.os2_v0.s_typo_ascender,
    {
        self.os2_v4.os2_v1.os2_v0.s_typo_ascender
    }

    /// Typographic descender.
    pub fn s_typo_descender(&self) -> (r: i16)
        ensures
            r == self.os2_v4.os2_v1.os2_v0.s_typo_descender,
    {
        self.os2_v4.os2_v1.os2_v0.s_typo_descender
    }

    /// Typographic line gap.
    pub fn s_typo_line_gap(&self) -> (r: i16)
        ensures
            r == self.os2_v4.os2_v1.os2_v0.s_typo_line_gap,
    {
        self.os2_v4.os2_v1.os2_v0.s_typo_line_gap
    }

    /// Windows clipping ascent.
    pub fn us_win_ascent(&self) -> (r: u16)
        ensures
            r == self.os2_v4.os2_v1.os2_v0.us_win_ascent,
    {
        self.os2_v4.os2_v1.os2_v0.us_win_ascent
    }

    /// Windows clipping descent.
    pub fn us_win_descent(&self) -> (r: u16)
        ensures
            r == self.os2_v4.os2_v1.os2_v0.us_win_descent,
    {
        self.os2_v4.os2_v1.os2_v0.us_win_descent
    }
}

/// An OS/2 table of any version.
#[derive(Debug, Clone, Copy, PartialEq, Eq)]
pub enum Os2Version {
    Version0(Os2V0),
    Version1(Os2V1),
    Version2(Os2V4),
    Version3(Os2V4),
    Version4(Os2V4),
    Version5(Os2V5),
}

/// A decoded OS/2 table.
#[derive(Debug, Clone, Copy, PartialEq, Eq)]
pub struct Os2(pub Os2Version);

impl Os2 {
    /// The version 0 fields, which every version holds.
    pub open spec fn spec_v0(&self) -> Os2V0 {
        match self.0 {
            Os2Version::Version0(v) => v,
            Os2Version::Version1(v) => v.os2_v0,
            Os2Version::Version2(v) => v.os2_v1.os2_v0,
            Os2Version::Version3(v) => v.os2_v1.os2_v0,
            Os2Version::Version4(v) => v.os2_v1.os2_v0,
            Os2Version::Version5(v) => v.os2_v4.os2_v1.os2_v0,
        }
    }

    /// The table of its own version.
    pub fn version(&self) -> (r: &Os2Version)
        ensures
            *r == self.0,
    {
        &self.0
    }

    /// The version 0 fields, which every version holds.
    pub fn os2_v0(&self) -> (r: &Os2V0)
        ensures
            *r == self.spec_v0(),
    {
        match &self.0 {
            Os2Version::Version0(v) => v,
            Os2Version::Version1(v) => &v.os2_v0,
            Os2Version::Version2(v) => &v.os2_v1.os2_v0,
            Os2Version::Version3(v) => &v.os2_v1.os2_v0,
            Os2Version::Version4(v) => &v.os2_v1.os2_v0,
            Os2Version::Version5(v) => &v.os2_v4.os2_v1.os2_v0,
        }
    }

    /// Average advance width of the lower-case letters.
    pub fn x_avg_char_width(&self) -> (r: i16)
        ensures
            r == self.spec_v0().x_avg_char_width,
    {
        self.os2_v0().x_avg_char_width
    }

    /// Visual weight, from 1 to 1000.
    pub fn us_weight_class(&self) -> (r: u16)
        ensures
            r == self.spec_v0().us_weight_class,
    {
        self.os2_v0().us_weight_class
    }

    /// Relative width, from 1 (ultra-condensed) to 9 (ultra-expanded).
    pub fn us_width_class(&self) -> (r: u16)
        ensures
            r == self.spec_v0().us_width_class,
    {
        self.os2_v0().us_width_class
    }

    /// Embedding licensing rights.
    pub fn fs_type(&self) -> (r: u16)
        ensures
            r == self.spec_v0().fs_type,
    {
        self.os2_v0().fs_type
    }

    /// Horizontal size of subscripts.
    pub fn y_subscript_xsize(&self) -> (r: i16)
        ensures
            r == self.spec_v0().y_subscript_xsize,
    {
        self.os2_v0().y_subscript_xsize
    }

    /// Vertical size of subscripts.
    pub fn y_subscript_ysize(&self) -> (r: i16)
        ensures
            r == self.spec_v0().y_subscript_ysize,
    {
        self.os2_v0().y_subscript_ysize
    }

    /// Horizontal offset of subscripts.
    pub fn y_subscript_xoffset(&self) -> (r: i16)
        ensures
            r == self.spec_v0().y_subscript_xoffset,
    {
        self.os2_v0().y_subscript_xoffset
    }

    /// Vertical offset of subscripts.
    pub fn y_subscript_yoffset(&self) -> (r: i16)
        ensures
            r == self.spec_v0().y_subscript_yoffset,
    {
        self.os2_v0().y_subscript_yoffset
    }

    /// Horizontal size of superscripts.
    pub fn y_superscript_xsize(&self) -> (r: i16)
        ensures
            r == self.spec_v0().y_superscript_xsize,
    {
        self.os2_v0().y_superscript_xsize
    }

    /// Vertical size of superscripts.
    pub fn y_superscript_ysize(&self) -> (r: i16)
        ensures
            r == self.spec_v0().y_superscript_ysize,
    {
        self.os2_v0().y_superscript_ysize
    }

    /// Horizontal offset of superscripts.
    pub fn y_superscript_xoffset(&self) -> (r: i16)
        ensures
            r == self.spec_v0().y_superscript_xoffset,
    {
        self.os2_v0().y_superscript_xoffset
    }

    /// Vertical offset of superscripts.
    pub fn y_superscript_yoffset(&self) -> (r: i16)
        ensures
            r == self.spec_v0().y_superscript_yoffset,
    {
        self.os2_v0().y_superscript_yoffset
    }

    /// Thickness of the strikeout stroke.
    pub fn y_strikeout_size(&self) -> (r: i16)
        ensures
            r == self.spec_v0().y_strikeout_size,
    {
        self.os2_v0().y_strikeout_size
    }

    /// Position of the top of the strikeout stroke.
    pub fn y_strikeout_position(&self) -> (r: i16)
        ensures
            r == self.spec_v0().y_strikeout_position,
    {
        self.os2_v0().y_strikeout_position
    }

    /// Font family class and subclass.
    pub fn s_family_class(&self) -> (r: i16)
        ensures
            r == self.spec_v0().s_family_class,
    {
        self.os2_v0().s_family_class
    }

    /// Panose classification.
    pub fn panose(&self) -> (r: &Panose)
        ensures
            *r == self.spec_v0().panose,
    {
        &self.os2_v0().panose
    }

    /// Unicode blocks the font covers.
    pub fn ul_unicode_range(&self) -> (r: UnicodeRange)
        ensures
            r == self.spec_v0().ul_unicode_range,
    {
        self.os2_v0().ul_unicode_range
    }

    /// Vendor identifier.
    pub fn ach_vend_id(&self) -> (r: Tag)
        ensures
            r == self.spec_v0().ach_vend_id,
    {
        self.os2_v0().ach_vend_id
    }

    /// Font selection flags.
    pub fn fs_selection(&self) -> (r: FontSelectionFlags)
        ensures
            r == self.spec_v0().fs_selection,
    {
        self.os2_v0().fs_selection
    }

    /// Smallest character code in the font.
    pub fn us_first_char_index(&self) -> (r: u16)
        ensures
            r == self.spec_v0().us_first_char_index,
    {
        self.os2_v0().us_first_char_index
    }

    /// Largest character code in the font.
    pub fn us_last_char_index(&self) -> (r: u16)
        ensures
            r == self.spec_v0().us_last_char_index,
    {
        self.os2_v0().us_last_char_index
    }

    /// Typographic ascender.
    pub fn s_typo_ascender(&self) -> (r: i16)
        ensures
            r == self.spec_v0().s_typo_ascender,
    {
        self.os2_v0().s_typo_ascender
    }

    /// Typographic descender.
    pub fn s_typo_descender(&self) -> (r: i16)
        ensures
            r == self.spec_v0().s_typo_descender,
    {
        self.os2_v0().s_typo_descender
    }

    /// Typographic line gap.
    pub fn s_typo_line_gap(&self) -> (r: i16)
        ensures
            r == self.spec_v0().s_typo_line_gap,
    {
        self.os2_v0().s_typo_line_gap
    }

    /// Windows clipping ascent.
    pub fn us_win_ascent(&self) -> (r: u16)
        ensures
            r == self.spec_v0().us_win_ascent,
    {
        self.os2_v0().us_win_ascent
    }

    /// Windows clipping descent.
    pub fn us_win_descent(&self) -> (r: u16)
        ensures
            r == self.spec_v0().us_win_descent,
    {
        self.os2_v0().us_win_descent
    }
}

/// `v` holds the version 0 fields stored in `b`.
pub open spec fn os2v0_at(b: Seq<u8>, v: Os2V0) -> bool {
    b.len() >= 78
    && v.x_avg_char_width == spec_i16(b, 2)
    && v.us_weight_class == spec_u16(b, 4)
    && v.us_width_class == spec_u16(b, 6)
    && v.fs_type == spec_u16(b, 8)
    && v.y_subscript_xsize == spec_i16(b, 10)
    && v.y_subscript_ysize == spec_i16(b, 12)
    && v.y_subscript_xoffset == spec_i16(b, 14)
    && v.y_subscript_yoffset == spec_i16(b, 16)
    && v.y_superscript_xsize == spec_i16(b, 18)
    && v.y_superscript_ysize == spec_i16(b, 20)
    && v.y_superscript_xoffset == spec_i16(b, 22)
    && v.y_superscript_yoffset == spec_i16(b, 24)
    && v.y_strikeout_size == spec_i16(b, 26)
    && v.y_strikeout_position == spec_i16(b, 28)
    && v.s_family_class == spec_i16(b, 30)
    && v.us_first_char_index == spec_u16(b, 64)
    && v.us_last_char_index == spec_u16(b, 66)
    && v.s_typo_ascender == spec_i16(b, 68)
    && v.s_typo_descender == spec_i16(b, 70)
    && v.s_typo_line_gap == spec_i16(b, 72)
    && v.us_win_ascent == spec_u16(b, 74)
    && v.us_win_descent == spec_u16(b, 76)
    && v.panose.bytes@ == b.subrange(32, 42)
    && v.ul_unicode_range == (UnicodeRange { ul_unicode_range1: spec_u32(b, 42), ul_unicode_range2: spec_u32(b, 46), ul_unicode_range3: spec_u32(b, 50), ul_unicode_range4: spec_u32(b, 54) })
    && v.ach_vend_id == Tag(spec_u32(b, 58))
    && v.fs_selection == (FontSelectionFlags { bits: spec_u16(b, 62) })
}

/// `v` holds the version 1 fields stored in `b`.
pub open spec fn os2v1_at(b: Seq<u8>, v: Os2V1) -> bool {
    b.len() >= 86 && os2v0_at(b, v.os2_v0) && v.ul_code_page_range == (CodePageRange {
        ul_code_page_range1: spec_u32(b, 78),
        ul_code_page_range2: spec_u32(b, 82),
    })
}

/// `v` holds the version 2 to 4 fields stored in `b`.
pub open spec fn os2v4_at(b: Seq<u8>, v: Os2V4) -> bool {
    b.len() >= 96 && os2v1_at(b, v.os2_v1)
    && v.sx_height == spec_i16(b, 86)
    && v.s_cap_height == spec_i16(b, 88)
    && v.us_default_char == spec_u16(b, 90)
    && v.us_break_char == spec_u16(b, 92)
    && v.us_max_context == spec_u16(b, 94)
}

/// `v` holds the version 5 fields stored in `b`.
pub open spec fn os2v5_at(b: Seq<u8>, v: Os2V5) -> bool {
    b.len() >= 100 && os2v4_at(b, v.os2_v4)
    && v.us_lower_optical_point_size == spec_u16(b, 96)
    && v.us_upper_optical_point_size == spec_u16(b, 98)
}

/// Size in bytes of a table of version `version`.
pub open spec fn spec_os2_size(version: u16) -> int {
    if version == 0 {
        78
    } else if version == 1 {
        86
    } else if version <= 4 {
        96
    } else {
        100
    }
}

/// `r` is the decoding of the OS/2 table `b`: its version (0 to 5) picks the
/// layout, the bytes must hold that layout, and the font selection flags may
/// set no reserved bit.
pub open spec fn spec_os2_agrees(r: Result<(&[u8], Os2), Error>, b: Seq<u8>) -> bool {
    if b.len() < 2 {
        r == Err::<(&[u8], Os2), Error>(Error::Truncated)
    } else if spec_u16(b, 0) > 5 {
        r == Err::<(&[u8], Os2), Error>(Error::InvalidDiscriminant(0))
    } else if b.len() < spec_os2_size(spec_u16(b, 0)) {
        r == Err::<(&[u8], Os2), Error>(Error::Truncated)
    } else if !spec_valid_selection(spec_u16(b, 62)) {
        r == Err::<(&[u8], Os2), Error>(Error::MalformedInvariant)
    } else {
        r matches Ok((rest, t)) && rest@ == b.subrange(spec_os2_size(spec_u16(b, 0)), b.len() as int)
            && match t.0 {
            Os2Version::Version0(v) => spec_u16(b, 0) == 0 && os2v0_at(b, v),
            Os2Version::Version1(v) => spec_u16(b, 0) == 1 && os2v1_at(b, v),
            Os2Version::Version2(v) => spec_u16(b, 0) == 2 && os2v4_at(b, v),
            Os2Version::Version3(v) => spec_u16(b, 0) == 3 && os2v4_at(b, v),
            Os2Version::Version4(v) => spec_u16(b, 0) == 4 && os2v4_at(b, v),
            Os2Version::Version5(v) => spec_u16(b, 0) == 5 && os2v5_at(b, v),
        }
    }
}

/// Decodes the version 0 fields of an OS/2 table; the bytes must hold them
/// all, and the font selection flags may set no reserved bit.
pub fn parse_os2v0(input: &[u8]) -> (r: Result<Os2V0, Error>)
    ensures
        input@.len() < 78 ==> r == Err::<Os2V0, Error>(Error::Truncated),
        input@.len() >= 78 && !spec_valid_selection(spec_u16(input@, 62)) ==> r == Err::<
            Os2V0,
            Error,
        >(Error::MalformedInvariant),
        input@.len() >= 78 && spec_valid_selection(spec_u16(input@, 62)) ==> (r matches Ok(v)
            && os2v0_at(input@, v)),
{
    if input.len() < OS2_V0_SIZE {
        return Err(Error::Truncated);
    }
    let fs_selection = match FontSelectionFlags::from_bits(u16_at(input, 62)) {
        Some(flags) => flags,
        None => {
            return Err(Error::MalformedInvariant);
        },
    };
    let panose = Panose::new(slice_range(input, 32, 42));
    let ul_unicode_range = UnicodeRange::new(u32_at(input, 42), u32_at(input, 46), u32_at(input, 50), u32_at(input, 54));
    let v = Os2V0 { x_avg_char_width: i16_at(input, 2), us_weight_class: u16_at(input, 4), us_width_class: u16_at(input, 6), fs_type: u16_at(input, 8), y_subscript_xsize: i16_at(input, 10), y_subscript_ysize: i16_at(input, 12), y_subscript_xoffset: i16_at(input, 14), y_subscript_yoffset: i16_at(input, 16), y_superscript_xsize: i16_at(input, 18), y_superscript_ysize: i16_at(input, 20), y_superscript_xoffset: i16_at(input, 22), y_superscript_yoffset: i16_at(input, 24), y_strikeout_size: i16_at(input, 26), y_strikeout_position: i16_at(input, 28), s_family_class: i16_at(input, 30), us_first_char_index: u16_at(input, 64), us_last_char_index: u16_at(input, 66), s_typo_ascender: i16_at(input, 68), s_typo_descender: i16_at(input, 70), s_typo_line_gap: i16_at(input, 72), us_win_ascent: u16_at(input, 74), us_win_descent: u16_at(input, 76), panose, ul_unicode_range, ach_vend_id: Tag(u32_at(input, 58)), fs_selection };
    Ok(v)
}

/// Decodes the version 1 fields of an OS/2 table: version 0, then the code
/// page ranges.
pub fn parse_os2v1(input: &[u8]) -> (r: Result<Os2V1, Error>)
    ensures
        input@.len() < 86 ==> r == Err::<Os2V1, Error>(Error::Truncated),
        input@.len() >= 86 && !spec_valid_selection(spec_u16(input@, 62)) ==> r == Err::<
            Os2V1,
            Error,
        >(Error::MalformedInvariant),
        input@.len() >= 86 && spec_valid_selection(spec_u16(input@, 62)) ==> (r matches Ok(v)
            && os2v1_at(input@, v)),
{
    if input.len() < OS2_V1_SIZE {
        return Err(Error::Truncated);
    }
    let os2_v0 = parse_os2v0(input)?;
    let ul_code_page_range = CodePageRange::new(u32_at(input, 78), u32_at(input, 82));
    Ok(Os2V1 { os2_v0, ul_code_page_range })
}

/// Decodes the fields of a version 2, 3 or 4 OS/2 table: version 1, then
/// five metrics.
pub fn parse_os2v4(input: &[u8]) -> (r: Result<Os2V4, Error>)
    ensures
        input@.len() < 96 ==> r == Err::<Os2V4, Error>(Error::Truncated),
        input@.len() >= 96 && !spec_valid_selection(spec_u16(input@, 62)) ==> r == Err::<
            Os2V4,
            Error,
        >(Error::MalformedInvariant),
        input@.len() >= 96 && spec_valid_selection(spec_u16(input@, 62)) ==> (r matches Ok(v)
            && os2v4_at(input@, v)),
{
    if input.len() < OS2_V4_SIZE {
        return Err(Error::Truncated);
    }
    let os2_v1 = parse_os2v1(input)?;
    Ok(Os2V4 { os2_v1, sx_height: i16_at(input, 86), s_cap_height: i16_at(input, 88), us_default_char: u16_at(input, 90), us_break_char: u16_at(input, 92), us_max_context: u16_at(input, 94) })
}

/// Decodes the fields of a version 5 OS/2 table: version 4, then the optical
/// size range.
pub fn parse_os2v5(input: &[u8]) -> (r: Result<Os2V5, Error>)
    ensures
        input@.len() < 100 ==> r == Err::<Os2V5, Error>(Error::Truncated),
        input@.len() >= 100 && !spec_valid_selection(spec_u16(input@, 62)) ==> r == Err::<
            Os2V5,
            Error,
        >(Error::MalformedInvariant),
        input@.len() >= 100 && spec_valid_selection(spec_u16(input@, 62)) ==> (r matches Ok(v)
            && os2v5_at(input@, v)),
{
    if input.len() < OS2_V5_SIZE {
        return Err(Error::Truncated);
    }
    let os2_v4 = parse_os2v4(input)?;
    Ok(Os2V5 { os2_v4, us_lower_optical_point_size: u16_at(input, 96), us_upper_optical_point_size: u16_at(input, 98) })
}

/// Decodes an OS/2 table of any version from 0 to 5.
pub fn parse_os2(input: &[u8]) -> (r: Result<(&[u8], Os2), Error>)
    ensures
        spec_os2_agrees(r, input@),
{
    if input.len() < 2 {
        return Err(Error::Truncated);
    }
    let version = u16_at(input, 0);
    if version > 5 {
        return Err(Error::InvalidDiscriminant(0));
    }
    let size: usize = if version == 0 {
        OS2_V0_SIZE
    } else if version == 1 {
        OS2_V1_SIZE
    } else if version <= 4 {
        OS2_V4_SIZE
    } else {
        OS2_V5_SIZE
    };
    if input.len() < size {
        return Err(Error::Truncated);
    }
    let table = if version == 0 {
        Os2(Os2Version::Version0(parse_os2v0(input)?))
    } else if version == 1 {
        Os2(Os2Version::Version1(parse_os2v1(input)?))
    } else if version == 2 {
        Os2(Os2Version::Version2(parse_os2v4(input)?))
    } else if version == 3 {
        Os2(Os2Version::Version3(parse_os2v4(input)?))
    } else if version == 4 {
        Os2(Os2Version::Version4(parse_os2v4(input)?))
    } else {
        Os2(Os2Version::Version5(parse_os2v5(input)?))
    };
    Ok((slice_range(input, size, input.len()), table))
}

/// The layouts extend one another: the version 4 fields of `b` begin with
/// the version 1 fields of its first 86 bytes, which begin with the version 0
/// fields of its first 78 bytes. Decoding a version 4 table and keeping its
/// version 1 part gives what the version 1 decoder gives on that prefix.
pub proof fn lemma_os2_extension_chain(b: Seq<u8>, v: Os2V4)
    requires
        os2v4_at(b, v),
    ensures
        os2v1_at(b.subrange(0, 86), v.os2_v1),
        os2v0_at(b.subrange(0, 78), v.os2_v1.os2_v0),
{
    let p = b.subrange(0, 86);
    let q = b.subrange(0, 78);
    assert forall|i: int| 0 <= i < 86 implies p[i] == b[i] by {}
    assert forall|i: int| 0 <= i < 78 implies q[i] == b[i] by {}
    assert(p.subrange(32, 42) =~= b.subrange(32, 42));
    assert(q.subrange(32, 42) =~= b.subrange(32, 42));
}

} // verus!
