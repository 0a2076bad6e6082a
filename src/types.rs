//! Identifiers and geometry shared by the whole crate.
use crate::codec::spec_u32;
use crate::codec::u32_at;
use vstd::prelude::*;

verus! {

/// Short offset to a table, same as `u16`; the null offset is zero.
pub type Offset16 = u16;

/// Long offset to a table, same as `u32`; the null offset is zero.
pub type Offset32 = u32;

/// Seconds since 12:00 midnight, January 1, 1904, UTC.
pub type LongDateTime = i64;

/// A signed 16.16 fixed-point number, kept as its raw 32-bit value.
pub type Fixed = i32;

/// Four raw bytes that identify a table, a script or a vendor.
///
/// The bytes are held as one big-endian `u32`, so comparing two tags as
/// integers compares their bytes one by one, first byte first.
#[derive(Debug, Clone, Copy, PartialEq, Eq, Structural)]
pub struct Tag(pub u32);

impl Tag {
    /// The tag made of the four bytes of `bytes`.
    pub fn new(bytes: &[u8]) -> (r: Tag)
        requires
            bytes@.len() == 4,
        ensures
            r.0 == spec_u32(bytes@, 0),
    {
        Tag(u32_at(bytes, 0))
    }

    /// The tag as a big-endian integer.
    pub fn value(&self) -> (r: u32)
        ensures
            r == self.0,
    {
        self.0
    }
}

/// The tables that this crate knows by name.
#[derive(Debug, Clone, Copy, PartialEq, Eq, Structural)]
pub enum TableTag {
    Avar,
    Base,
    Cbdt,
    Cblc,
    Cff,
    Cff2,
    Cmap,
    Colr,
    Cpal,
    Cvar,
    Cvt,
    Dsig,
    Ebdt,
    Eblc,
    Ebsc,
    Fpgm,
    Fvar,
    Gasp,
    Gdef,
    Glyf,
    Gpos,
    Gsub,
    Gvar,
    Hdmx,
    Head,
    Hhea,
    Hmtx,
    Hvar,
    Jstf,
    Kern,
    Loca,
    Ltsh,
    Math,
    Maxp,
    Merg,
    Meta,
    Mvar,
    Name,
    Os2,
    Pclt,
    Post,
    Prep,
    Sbix,
    Stat,
    Svg,
    Vdmx,
    Vhea,
    Vmtx,
    Vorg,
    Vvar,
}

/// The tag of a known table, as a big-endian integer.
pub open spec fn spec_table_tag_value(t: TableTag) -> u32 {
    match t {
        TableTag::Avar => 0x61766172,
        TableTag::Base => 0x42415345,
        TableTag::Cbdt => 0x43424454,
        TableTag::Cblc => 0x43424C43,
        TableTag::Cff => 0x43464620,
        TableTag::Cff2 => 0x43464632,
        TableTag::Cmap => 0x636D6170,
        TableTag::Colr => 0x434F4C52,
        TableTag::Cpal => 0x4350414C,
        TableTag::Cvar => 0x63766172,
        TableTag::Cvt => 0x63767420,
        TableTag::Dsig => 0x44534947,
        TableTag::Ebdt => 0x45424454,
        TableTag::Eblc => 0x45424C43,
        TableTag::Ebsc => 0x45425343,
        TableTag::Fpgm => 0x6670676D,
        TableTag::Fvar => 0x66766172,
        TableTag::Gasp => 0x67617370,
        TableTag::Gdef => 0x47444546,
        TableTag::Glyf => 0x676C7966,
        TableTag::Gpos => 0x47504F53,
        TableTag::Gsub => 0x47535542,
        TableTag::Gvar => 0x67766172,
        TableTag::Hdmx => 0x68646D78,
        TableTag::Head => 0x68656164,
        TableTag::Hhea => 0x68686561,
        TableTag::Hmtx => 0x686D7478,
        TableTag::Hvar => 0x48564152,
        TableTag::Jstf => 0x4A535446,
        TableTag::Kern => 0x6B65726E,
        TableTag::Loca => 0x6C6F6361,
        TableTag::Ltsh => 0x4C545348,
        TableTag::Math => 0x4D415448,
        TableTag::Maxp => 0x6D617870,
        TableTag::Merg => 0x4D455247,
        TableTag::Meta => 0x6D657461,
        TableTag::Mvar => 0x4D564152,
        TableTag::Name => 0x6E616D65,
        TableTag::Os2 => 0x4F532F32,
        TableTag::Pclt => 0x50434C54,
        TableTag::Post => 0x706F7374,
        TableTag::Prep => 0x70726570,
        TableTag::Sbix => 0x73626978,
        TableTag::Stat => 0x53544154,
        TableTag::Svg => 0x53564720,
        TableTag::Vdmx => 0x56444D58,
        TableTag::Vhea => 0x76686561,
        TableTag::Vmtx => 0x766D7478,
        TableTag::Vorg => 0x564F5247,
        TableTag::Vvar => 0x56564152,
    }
}

/// The known table whose tag is `v`, if any.
pub open spec fn spec_parse_table_tag(v: u32) -> Option<TableTag> {
    match v {
        0x61766172 => Some(TableTag::Avar),
        0x42415345 => Some(TableTag::Base),
        0x43424454 => Some(TableTag::Cbdt),
        0x43424C43 => Some(TableTag::Cblc),
        0x43464620 => Some(TableTag::Cff),
        0x43464632 => Some(TableTag::Cff2),
        0x636D6170 => Some(TableTag::Cmap),
        0x434F4C52 => Some(TableTag::Colr),
        0x4350414C => Some(TableTag::Cpal),
        0x63766172 => Some(TableTag::Cvar),
        0x63767420 => Some(TableTag::Cvt),
        0x44534947 => Some(TableTag::Dsig),
        0x45424454 => Some(TableTag::Ebdt),
        0x45424C43 => Some(TableTag::Eblc),
        0x45425343 => Some(TableTag::Ebsc),
        0x6670676D => Some(TableTag::Fpgm),
        0x66766172 => Some(TableTag::Fvar),
        0x67617370 => Some(TableTag::Gasp),
        0x47444546 => Some(TableTag::Gdef),
        0x676C7966 => Some(TableTag::Glyf),
        0x47504F53 => Some(TableTag::Gpos),
        0x47535542 => Some(TableTag::Gsub),
        0x67766172 => Some(TableTag::Gvar),
        0x68646D78 => Some(TableTag::Hdmx),
        0x68656164 => Some(TableTag::Head),
        0x68686561 => Some(TableTag::Hhea),
        0x686D7478 => Some(TableTag::Hmtx),
        0x48564152 => Some(TableTag::Hvar),
        0x4A535446 => Some(TableTag::Jstf),
        0x6B65726E => Some(TableTag::Kern),
        0x6C6F6361 => Some(TableTag::Loca),
        0x4C545348 => Some(TableTag::Ltsh),
        0x4D415448 => Some(TableTag::Math),
        0x6D617870 => Some(TableTag::Maxp),
        0x4D455247 => Some(TableTag::Merg),
        0x6D657461 => Some(TableTag::Meta),
        0x4D564152 => Some(TableTag::Mvar),
        0x6E616D65 => Some(TableTag::Name),
        0x4F532F32 => Some(TableTag::Os2),
        0x50434C54 => Some(TableTag::Pclt),
        0x706F7374 => Some(TableTag::Post),
        0x70726570 => Some(TableTag::Prep),
        0x73626978 => Some(TableTag::Sbix),
        0x53544154 => Some(TableTag::Stat),
        0x53564720 => Some(TableTag::Svg),
        0x56444D58 => Some(TableTag::Vdmx),
        0x76686561 => Some(TableTag::Vhea),
        0x766D7478 => Some(TableTag::Vmtx),
        0x564F5247 => Some(TableTag::Vorg),
        0x56564152 => Some(TableTag::Vvar),
        _ => None,
    }
}

impl TableTag {
    /// Recognises a known table tag; unknown tags give `None`.
    pub fn parse(tag: Tag) -> (r: Option<TableTag>)
        ensures
            r == spec_parse_table_tag(tag.0),
    {
        match tag.0 {
            0x61766172 => Some(TableTag::Avar),
            0x42415345 => Some(TableTag::Base),
            0x43424454 => Some(TableTag::Cbdt),
            0x43424C43 => Some(TableTag::Cblc),
            0x43464620 => Some(TableTag::Cff),
            0x43464632 => Some(TableTag::Cff2),
            0x636D6170 => Some(TableTag::Cmap),
            0x434F4C52 => Some(TableTag::Colr),
            0x4350414C => Some(TableTag::Cpal),
            0x63766172 => Some(TableTag::Cvar),
            0x63767420 => Some(TableTag::Cvt),
            0x44534947 => Some(TableTag::Dsig),
            0x45424454 => Some(TableTag::Ebdt),
            0x45424C43 => Some(TableTag::Eblc),
            0x45425343 => Some(TableTag::Ebsc),
            0x6670676D => Some(TableTag::Fpgm),
            0x66766172 => Some(TableTag::Fvar),
            0x67617370 => Some(TableTag::Gasp),
            0x47444546 => Some(TableTag::Gdef),
            0x676C7966 => Some(TableTag::Glyf),
            0x47504F53 => Some(TableTag::Gpos),
            0x47535542 => Some(TableTag::Gsub),
            0x67766172 => Some(TableTag::Gvar),
            0x68646D78 => Some(TableTag::Hdmx),
            0x68656164 => Some(TableTag::Head),
            0x68686561 => Some(TableTag::Hhea),
            0x686D7478 => Some(TableTag::Hmtx),
            0x48564152 => Some(TableTag::Hvar),
            0x4A535446 => Some(TableTag::Jstf),
            0x6B65726E => Some(TableTag::Kern),
            0x6C6F6361 => Some(TableTag::Loca),
            0x4C545348 => Some(TableTag::Ltsh),
            0x4D415448 => Some(TableTag::Math),
            0x6D617870 => Some(TableTag::Maxp),
            0x4D455247 => Some(TableTag::Merg),
            0x6D657461 => Some(TableTag::Meta),
            0x4D564152 => Some(TableTag::Mvar),
            0x6E616D65 => Some(TableTag::Name),
            0x4F532F32 => Some(TableTag::Os2),
            0x50434C54 => Some(TableTag::Pclt),
            0x706F7374 => Some(TableTag::Post),
            0x70726570 => Some(TableTag::Prep),
            0x73626978 => Some(TableTag::Sbix),
            0x53544154 => Some(TableTag::Stat),
            0x53564720 => Some(TableTag::Svg),
            0x56444D58 => Some(TableTag::Vdmx),
            0x76686561 => Some(TableTag::Vhea),
            0x766D7478 => Some(TableTag::Vmtx),
            0x564F5247 => Some(TableTag::Vorg),
            0x56564152 => Some(TableTag::Vvar),
            _ => None,
        }
    }

    /// The tag of this table.
    pub fn tag(&self) -> (r: Tag)
        ensures
            r.0 == spec_table_tag_value(*self),
    {
        match self {
            TableTag::Avar => Tag(0x61766172),
            TableTag::Base => Tag(0x42415345),
            TableTag::Cbdt => Tag(0x43424454),
            TableTag::Cblc => Tag(0x43424C43),
            TableTag::Cff => Tag(0x43464620),
            TableTag::Cff2 => Tag(0x43464632),
            TableTag::Cmap => Tag(0x636D6170),
            TableTag::Colr => Tag(0x434F4C52),
            TableTag::Cpal => Tag(0x4350414C),
            TableTag::Cvar => Tag(0x63766172),
            TableTag::Cvt => Tag(0x63767420),
            TableTag::Dsig => Tag(0x44534947),
            TableTag::Ebdt => Tag(0x45424454),
            TableTag::Eblc => Tag(0x45424C43),
            TableTag::Ebsc => Tag(0x45425343),
            TableTag::Fpgm => Tag(0x6670676D),
            TableTag::Fvar => Tag(0x66766172),
            TableTag::Gasp => Tag(0x67617370),
            TableTag::Gdef => Tag(0x47444546),
            TableTag::Glyf => Tag(0x676C7966),
            TableTag::Gpos => Tag(0x47504F53),
            TableTag::Gsub => Tag(0x47535542),
            TableTag::Gvar => Tag(0x67766172),
            TableTag::Hdmx => Tag(0x68646D78),
            TableTag::Head => Tag(0x68656164),
            TableTag::Hhea => Tag(0x68686561),
            TableTag::Hmtx => Tag(0x686D7478),
            TableTag::Hvar => Tag(0x48564152),
            TableTag::Jstf => Tag(0x4A535446),
            TableTag::Kern => Tag(0x6B65726E),
            TableTag::Loca => Tag(0x6C6F6361),
            TableTag::Ltsh => Tag(0x4C545348),
            TableTag::Math => Tag(0x4D415448),
            TableTag::Maxp => Tag(0x6D617870),
            TableTag::Merg => Tag(0x4D455247),
            TableTag::Meta => Tag(0x6D657461),
            TableTag::Mvar => Tag(0x4D564152),
            TableTag::Name => Tag(0x6E616D65),
            TableTag::Os2 => Tag(0x4F532F32),
            TableTag::Pclt => Tag(0x50434C54),
            TableTag::Post => Tag(0x706F7374),
            TableTag::Prep => Tag(0x70726570),
            TableTag::Sbix => Tag(0x73626978),
            TableTag::Stat => Tag(0x53544154),
            TableTag::Svg => Tag(0x53564720),
            TableTag::Vdmx => Tag(0x56444D58),
            TableTag::Vhea => Tag(0x76686561),
            TableTag::Vmtx => Tag(0x766D7478),
            TableTag::Vorg => Tag(0x564F5247),
            TableTag::Vvar => Tag(0x56564152),
        }
    }
}

impl From<TableTag> for Tag {
    fn from(t: TableTag) -> (r: Tag) {
        t.tag()
    }
}

impl vstd::std_specs::convert::FromSpecImpl<TableTag> for Tag {
    open spec fn obeys_from_spec() -> bool {
        true
    }

    open spec fn from_spec(t: TableTag) -> Tag {
        Tag(spec_table_tag_value(t))
    }
}

/// Every known table tag survives the trip to its raw tag and back:
/// recognising the tag of `t` gives `t` again.
pub proof fn lemma_table_tag_round_trip(t: TableTag)
    ensures
        spec_parse_table_tag(spec_table_tag_value(t)) == Some(t),
{
}

/// A rectangle given by its lower-left and upper-right corners.
#[derive(Debug, Clone, Copy, PartialEq, Eq)]
pub struct Rect<T> {
    pub x_min: T,
    pub y_min: T,
    pub x_max: T,
    pub y_max: T,
}

impl<T: Copy> Rect<T> {
    /// The rectangle with the given corners.
    pub fn new(x_min: T, y_min: T, x_max: T, y_max: T) -> (r: Rect<T>)
        ensures
            r == (Rect { x_min, y_min, x_max, y_max }),
    {
        Rect { x_min, y_min, x_max, y_max }
    }

    /// Smallest x coordinate.
    pub fn x_min(&self) -> (r: T)
        ensures
            r == self.x_min,
    {
        self.x_min
    }

    /// Smallest y coordinate.
    pub fn y_min(&self) -> (r: T)
        ensures
            r == self.y_min,
    {
        self.y_min
    }

    /// Largest x coordinate.
    pub fn x_max(&self) -> (r: T)
        ensures
            r == self.x_max,
    {
        self.x_max
    }

    /// Largest y coordinate.
    pub fn y_max(&self) -> (r: T)
        ensures
            r == self.y_max,
    {
        self.y_max
    }
}

} // verus!
