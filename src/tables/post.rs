//! The PostScript table (`post`), versions 1.0 to 4.0.
use crate::codec::{i16_at, i32_at, slice_range, spec_i16, spec_i32, spec_u16, spec_u32, u16_at, u32_at};
use crate::error::Error;
use vstd::prelude::*;
use vstd::utf8::{decode_utf8, valid_utf8};

verus! {

/// Version 1.0: the standard Macintosh glyph order.
pub const POST_VERSION_1_0: i32 = 0x00010000;

/// Version 2.0: glyph names given by index, with Pascal strings.
pub const POST_VERSION_2_0: i32 = 0x00020000;

/// Version 2.5: glyph names as offsets into the standard order.
pub const POST_VERSION_2_5: i32 = 0x00025000;

/// Version 3.0: no glyph names.
pub const POST_VERSION_3_0: i32 = 0x00030000;

/// Version 4.0: glyph names mapped to character codes.
pub const POST_VERSION_4_0: i32 = 0x00040000;

/// Size in bytes of the fixed part of the table, version included.
pub const POST_HEADER_SIZE: usize = 32;

/// The fields that every version of the table holds.
#[derive(Debug, Clone, Copy, PartialEq, Eq, Structural)]
pub struct PostScriptTableHeader {
    pub italic_angle: i32,
    pub underline_position: i16,
    pub underline_thickness: i16,
    pub is_fixed_pitch: u32,
    pub min_mem_type_42: u32,
    pub max_mem_type_42: u32,
    pub min_mem_type_1: u32,
    pub max_mem_type_1: u32,
}

impl PostScriptTableHeader {
    /// Italic angle in counter-clockwise degrees from the vertical (16.16 fixed point).
    pub fn italic_angle(&self) -> (r: i32)
        ensures
            r == self.italic_angle,
    {
        self.italic_angle
    }

    /// Suggested distance of the top of the underline from the baseline.
    pub fn underline_position(&self) -> (r: i16)
        ensures
            r == self.underline_position,
    {
        self.underline_position
    }

    /// Suggested thickness of the underline.
    pub fn underline_thickness(&self) -> (r: i16)
        ensures
            r == self.underline_thickness,
    {
        self.underline_thickness
    }

    /// Nonzero when the font is monospaced.
    pub fn is_fixed_pitch(&self) -> (r: u32)
        ensures
            r == self.is_fixed_pitch,
    {
        self.is_fixed_pitch
    }

    /// Least memory use when the font is downloaded as a Type 42 font.
    pub fn min_mem_type_42(&self) -> (r: u32)
        ensures
            r == self.min_mem_type_42,
    {
        self.min_mem_type_42
    }

    /// Most memory use when the font is downloaded as a Type 42 font.
    pub fn max_mem_type_42(&self) -> (r: u32)
        ensures
            r == self.max_mem_type_42,
    {
        self.max_mem_type_42
    }

    /// Least memory use when the font is downloaded as a Type 1 font.
    pub fn min_mem_type_1(&self) -> (r: u32)
        ensures
            r == self.min_mem_type_1,
    {
        self.min_mem_type_1
    }

    /// Most memory use when the font is downloaded as a Type 1 font.
    pub fn max_mem_type_1(&self) -> (r: u32)
        ensures
            r == self.max_mem_type_1,
    {
        self.max_mem_type_1
    }

}

/// A version 2.0 table: the common fields, then one name index per glyph.
#[derive(Debug, Clone, PartialEq, Eq)]
pub struct PostScriptTableV20 {
    pub header: PostScriptTableHeader,
    pub num_glyphs: u16,
    pub glyph_name_indexes: Vec<u16>,
}

/// The table in each of its versions.
#[allow(non_camel_case_types)]
#[derive(Debug, Clone, PartialEq, Eq)]
pub enum PostScriptVersion {
    Version_1_0(PostScriptTableHeader),
    Version_2_0(PostScriptTableV20),
    Version_2_5(PostScriptTableHeader),
    Version_3_0(PostScriptTableHeader),
    Version_4_0(PostScriptTableHeader),
}

impl PostScriptVersion {
    /// The common fields of the table.
    pub open spec fn spec_header(&self) -> PostScriptTableHeader {
        match self {
            PostScriptVersion::Version_1_0(h) => *h,
            PostScriptVersion::Version_2_0(t) => t.header,
            PostScriptVersion::Version_2_5(h) => *h,
            PostScriptVersion::Version_3_0(h) => *h,
            PostScriptVersion::Version_4_0(h) => *h,
        }
    }

    /// The common fields of the table.
    pub fn header(&self) -> (r: PostScriptTableHeader)
        ensures
            r == self.spec_header(),
    {
        match self {
            PostScriptVersion::Version_1_0(h) => *h,
            PostScriptVersion::Version_2_0(t) => t.header,
            PostScriptVersion::Version_2_5(h) => *h,
            PostScriptVersion::Version_3_0(h) => *h,
            PostScriptVersion::Version_4_0(h) => *h,
        }
    }
}

/// A decoded PostScript table and the bytes that follow its fixed part
/// (for version 2.0, the Pascal strings of the glyph names).
#[derive(Debug, Clone, PartialEq, Eq)]
pub struct PostScriptTable<'a> {
    pub version: PostScriptVersion,
    pub buf: &'a [u8],
}

impl<'a> PostScriptTable<'a> {
    /// The table in its own version.
    pub fn version(&self) -> (r: &PostScriptVersion)
        ensures
            *r == self.version,
    {
        &self.version
    }

    /// Decodes a PostScript table, keeping the bytes after its fixed part.
    pub fn parse(buf: &'a [u8]) -> (r: Result<PostScriptTable<'a>, Error>)
        ensures
            match r {
                Ok(t) => spec_post_error(buf@) is None && post_version_at(buf@, t.version) && t.buf@
                    == buf@.subrange(spec_post_size(buf@), buf@.len() as int),
                Err(e) => spec_post_error(buf@) == Some(e),
            },
    {
        let (rest, version) = parse_post_script_table(buf)?;
        Ok(PostScriptTable { version, buf: rest })
    }

    /// Italic angle in counter-clockwise degrees from the vertical (16.16 fixed point).
    pub fn italic_angle(&self) -> (r: i32)
        ensures
            r == self.version.spec_header().italic_angle,
    {
        self.version.header().italic_angle
    }

    /// Suggested distance of the top of the underline from the baseline.
    pub fn underline_position(&self) -> (r: i16)
        ensures
            r == self.version.spec_header().underline_position,
    {
        self.version.header().underline_position
    }

    /// Suggested thickness of the underline.
    pub fn underline_thickness(&self) -> (r: i16)
        ensures
            r == self.version.spec_header().underline_thickness,
    {
        self.version.header().underline_thickness
    }

    /// Nonzero when the font is monospaced.
    pub fn is_fixed_pitch(&self) -> (r: u32)
        ensures
            r == self.version.spec_header().is_fixed_pitch,
    {
        self.version.header().is_fixed_pitch
    }

    /// Least memory use when the font is downloaded as a Type 42 font.
    pub fn min_mem_type_42(&self) -> (r: u32)
        ensures
            r == self.version.spec_header().min_mem_type_42,
    {
        self.version.header().min_mem_type_42
    }

    /// Most memory use when the font is downloaded as a Type 42 font.
    pub fn max_mem_type_42(&self) -> (r: u32)
        ensures
            r == self.version.spec_header().max_mem_type_42,
    {
        self.version.header().max_mem_type_42
    }

    /// Least memory use when the font is downloaded as a Type 1 font.
    pub fn min_mem_type_1(&self) -> (r: u32)
        ensures
            r == self.version.spec_header().min_mem_type_1,
    {
        self.version.header().min_mem_type_1
    }

    /// Most memory use when the font is downloaded as a Type 1 font.
    pub fn max_mem_type_1(&self) -> (r: u32)
        ensures
            r == self.version.spec_header().max_mem_type_1,
    {
        self.version.header().max_mem_type_1
    }
}

/// The common fields stored in `b`.
pub open spec fn spec_post_header(b: Seq<u8>) -> PostScriptTableHeader {
    PostScriptTableHeader { italic_angle: spec_i32(b, 4), underline_position: spec_i16(b, 8), underline_thickness: spec_i16(b, 10), is_fixed_pitch: spec_u32(b, 12), min_mem_type_42: spec_u32(b, 16), max_mem_type_42: spec_u32(b, 20), min_mem_type_1: spec_u32(b, 24), max_mem_type_1: spec_u32(b, 28) }
}

/// The `n` 16-bit values that start at `b[i]`.
pub open spec fn spec_u16s(b: Seq<u8>, i: int, n: int) -> Seq<u16> {
    Seq::new(n as nat, |k: int| spec_u16(b, i + 2 * k))
}

/// Why the table `b` cannot be decoded, if it can't: a version number that
/// is none of the five known ones, or too few bytes for the fields of its
/// version.
pub open spec fn spec_post_error(b: Seq<u8>) -> Option<Error> {
    if b.len() < 4 {
        Some(Error::Truncated)
    } else if spec_i32(b, 0) != POST_VERSION_1_0 && spec_i32(b, 0) != POST_VERSION_2_0 && spec_i32(b, 0)
        != POST_VERSION_2_5 && spec_i32(b, 0) != POST_VERSION_3_0 && spec_i32(b, 0) != POST_VERSION_4_0 {
        Some(Error::InvalidDiscriminant(0))
    } else if b.len() < 32 {
        Some(Error::Truncated)
    } else if spec_i32(b, 0) == POST_VERSION_2_0 && (b.len() < 34 || b.len() < 34 + 2 * spec_u16(b, 32)) {
        Some(Error::Truncated)
    } else {
        None
    }
}

/// Size in bytes of the fixed part of the table `b`.
pub open spec fn spec_post_size(b: Seq<u8>) -> int {
    if spec_i32(b, 0) == POST_VERSION_2_0 {
        34 + 2 * spec_u16(b, 32)
    } else {
        32
    }
}

/// `v` is the table stored in `b`, in the version that `b` gives.
pub open spec fn post_version_at(b: Seq<u8>, v: PostScriptVersion) -> bool {
    match v {
        PostScriptVersion::Version_1_0(h) => spec_i32(b, 0) == POST_VERSION_1_0 && h == spec_post_header(b),
        PostScriptVersion::Version_2_0(t) => spec_i32(b, 0) == POST_VERSION_2_0 && t.header
            == spec_post_header(b) && t.num_glyphs == spec_u16(b, 32) && t.glyph_name_indexes@
            == spec_u16s(b, 34, spec_u16(b, 32) as int),
        PostScriptVersion::Version_2_5(h) => spec_i32(b, 0) == POST_VERSION_2_5 && h == spec_post_header(b),
        PostScriptVersion::Version_3_0(h) => spec_i32(b, 0) == POST_VERSION_3_0 && h == spec_post_header(b),
        PostScriptVersion::Version_4_0(h) => spec_i32(b, 0) == POST_VERSION_4_0 && h == spec_post_header(b),
    }
}

/// `r` is the decoding of the table `b`.
pub open spec fn spec_post_agrees(r: Result<(&[u8], PostScriptVersion), Error>, b: Seq<u8>) -> bool {
    match r {
        Ok((rest, v)) => spec_post_error(b) is None && post_version_at(b, v) && rest@ == b.subrange(
            spec_post_size(b),
            b.len() as int,
        ),
        Err(e) => spec_post_error(b) == Some(e),
    }
}

fn parse_post_script_header(input: &[u8]) -> (r: PostScriptTableHeader)
    requires
        input@.len() >= 32,
    ensures
        r == spec_post_header(input@),
{
    PostScriptTableHeader { italic_angle: i32_at(input, 4), underline_position: i16_at(input, 8), underline_thickness: i16_at(input, 10), is_fixed_pitch: u32_at(input, 12), min_mem_type_42: u32_at(input, 16), max_mem_type_42: u32_at(input, 20), min_mem_type_1: u32_at(input, 24), max_mem_type_1: u32_at(input, 28) }
}

/// Decodes a PostScript table of any of the five known versions.
pub fn parse_post_script_table(input: &[u8]) -> (r: Result<(&[u8], PostScriptVersion), Error>)
    ensures
        spec_post_agrees(r, input@),
{
    if input.len() < 4 {
        return Err(Error::Truncated);
    }
    let version = i32_at(input, 0);
    if version != POST_VERSION_1_0 && version != POST_VERSION_2_0 && version != POST_VERSION_2_5
        && version != POST_VERSION_3_0 && version != POST_VERSION_4_0 {
        return Err(Error::InvalidDiscriminant(0));
    }
    if input.len() < POST_HEADER_SIZE {
        return Err(Error::Truncated);
    }
    let header = parse_post_script_header(input);
    if version == POST_VERSION_2_0 {
        if input.len() < 34 {
            return Err(Error::Truncated);
        }
        let num_glyphs = u16_at(input, 32);
        let n = num_glyphs as usize;
        if input.len() < 34 + 2 * n {
            return Err(Error::Truncated);
        }
        let mut glyph_name_indexes: Vec<u16> = Vec::new();
        let mut k: usize = 0;
        while k < n
            invariant
                k <= n,
                n == num_glyphs,
                34 + 2 * n <= input@.len(),
                glyph_name_indexes@ == spec_u16s(input@, 34, k as int),
            decreases n - k,
        {
            glyph_name_indexes.push(u16_at(input, 34 + 2 * k));
            k = k + 1;
            assert(glyph_name_indexes@ =~= spec_u16s(input@, 34, k as int));
        }
        let table = PostScriptTableV20 { header, num_glyphs, glyph_name_indexes };
        return Ok((slice_range(input, 34 + 2 * n, input.len()), PostScriptVersion::Version_2_0(table)));
    }
    let v = if version == POST_VERSION_1_0 {
        PostScriptVersion::Version_1_0(header)
    } else if version == POST_VERSION_2_5 {
        PostScriptVersion::Version_2_5(header)
    } else if version == POST_VERSION_3_0 {
        PostScriptVersion::Version_3_0(header)
    } else {
        PostScriptVersion::Version_4_0(header)
    };
    Ok((slice_range(input, POST_HEADER_SIZE, input.len()), v))
}

/// End of the first `k` Pascal strings of `b`: each is a length byte and
/// that many bytes.
pub open spec fn spec_pascal_end(b: Seq<u8>, k: int) -> int
    decreases k,
{
    if k <= 0 {
        0
    } else {
        let p = spec_pascal_end(b, k - 1);
        p + 1 + b[p] as int
    }
}

/// The bytes of the `k`-th Pascal string of `b`.
pub open spec fn spec_pascal_bytes(b: Seq<u8>, k: int) -> Seq<u8> {
    b.subrange(spec_pascal_end(b, k) + 1, spec_pascal_end(b, k + 1))
}

/// The `k`-th Pascal string of `b` lies in `b` and is valid UTF-8.
pub open spec fn spec_pascal_ok(b: Seq<u8>, k: int) -> bool {
    spec_pascal_end(b, k) < b.len() && spec_pascal_end(b, k + 1) <= b.len() && valid_utf8(
        spec_pascal_bytes(b, k),
    )
}

/// Why the `k`-th Pascal string of `b` cannot be read.
pub open spec fn spec_pascal_error(b: Seq<u8>, k: int) -> Error {
    if spec_pascal_end(b, k) >= b.len() || spec_pascal_end(b, k + 1) > b.len() {
        Error::Truncated
    } else {
        Error::MalformedInvariant
    }
}

/// `r` holds the first `n` Pascal strings of `b`, decoded from UTF-8, and the
/// bytes after them, or the error of the first one that cannot be read.
pub open spec fn spec_pascal_agrees(r: Result<(Seq<u8>, Seq<Seq<char>>), Error>, b: Seq<u8>, n: int) -> bool {
    match r {
        Ok((rest, v)) => (forall|k: int| 0 <= k < n ==> spec_pascal_ok(b, k)) && v.len() == n && (forall|
            k: int,
        |
            0 <= k < n ==> v[k] == decode_utf8(#[trigger] spec_pascal_bytes(b, k))) && rest == b.subrange(
            spec_pascal_end(b, n),
            b.len() as int,
        ),
        Err(e) => exists|k: int|
            0 <= k < n && (forall|j: int| 0 <= j < k ==> spec_pascal_ok(b, j)) && !spec_pascal_ok(b, k)
                && e == spec_pascal_error(b, k),
    }
}

/// `r` holds the first `n` Pascal strings of `b`, decoded from UTF-8, or the
/// error of the first one that cannot be read.
pub open spec fn spec_pascal_names_agree(r: Result<Seq<Seq<char>>, Error>, b: Seq<u8>, n: int) -> bool {
    spec_pascal_agrees(
        match r {
            Ok(v) => Ok((b.subrange(spec_pascal_end(b, n), b.len() as int), v)),
            Err(e) => Err(e),
        },
        b,
        n,
    )
}

/// Relies on `std::str::from_utf8`: it succeeds exactly on valid UTF-8, and
/// the text then holds the characters that the bytes encode.
#[verifier::external_body]
fn utf8_text(b: &[u8]) -> (r: Option<&str>)
    ensures
        r is Some <==> valid_utf8(b@),
        r matches Some(s) ==> s@ == decode_utf8(b@),
{
    std::str::from_utf8(b).ok()
}

/// Reads `length` Pascal strings (a length byte, then that many bytes of
/// UTF-8) from the front of `input`.
pub fn parse_pascal_strings(input: &[u8], length: usize) -> (r: Result<(&[u8], Vec<&str>), Error>)
    ensures
        spec_pascal_agrees(
            match r {
                Ok((rest, v)) => Ok((rest@, v@.map_values(|s: &str| s@))),
                Err(e) => Err(e),
            },
            input@,
            length as int,
        ),
{
    let mut out: Vec<&str> = Vec::new();
    let mut pos: usize = 0;
    let mut k: usize = 0;
    while k < length
        invariant
            k <= length,
            pos == spec_pascal_end(input@, k as int),
            pos <= input@.len(),
            out@.len() == k,
            forall|j: int| 0 <= j < k ==> spec_pascal_ok(input@, j),
            forall|j: int| 0 <= j < k ==> out@[j]@ == decode_utf8(#[trigger] spec_pascal_bytes(input@, j)),
        decreases length - k,
    {
        if pos >= input.len() {
            assert(!spec_pascal_ok(input@, k as int));
            assert(spec_pascal_error(input@, k as int) == Error::Truncated);
            return Err(Error::Truncated);
        }
        let n = input[pos] as usize;
        assert(spec_pascal_end(input@, k + 1) == pos + 1 + n);
        if n > input.len() - pos - 1 {
            assert(!spec_pascal_ok(input@, k as int));
            assert(spec_pascal_error(input@, k as int) == Error::Truncated);
            return Err(Error::Truncated);
        }
        let bytes = slice_range(input, pos + 1, pos + 1 + n);
        match utf8_text(bytes) {
            Some(s) => out.push(s),
            None => {
                assert(!spec_pascal_ok(input@, k as int));
                assert(spec_pascal_error(input@, k as int) == Error::MalformedInvariant);
                return Err(Error::MalformedInvariant);
            },
        }
        pos = pos + 1 + n;
        k = k + 1;
    }
    Ok((slice_range(input, pos, input.len()), out))
}

/// Reads `length` Pascal strings from the front of `input`, as
/// `parse_pascal_strings`, into owned strings.
pub fn parse_pascal_strings_to_owned(input: &[u8], length: usize) -> (r: Result<(&[u8], Vec<String>), Error>)
    ensures
        spec_pascal_agrees(
            match r {
                Ok((rest, v)) => Ok((rest@, v@.map_values(|s: String| s@))),
                Err(e) => Err(e),
            },
            input@,
            length as int,
        ),
{
    let (rest, strs) = parse_pascal_strings(input, length)?;
    let mut out: Vec<String> = Vec::new();
    let mut k: usize = 0;
    while k < strs.len()
        invariant
            k <= strs@.len(),
            out@.len() == k,
            forall|j: int| 0 <= j < k ==> out@[j]@ == strs@[j]@,
        decreases strs@.len() - k,
    {
        out.push(strs[k].to_owned());
        k = k + 1;
    }
    proof {
        assert(out@.map_values(|s: String| s@) =~= strs@.map_values(|s: &str| s@));
    }
    Ok((rest, out))
}

/// Number of the indexes in `s` that name a glyph by a Pascal string
/// (258 to 32767).
pub open spec fn spec_custom_name_count(s: Seq<u16>) -> int
    decreases s.len(),
{
    if s.len() == 0 {
        0
    } else {
        spec_custom_name_count(s.drop_last()) + if 258 <= s.last() <= 32767 {
            1int
        } else {
            0int
        }
    }
}

impl PostScriptTableV20 {
    /// Number of glyphs.
    pub fn num_glyphs(&self) -> (r: u16)
        ensures
            r == self.num_glyphs,
    {
        self.num_glyphs
    }

    /// The name index of each glyph.
    pub fn glyph_name_indexes(&self) -> (r: &[u16])
        ensures
            r@ == self.glyph_name_indexes@,
    {
        self.glyph_name_indexes.as_slice()
    }

    /// Number of glyphs whose name is a Pascal string of the table.
    pub fn custom_name_count(&self) -> (r: usize)
        ensures
            r == spec_custom_name_count(self.glyph_name_indexes@),
    {
        let s = &self.glyph_name_indexes;
        let mut n: usize = 0;
        let mut k: usize = 0;
        while k < s.len()
            invariant
                k <= s@.len(),
                s@ == self.glyph_name_indexes@,
                n <= k,
                n == spec_custom_name_count(s@.subrange(0, k as int)),
            decreases s@.len() - k,
        {
            assert(s@.subrange(0, k + 1).drop_last() =~= s@.subrange(0, k as int));
            if 258 <= s[k] && s[k] <= 32767 {
                n = n + 1;
            }
            k = k + 1;
        }
        assert(s@.subrange(0, s@.len() as int) =~= s@);
        n
    }

    /// The glyph names stored as Pascal strings in `input` (the bytes after
    /// the table's fixed part), one per glyph whose index is 258 or more.
    pub fn parse_glyph_names<'b>(&self, input: &'b [u8]) -> (r: Result<Vec<&'b str>, Error>)
        ensures
            spec_pascal_names_agree(
                match r {
                    Ok(v) => Ok(v@.map_values(|s: &str| s@)),
                    Err(e) => Err(e),
                },
                input@,
                spec_custom_name_count(self.glyph_name_indexes@),
            ),
    {
        let count = self.custom_name_count();
        let r = parse_pascal_strings(input, count);
        match r {
            Ok((rest, names)) => {
                assert(spec_pascal_agrees(Ok((rest@, names@.map_values(|s: &str| s@))), input@, count as int));
                Ok(names)
            },
            Err(e) => {
                assert(spec_pascal_agrees(Err(e), input@, count as int));
                Err(e)
            },
        }
    }

    /// As `parse_glyph_names`, into owned strings.
    pub fn parse_glyph_names_to_owned(&self, input: &[u8]) -> (r: Result<Vec<String>, Error>)
        ensures
            spec_pascal_names_agree(
                match r {
                    Ok(v) => Ok(v@.map_values(|s: String| s@)),
                    Err(e) => Err(e),
                },
                input@,
                spec_custom_name_count(self.glyph_name_indexes@),
            ),
    {
        let count = self.custom_name_count();
        let r = parse_pascal_strings_to_owned(input, count);
        match r {
            Ok((rest, names)) => {
                assert(spec_pascal_agrees(Ok((rest@, names@.map_values(|s: String| s@))), input@, count as int));
                Ok(names)
            },
            Err(e) => {
                assert(spec_pascal_agrees(Err(e), input@, count as int));
                Err(e)
            },
        }
    }

    /// Italic angle in counter-clockwise degrees from the vertical (16.16 fixed point).
    pub fn italic_angle(&self) -> (r: i32)
        ensures
            r == self.header.italic_angle,
    {
        self.header.italic_angle
    }

    /// Suggested distance of the top of the underline from the baseline.
    pub fn underline_position(&self) -> (r: i16)
        ensures
            r == self.header.underline_position,
    {
        self.header.underline_position
    }

    /// Suggested thickness of the underline.
    pub fn underline_thickness(&self) -> (r: i16)
        ensures
            r == self.header.underline_thickness,
    {
        self.header.underline_thickness
    }

    /// Nonzero when the font is monospaced.
    pub fn is_fixed_pitch(&self) -> (r: u32)
        ensures
            r == self.header.is_fixed_pitch,
    {
        self.header.is_fixed_pitch
    }

    /// Least memory use when the font is downloaded as a Type 42 font.
    pub fn min_mem_type_42(&self) -> (r: u32)
        ensures
            r == self.header.min_mem_type_42,
    {
        self.header.min_mem_type_42
    }

    /// Most memory use when the font is downloaded as a Type 42 font.
    pub fn max_mem_type_42(&self) -> (r: u32)
        ensures
            r == self.header.max_mem_type_42,
    {
        self.header.max_mem_type_42
    }

    /// Least memory use when the font is downloaded as a Type 1 font.
    pub fn min_mem_type_1(&self) -> (r: u32)
        ensures
            r == self.header.min_mem_type_1,
    {
        self.header.min_mem_type_1
    }

    /// Most memory use when the font is downloaded as a Type 1 font.
    pub fn max_mem_type_1(&self) -> (r: u32)
        ensures
            r == self.header.max_mem_type_1,
    {
        self.header.max_mem_type_1
    }
}

} // verus!
