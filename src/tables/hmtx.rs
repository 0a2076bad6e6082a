//! The horizontal metrics table (`hmtx`).
use crate::codec::{i16_at, slice_range, spec_i16, spec_u16, u16_at};
use crate::error::Error;
use vstd::prelude::*;

verus! {

/// Advance width and left side bearing of one glyph.
#[derive(Debug, Clone, Copy, PartialEq, Eq, Structural)]
pub struct LongHorMetricRecord {
    pub advance_width: u16,
    pub lsb: i16,
}

impl LongHorMetricRecord {
    /// Advance width, in font units.
    pub fn advance_width(&self) -> (r: u16)
        ensures
            r == self.advance_width,
    {
        self.advance_width
    }

    /// Left side bearing, in font units.
    pub fn lsb(&self) -> (r: i16)
        ensures
            r == self.lsb,
    {
        self.lsb
    }
}

/// Metrics of every glyph: full records for the first glyphs, then left side
/// bearings alone for the glyphs that share the last advance width.
#[derive(Debug, Clone, PartialEq, Eq)]
pub struct HorizontalMetricsTable {
    pub h_metrics: Vec<LongHorMetricRecord>,
    pub left_side_bearings: Vec<i16>,
}

/// Number of glyphs that have a left side bearing alone.
pub open spec fn spec_lsb_count(number_of_hmetrics: u16, num_glyphs: u16) -> int {
    if number_of_hmetrics < num_glyphs {
        num_glyphs - number_of_hmetrics
    } else {
        0
    }
}

/// Size in bytes of the table.
pub open spec fn spec_hmtx_size(number_of_hmetrics: u16, num_glyphs: u16) -> int {
    4 * number_of_hmetrics + 2 * spec_lsb_count(number_of_hmetrics, num_glyphs)
}

/// The `n` metric records at the front of `b`.
pub open spec fn spec_metrics(b: Seq<u8>, n: int) -> Seq<LongHorMetricRecord> {
    Seq::new(
        n as nat,
        |k: int| LongHorMetricRecord { advance_width: spec_u16(b, 4 * k), lsb: spec_i16(b, 4 * k + 2) },
    )
}

/// The `n` left side bearings that start at `b[i]`.
pub open spec fn spec_bearings(b: Seq<u8>, i: int, n: int) -> Seq<i16> {
    Seq::new(n as nat, |k: int| spec_i16(b, i + 2 * k))
}

impl HorizontalMetricsTable {
    /// The full metric records.
    pub fn h_metrics(&self) -> (r: &Vec<LongHorMetricRecord>)
        ensures
            r@ == self.h_metrics@,
    {
        &self.h_metrics
    }

    /// The left side bearings of the remaining glyphs.
    pub fn left_side_bearings(&self) -> (r: &[i16])
        ensures
            r@ == self.left_side_bearings@,
    {
        self.left_side_bearings.as_slice()
    }

    /// Decodes the table, given the record count from `hhea` and the glyph
    /// count from `maxp`.
    pub fn parse(buf: &[u8], number_of_hmetrics: u16, num_glyphs: u16) -> (r: Result<
        HorizontalMetricsTable,
        Error,
    >)
        ensures
            buf@.len() < spec_hmtx_size(number_of_hmetrics, num_glyphs) ==> r
                == Err::<HorizontalMetricsTable, Error>(Error::Truncated),
            buf@.len() >= spec_hmtx_size(number_of_hmetrics, num_glyphs) ==> (r matches Ok(t)
                && t.h_metrics@ == spec_metrics(buf@, number_of_hmetrics as int)
                && t.left_side_bearings@ == spec_bearings(
                buf@,
                4 * number_of_hmetrics,
                spec_lsb_count(number_of_hmetrics, num_glyphs),
            )),
    {
        match parse_horizontal_metrics_table(buf, number_of_hmetrics, num_glyphs) {
            Ok((_, t)) => Ok(t),
            Err(e) => Err(e),
        }
    }
}

/// Decodes the table from the front of `input`, given the record count from
/// `hhea` and the glyph count from `maxp`.
pub fn parse_horizontal_metrics_table(input: &[u8], number_of_hmetrics: u16, num_glyphs: u16) -> (r:
    Result<(&[u8], HorizontalMetricsTable), Error>)
    ensures
        input@.len() < spec_hmtx_size(number_of_hmetrics, num_glyphs) ==> r == Err::<
            (&[u8], HorizontalMetricsTable),
            Error,
        >(Error::Truncated),
        input@.len() >= spec_hmtx_size(number_of_hmetrics, num_glyphs) ==> (r matches Ok((rest, t))
            && t.h_metrics@ == spec_metrics(input@, number_of_hmetrics as int)
            && t.left_side_bearings@ == spec_bearings(
            input@,
            4 * number_of_hmetrics,
            spec_lsb_count(number_of_hmetrics, num_glyphs),
        ) && rest@ == input@.subrange(
            spec_hmtx_size(number_of_hmetrics, num_glyphs),
            input@.len() as int,
        )),
{
    let n = number_of_hmetrics as usize;
    let m: usize = if number_of_hmetrics < num_glyphs {
        (num_glyphs - number_of_hmetrics) as usize
    } else {
        0
    };
    let size = 4 * n + 2 * m;
    if input.len() < size {
        return Err(Error::Truncated);
    }
    let mut h_metrics: Vec<LongHorMetricRecord> = Vec::new();
    let mut k: usize = 0;
    while k < n
        invariant
            k <= n,
            n == number_of_hmetrics,
            size == 4 * n + 2 * m,
            size <= input@.len(),
            h_metrics@ == spec_metrics(input@, k as int),
        decreases n - k,
    {
        h_metrics.push(
            LongHorMetricRecord { advance_width: u16_at(input, 4 * k), lsb: i16_at(input, 4 * k + 2) },
        );
        k = k + 1;
        assert(h_metrics@ =~= spec_metrics(input@, k as int));
    }
    let mut left_side_bearings: Vec<i16> = Vec::new();
    let mut k: usize = 0;
    while k < m
        invariant
            k <= m,
            size == 4 * n + 2 * m,
            size <= input@.len(),
            left_side_bearings@ == spec_bearings(input@, 4 * n, k as int),
        decreases m - k,
    {
        left_side_bearings.push(i16_at(input, 4 * n + 2 * k));
        k = k + 1;
        assert(left_side_bearings@ =~= spec_bearings(input@, 4 * n, k as int));
    }
    Ok((slice_range(input, size, input.len()), HorizontalMetricsTable { h_metrics, left_side_bearings }))
}

} // verus!
