//! The time axis: calendar positions to horizontal coordinates and back.
//!
//! Coordinates are whole ticks, 1200 to the pixel. A scale is a whole number
//! of ticks per month, which is the same number of hundredths of a pixel per
//! year. With these units the coordinate of every month is exact.

use vstd::prelude::*;
use vstd::arithmetic::div_mod::lemma_fundamental_div_mod_converse;
use crate::model::{key_le, PartialDate};

verus! {

/// Ticks in one pixel.
pub const TICKS_PER_PIXEL: i64 = 1200;

/// Width of the column of row labels left of the axis: 200 pixels.
pub const LEFT_MARGIN: i64 = 240_000;

/// The year at the left end of the axis.
pub const START_YEAR: i32 = 1970;

/// The year at the right end of the axis.
pub const END_YEAR: i32 = 2025;

/// The largest scale the layout works with: a million pixels per year.
pub const MAX_SCALE: u32 = 100_000_000;

/// Ticks per year at the given scale.
pub open spec fn year_ticks(scale: int) -> int {
    12 * scale
}

/// Whole months from January of `START_YEAR` to the month of `date`; a date
/// known to the year only stands at its January.
pub open spec fn months_from_start(date: PartialDate) -> int {
    12 * (date.key().0 - START_YEAR) + (date.key().1 - 1)
}

/// The coordinate of the month of `date`.
pub open spec fn x_of_date(date: PartialDate, scale: int) -> int {
    LEFT_MARGIN + months_from_start(date) * scale
}

/// The year under coordinate `x`: whole years from the axis start, counted
/// towards the start on either side of it.
pub open spec fn year_at(x: int, scale: int) -> int {
    let offset = x - LEFT_MARGIN;
    if offset >= 0 {
        START_YEAR + offset / year_ticks(scale)
    } else {
        START_YEAR - (-offset) / year_ticks(scale)
    }
}

/// `m` held to the months of a year.
pub open spec fn clamp_month(m: int) -> int {
    if m < 1 {
        1
    } else if m > 12 {
        12
    } else {
        m
    }
}

/// The month under coordinate `x`: the whole months into the year, held to
/// 1..=12. Left of the axis start it is 1.
pub open spec fn month_at(x: int, scale: int) -> int {
    let offset = x - LEFT_MARGIN;
    if offset >= 0 {
        clamp_month((offset % year_ticks(scale)) / scale)
    } else {
        1
    }
}

/// Width of the whole timeline at the given scale, label column included.
pub open spec fn timeline_width(scale: int) -> int {
    LEFT_MARGIN + year_ticks(scale) * (END_YEAR - START_YEAR)
}

/// The least scale at which the timeline is as wide as `available_width`.
pub open spec fn fitting_scale(available_width: int) -> int {
    let span = available_width - LEFT_MARGIN;
    let years = 12 * (END_YEAR - START_YEAR);
    if span <= 0 {
        0
    } else {
        (span + years - 1) / years
    }
}

/// Years between two grid lines: 1 from 50 pixels per year up, 2 from 25,
/// 5 from 10, and 10 below that.
pub open spec fn grid_step(scale: int) -> int {
    if scale >= 5000 {
        1
    } else if scale >= 2500 {
        2
    } else if scale >= 1000 {
        5
    } else {
        10
    }
}

/// The coordinate of a date at the given scale.
pub fn date_to_x(date: PartialDate, scale: u32) -> (x: i64)
    requires
        scale <= MAX_SCALE,
    ensures
        x == x_of_date(date, scale as int),
{
    let (year, month) = match date {
        PartialDate::Year { y } => (y, 1u8),
        PartialDate::YearMonth { y, m } | PartialDate::YearMonthDay { y, m, .. } => (y, m),
    };
    let months: i64 = 12 * (year as i64 - START_YEAR as i64) + (month as i64 - 1);
    assert(-2_600_000_000_000_000_000 <= months * (scale as i64)
        <= 2_600_000_000_000_000_000) by (nonlinear_arith)
        requires
            -26_000_000_000 <= months <= 26_000_000_000,
            0 <= scale <= 100_000_000,
    ;
    LEFT_MARGIN + months * (scale as i64)
}

/// The year and month under a coordinate at the given scale.
pub fn x_to_date(x: i64, scale: u32) -> (date: PartialDate)
    requires
        scale >= 1,
        i32::MIN <= year_at(x as int, scale as int) <= i32::MAX,
    ensures
        date == (PartialDate::YearMonth {
            y: year_at(x as int, scale as int) as i32,
            m: month_at(x as int, scale as int) as u8,
        }),
        1 <= month_at(x as int, scale as int) <= 12,
{
    let offset: i128 = x as i128 - LEFT_MARGIN as i128;
    let per_year: i128 = 12 * (scale as i128);
    if offset >= 0 {
        let years: i128 = offset / per_year;
        let months: i128 = (offset % per_year) / (scale as i128);
        let month: u8 = if months < 1 {
            1
        } else if months > 12 {
            12
        } else {
            months as u8
        };
        PartialDate::YearMonth { y: (START_YEAR as i128 + years) as i32, m: month }
    } else {
        let years: i128 = (-offset) / per_year;
        PartialDate::YearMonth { y: (START_YEAR as i128 - years) as i32, m: 1 }
    }
}

/// The scale to use when `available_width` is on offer and `stored` was used
/// before: the stored one, raised as far as the timeline needs to fill the
/// width. It never comes out smaller than it went in.
pub fn fit_scale(stored: u32, available_width: i64) -> (scale: u32)
    requires
        fitting_scale(available_width as int) <= u32::MAX,
    ensures
        scale == vstd::math::max(stored as int, fitting_scale(available_width as int)),
{
    if available_width <= LEFT_MARGIN {
        stored
    } else {
        let span: i64 = available_width - LEFT_MARGIN;
        let years: i64 = 12 * (END_YEAR as i64 - START_YEAR as i64);
        let needed: i64 = (span + years - 1) / years;
        if needed > stored as i64 {
            needed as u32
        } else {
            stored
        }
    }
}

/// Years between two grid lines at the given scale.
pub fn year_step(scale: u32) -> (step: i32)
    ensures
        step == grid_step(scale as int),
{
    if scale >= 5000 {
        1
    } else if scale >= 2500 {
        2
    } else if scale >= 1000 {
        5
    } else {
        10
    }
}

/// Mapping the first of a month to its coordinate and back gives the same
/// year, and the month before it, or January for January and February: the
/// month read off a coordinate is never more than one off. This holds from
/// the axis start on, and for every January before it.
pub proof fn lemma_round_trip(y: i32, m: u8, scale: u32)
    requires
        1 <= m <= 12,
        scale >= 1,
        y >= START_YEAR || m == 1,
    ensures
        year_at(x_of_date(PartialDate::YearMonth { y, m }, scale as int), scale as int) == y,
        month_at(x_of_date(PartialDate::YearMonth { y, m }, scale as int), scale as int) == (if m
            == 1 {
            1int
        } else {
            m - 1
        }),
{
    let s = scale as int;
    let x = x_of_date(PartialDate::YearMonth { y, m }, s);
    let offset = x - LEFT_MARGIN;
    let whole = y - START_YEAR;
    let part = (m - 1) * s;
    assert(offset == whole * (12 * s) + part && 0 <= part < 12 * s) by (nonlinear_arith)
        requires
            offset == (12 * whole + (m - 1)) * s,
            part == (m - 1) * s,
            1 <= m <= 12,
            s >= 1,
    ;
    if y >= START_YEAR {
        assert(offset >= 0) by (nonlinear_arith)
            requires
                offset == whole * (12 * s) + part,
                whole >= 0,
                part >= 0,
                s >= 1,
        ;
        lemma_fundamental_div_mod_converse(offset, 12 * s, whole, part);
        lemma_fundamental_div_mod_converse(part, s, m - 1, 0);
    } else {
        assert(part == 0) by (nonlinear_arith)
            requires
                part == (m - 1) * s,
                m == 1,
        ;
        assert(-offset == (-whole) * (12 * s)) by (nonlinear_arith)
            requires
                offset == whole * (12 * s),
        ;
        lemma_fundamental_div_mod_converse(-offset, 12 * s, -whole, 0);
    }
}

/// At a fixed scale a later date never lies left of an earlier one.
pub proof fn lemma_date_to_x_monotone(a: PartialDate, b: PartialDate, scale: u32)
    requires
        a.is_calendar(),
        b.is_calendar(),
        key_le(a.key(), b.key()),
    ensures
        x_of_date(a, scale as int) <= x_of_date(b, scale as int),
{
    let s = scale as int;
    let ma = months_from_start(a);
    let mb = months_from_start(b);
    assert(ma <= mb);
    assert(ma * s <= mb * s) by (nonlinear_arith)
        requires
            ma <= mb,
            s >= 0,
    ;
}

/// A larger scale puts two dates of different months strictly further apart.
pub proof fn lemma_scale_spreads_dates(a: PartialDate, b: PartialDate, narrow: u32, wide: u32)
    requires
        narrow < wide,
        months_from_start(a) != months_from_start(b),
    ensures
        vstd::math::abs(x_of_date(b, narrow as int) - x_of_date(a, narrow as int)) < vstd::math::abs(
            x_of_date(b, wide as int) - x_of_date(a, wide as int),
        ),
{
    let ma = months_from_start(a);
    let mb = months_from_start(b);
    let n = narrow as int;
    let w = wide as int;
    assert(mb * n - ma * n == (mb - ma) * n && mb * w - ma * w == (mb - ma) * w) by (nonlinear_arith);
    if mb > ma {
        assert(0 <= (mb - ma) * n < (mb - ma) * w) by (nonlinear_arith)
            requires
                mb - ma > 0,
                0 <= n < w,
        ;
    } else {
        assert(0 <= (ma - mb) * n < (ma - mb) * w) by (nonlinear_arith)
            requires
                ma - mb > 0,
                0 <= n < w,
        ;
        assert((mb - ma) * n == -((ma - mb) * n) && (mb - ma) * w == -((ma - mb) * w))
            by (nonlinear_arith);
    }
}

/// The fitting scale fills the available width, and no smaller scale does.
pub proof fn lemma_fitting_scale_is_least(available_width: int, smaller: int)
    ensures
        timeline_width(fitting_scale(available_width)) >= available_width,
        0 <= smaller < fitting_scale(available_width) ==> timeline_width(smaller)
            < available_width,
{
    let full = fitting_scale(available_width);
    let span = available_width - LEFT_MARGIN;
    assert(12 * (END_YEAR - START_YEAR) == 660);
    assert(full == if span <= 0 {
        0
    } else {
        (span + 659) / 660
    });
    assert(timeline_width(full) == LEFT_MARGIN + 660 * full) by (nonlinear_arith);
    assert(timeline_width(smaller) == LEFT_MARGIN + 660 * smaller) by (nonlinear_arith);
}

} // verus!
