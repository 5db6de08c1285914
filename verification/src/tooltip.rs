//! The tooltip of a console: its sales, market by market.

use vstd::prelude::*;
use vstd::string::StringExecFns;
use crate::model::{Console, Measure, MeasureKind, Region};
use crate::text::{append_decimal, append_two_digits, decimal, two_digits};

verus! {

/// The line above the rows of a tooltip.
pub const HEADING: &'static str = "Sales:";

/// What the host shows beside a row whose figure has no source.
pub const UNVERIFIED_MARKER: &'static str = "\u{26a0} Unverified";

/// One row of the tooltip: the sales in one market, written out, and whether
/// the figure lacks a source.
#[derive(Debug, Clone, PartialEq, Eq)]
pub struct SalesRow {
    pub region: Region,
    pub text: String,
    pub unverified: bool,
}

/// What a row holds.
pub struct SalesRowView {
    pub region: Region,
    pub text: Seq<char>,
    pub unverified: bool,
}

impl View for SalesRow {
    type V = SalesRowView;

    open spec fn view(&self) -> SalesRowView {
        SalesRowView { region: self.region, text: self.text@, unverified: self.unverified }
    }
}

/// `units` in hundredths of a million, rounded to the nearest; a half rounds
/// up.
pub open spec fn hundredths_of_millions(units: u64) -> nat {
    ((units + 5_000) / 10_000) as nat
}

/// What a row starts with, which names the market. The names end in one
/// column.
pub open spec fn region_label(region: Region) -> Seq<char> {
    match region {
        Region::Global => "  Global: "@,
        Region::JP => "    JP: "@,
        Region::NA => "    NA: "@,
        Region::EU => "    EU: "@,
    }
}

/// The text of a row: the market, then the units in millions with two
/// decimal places, then the letter M.
pub open spec fn sales_text(region: Region, units: u64) -> Seq<char> {
    let hundredths = hundredths_of_millions(units);
    region_label(region) + decimal(hundredths / 100) + seq!['.'] + two_digits(hundredths % 100)
        + " M"@
}

/// The row of one measure of units sold. Its figure is unverified exactly
/// when the measure names no source.
pub open spec fn row_of(measure: Measure) -> SalesRowView {
    SalesRowView {
        region: measure.region,
        text: sales_text(measure.region, measure.value.point),
        unverified: measure.source is None,
    }
}

/// The rows of a tooltip: one for each measure of units sold, in the order
/// of the measures. Measures of other kinds give no row.
pub open spec fn sales_rows(measures: Seq<Measure>) -> Seq<SalesRowView>
    decreases measures.len(),
{
    if measures.len() == 0 {
        Seq::empty()
    } else if measures.last().kind == MeasureKind::UnitsSold {
        sales_rows(measures.drop_last()).push(row_of(measures.last()))
    } else {
        sales_rows(measures.drop_last())
    }
}

/// What a sequence of rows holds.
pub open spec fn views_of(rows: Seq<SalesRow>) -> Seq<SalesRowView> {
    rows.map_values(|row: SalesRow| row@)
}

fn region_prefix(region: Region) -> (s: &'static str)
    ensures
        s@ == region_label(region),
{
    match region {
        Region::Global => "  Global: ",
        Region::JP => "    JP: ",
        Region::NA => "    NA: ",
        Region::EU => "    EU: ",
    }
}

/// Writes out the sales of one market: `units` in millions with two decimal
/// places, after the name of the market.
pub fn sales_line(region: Region, units: u64) -> (line: String)
    ensures
        line@ == sales_text(region, units),
{
    let hundredths: u64 = units / 10_000 + if units % 10_000 >= 5_000 {
        1
    } else {
        0
    };
    proof {
        reveal_strlit(".");
    }
    let mut line = String::from_str(region_prefix(region));
    append_decimal(&mut line, hundredths / 100);
    line.append(".");
    append_two_digits(&mut line, hundredths % 100);
    line.append(" M");
    assert(line@ =~= sales_text(region, units));
    line
}

/// The rows of the tooltip of `console`.
pub fn sales_tooltip(console: &Console) -> (rows: Vec<SalesRow>)
    ensures
        views_of(rows@) == sales_rows(console.measures@),
{
    let mut rows: Vec<SalesRow> = Vec::new();
    let mut i: usize = 0;
    assert(console.measures@.take(0) =~= Seq::empty());
    while i < console.measures.len()
        invariant
            0 <= i <= console.measures@.len(),
            views_of(rows@) =~= sales_rows(console.measures@.take(i as int)),
        decreases console.measures@.len() - i,
    {
        let measure = &console.measures[i];
        let ghost before = rows@;
        proof {
            let upto = console.measures@.take(i + 1);
            assert(upto.drop_last() =~= console.measures@.take(i as int));
            assert(upto.last() == console.measures@[i as int]);
        }
        if measure.kind == MeasureKind::UnitsSold {
            let row = SalesRow {
                region: measure.region,
                text: sales_line(measure.region, measure.value.point),
                unverified: measure.source.is_none(),
            };
            rows.push(row);
            assert(views_of(rows@) =~= views_of(before).push(row_of(*measure)));
        }
        i += 1;
    }
    assert(console.measures@.take(i as int) =~= console.measures@);
    rows
}

/// Every measure of units sold has its row in the tooltip, and that row
/// carries the unverified mark exactly when the measure names no source.
pub proof fn lemma_units_sold_has_row(measures: Seq<Measure>, i: int)
    requires
        0 <= i < measures.len(),
        measures[i].kind == MeasureKind::UnitsSold,
    ensures
        exists|k: int|
            0 <= k < sales_rows(measures).len() && #[trigger] sales_rows(measures)[k] == row_of(
                measures[i],
            ) && sales_rows(measures)[k].unverified == (measures[i].source is None),
    decreases measures.len(),
{
    let rest = measures.drop_last();
    if i == measures.len() - 1 {
        let k = sales_rows(rest).len() as int;
        assert(sales_rows(measures)[k] == row_of(measures[i]));
    } else {
        lemma_units_sold_has_row(rest, i);
        let k = choose|k: int|
            0 <= k < sales_rows(rest).len() && #[trigger] sales_rows(rest)[k] == row_of(rest[i])
                && sales_rows(rest)[k].unverified == (rest[i].source is None);
        assert(sales_rows(measures)[k] == row_of(measures[i]));
    }
}

/// Every row of a tooltip stands for a measure of units sold, and carries
/// the unverified mark exactly when that measure names no source.
pub proof fn lemma_rows_mark_missing_sources(measures: Seq<Measure>, k: int)
    requires
        0 <= k < sales_rows(measures).len(),
    ensures
        exists|i: int|
            0 <= i < measures.len() && measures[i].kind == MeasureKind::UnitsSold
                && #[trigger] row_of(measures[i]) == sales_rows(measures)[k]
                && sales_rows(measures)[k].unverified == (measures[i].source is None),
    decreases measures.len(),
{
    let rest = measures.drop_last();
    if measures.last().kind == MeasureKind::UnitsSold && k == sales_rows(rest).len() {
        let i = measures.len() - 1;
        assert(row_of(measures[i]) == sales_rows(measures)[k]);
    } else {
        lemma_rows_mark_missing_sources(rest, k);
        let i = choose|i: int|
            0 <= i < rest.len() && rest[i].kind == MeasureKind::UnitsSold && #[trigger] row_of(
                rest[i],
            ) == sales_rows(rest)[k] && sales_rows(rest)[k].unverified == (rest[i].source is None);
        assert(row_of(measures[i]) == sales_rows(measures)[k]);
    }
}

} // verus!
