//! The catalog: lineages, consoles and their dated records.

use vstd::prelude::*;
use vstd::string::StringExecFns;
use crate::color::Color;
use crate::text::{append_signed, append_two_digits, signed_decimal, two_digits};

verus! {

/// A maker's family of consoles, in order of succession.
#[derive(Debug, Clone)]
pub struct Lineage {
    pub name: &'static str,
    pub maker: Maker,
    pub color: Color,
    pub consoles: &'static [Console],
}

/// One hardware platform. A console that can be laid out has at least one
/// release.
#[derive(Debug, Clone)]
pub struct Console {
    pub name: &'static str,
    pub short_name: &'static str,
    pub generation: Option<u8>,
    pub releases: &'static [Release],
    pub milestones: &'static [Milestone],
    pub measures: &'static [Measure],
    pub series: &'static [Series],
}

#[derive(Debug, Clone, Copy, PartialEq, Eq, Hash, Structural)]
pub enum Maker {
    Nintendo,
    Sony,
    Microsoft,
    Sega,
    Valve,
}

#[derive(Debug, Clone, Copy, PartialEq, Eq, Hash, Structural)]
pub enum Region {
    Global,
    JP,
    NA,
    EU,
}

/// A date known to the year, to the month or to the day.
#[derive(Debug, Clone, Copy, PartialEq, Eq, Structural)]
pub enum PartialDate {
    Year { y: i32 },
    YearMonth { y: i32, m: u8 },
    YearMonthDay { y: i32, m: u8, d: u8 },
}

/// Strict lexicographic order on (year, month, day) triples.
pub open spec fn key_lt(a: (int, int, int), b: (int, int, int)) -> bool {
    a.0 < b.0 || (a.0 == b.0 && (a.1 < b.1 || (a.1 == b.1 && a.2 < b.2)))
}

/// Lexicographic order on (year, month, day) triples.
pub open spec fn key_le(a: (int, int, int), b: (int, int, int)) -> bool {
    a == b || key_lt(a, b)
}

impl PartialDate {
    /// The (year, month, day) triple that orders dates; a month or day that
    /// is not known counts as 1.
    pub open spec fn key(self) -> (int, int, int) {
        match self {
            PartialDate::Year { y } => (y as int, 1, 1),
            PartialDate::YearMonth { y, m } => (y as int, m as int, 1),
            PartialDate::YearMonthDay { y, m, d } => (y as int, m as int, d as int),
        }
    }

    /// Month and day, where known, name a month of the year and a day of a month.
    pub open spec fn is_calendar(self) -> bool {
        match self {
            PartialDate::Year { .. } => true,
            PartialDate::YearMonth { m, .. } => 1 <= m <= 12,
            PartialDate::YearMonthDay { m, d, .. } => 1 <= m <= 12 && 1 <= d <= 31,
        }
    }

    /// The date written out: the year, then the month and the day where
    /// known, each in two digits after a hyphen.
    pub open spec fn text(self) -> Seq<char> {
        match self {
            PartialDate::Year { y } => signed_decimal(y as int),
            PartialDate::YearMonth { y, m } => signed_decimal(y as int) + seq!['-'] + two_digits(
                m as nat,
            ),
            PartialDate::YearMonthDay { y, m, d } => signed_decimal(y as int) + seq!['-']
                + two_digits(m as nat) + seq!['-'] + two_digits(d as nat),
        }
    }

    /// The date written out, as in `1990`, `1990-11` or `1990-11-21`.
    pub fn to_string(&self) -> (s: String)
        ensures
            s@ == self.text(),
    {
        proof {
            reveal_strlit("-");
        }
        let mut s = String::new();
        match *self {
            Self::Year { y } => {
                append_signed(&mut s, y as i64);
            },
            Self::YearMonth { y, m } => {
                append_signed(&mut s, y as i64);
                s.append("-");
                append_two_digits(&mut s, m as u64);
            },
            Self::YearMonthDay { y, m, d } => {
                append_signed(&mut s, y as i64);
                s.append("-");
                append_two_digits(&mut s, m as u64);
                s.append("-");
                append_two_digits(&mut s, d as u64);
            },
        }
        assert(s@ =~= self.text());
        s
    }

    pub fn year(&self) -> (y: i32)
        ensures
            y == self.key().0,
    {
        match *self {
            Self::Year { y } | Self::YearMonth { y, .. } | Self::YearMonthDay { y, .. } => y,
        }
    }

    /// Whether this date orders strictly before `other`.
    pub fn before(&self, other: &PartialDate) -> (earlier: bool)
        ensures
            earlier == key_lt(self.key(), other.key()),
    {
        let a = self.cmp_key();
        let b = other.cmp_key();
        a.0 < b.0 || (a.0 == b.0 && (a.1 < b.1 || (a.1 == b.1 && a.2 < b.2)))
    }

    pub fn cmp_key(&self) -> (k: (i32, u8, u8))
        ensures
            k.0 == self.key().0,
            k.1 == self.key().1,
            k.2 == self.key().2,
    {
        match *self {
            Self::Year { y } => (y, 1, 1),
            Self::YearMonth { y, m } => (y, m, 1),
            Self::YearMonthDay { y, m, d } => (y, m, d),
        }
    }
}

/// A dated event in the life of a console. `EndOfProduction` is the one kind
/// that marks a console as discontinued.
#[derive(Debug, Clone, Copy, PartialEq, Eq, Structural)]
pub enum MilestoneKind {
    EndOfProduction,
    LastFirstPartyGame,
    LastThirdPartyGame,
    LastUnitSold,
}

#[derive(Debug, Clone, Copy, PartialEq, Eq, Structural)]
pub enum SeriesKind {
    UnitsSoldPerYear,
    GamesReleasedPerYear,
}

#[derive(Debug, Clone, Copy, PartialEq, Eq, Structural)]
pub enum MeasureKind {
    UnitsSold,
    GamesReleased,
    AttachRate,
}

#[derive(Debug, Clone, Copy, PartialEq, Eq, Structural)]
pub struct TimePoint {
    pub year: i32,
    pub value: u64,
}

/// A figure with the bounds it is believed to lie between, where known.
#[derive(Debug, Clone, Copy, PartialEq, Eq)]
pub struct Estimate<T> {
    pub point: T,
    pub low: Option<T>,
    pub high: Option<T>,
}

/// Where a figure comes from. A measure without one is unverified.
#[derive(Debug, Clone, PartialEq, Eq)]
pub struct Source {
    pub label: &'static str,
    pub url: Option<&'static str>,
}

/// The launch in one market.
#[derive(Debug, Clone)]
pub struct Release {
    pub region: Region,
    pub date: PartialDate,
    pub source: Option<Source>,
}

#[derive(Debug, Clone)]
pub struct Milestone {
    pub kind: MilestoneKind,
    pub date: PartialDate,
    pub region: Option<Region>,
    pub source: Option<Source>,
}

/// A single figure as of some year.
#[derive(Debug, Clone)]
pub struct Measure {
    pub kind: MeasureKind,
    pub value: Estimate<u64>,
    pub region: Region,
    pub as_of_year: Option<i32>,
    pub source: Option<Source>,
}

/// A figure year by year.
#[derive(Debug, Clone)]
pub struct Series {
    pub kind: SeriesKind,
    pub points: &'static [TimePoint],
    pub region: Region,
    pub source: Option<Source>,
}

impl Console {
    /// `at` is where the earliest release stands: no release is earlier, and
    /// those before it in the list are strictly later.
    pub open spec fn is_earliest_release(self, at: int) -> bool {
        &&& 0 <= at < self.releases@.len()
        &&& forall|j: int|
            #![trigger self.releases@[j]]
            0 <= j < self.releases@.len() ==> key_le(
                self.releases@[at].date.key(),
                self.releases@[j].date.key(),
            )
        &&& forall|j: int|
            #![trigger self.releases@[j]]
            0 <= j < at ==> key_lt(self.releases@[at].date.key(), self.releases@[j].date.key())
    }

    /// Where the earliest release stands, for a console that has a release.
    pub open spec fn earliest_release_index(self) -> int {
        choose|at: int| self.is_earliest_release(at)
    }

    /// Some milestone marks the end of production.
    pub open spec fn is_discontinued(self) -> bool {
        exists|j: int|
            #![trigger self.milestones@[j]]
            0 <= j < self.milestones@.len() && self.milestones@[j].kind
                == MilestoneKind::EndOfProduction
    }

    /// `at` is where the latest end of production stands: none is later, and
    /// those after it in the list are strictly earlier.
    pub open spec fn is_latest_discontinuation(self, at: int) -> bool {
        &&& 0 <= at < self.milestones@.len()
        &&& self.milestones@[at].kind == MilestoneKind::EndOfProduction
        &&& forall|j: int|
            #![trigger self.milestones@[j]]
            0 <= j < self.milestones@.len() && self.milestones@[j].kind
                == MilestoneKind::EndOfProduction ==> key_le(
                self.milestones@[j].date.key(),
                self.milestones@[at].date.key(),
            )
        &&& forall|j: int|
            #![trigger self.milestones@[j]]
            at < j < self.milestones@.len() && self.milestones@[j].kind
                == MilestoneKind::EndOfProduction ==> key_lt(
                self.milestones@[j].date.key(),
                self.milestones@[at].date.key(),
            )
    }

    /// Where the latest end of production stands, if there is any.
    pub open spec fn latest_discontinuation_index(self) -> Option<int> {
        if self.is_discontinued() {
            Some(choose|at: int| self.is_latest_discontinuation(at))
        } else {
            None
        }
    }

    /// At most one position is that of the earliest release.
    pub proof fn lemma_earliest_release_unique(self, a: int, b: int)
        requires
            self.is_earliest_release(a),
            self.is_earliest_release(b),
        ensures
            a == b,
    {
        if a < b {
            assert(key_lt(self.releases@[b].date.key(), self.releases@[a].date.key()));
            assert(key_le(self.releases@[a].date.key(), self.releases@[b].date.key()));
        } else if b < a {
            assert(key_lt(self.releases@[a].date.key(), self.releases@[b].date.key()));
            assert(key_le(self.releases@[b].date.key(), self.releases@[a].date.key()));
        }
    }

    /// At most one position is that of the latest end of production.
    pub proof fn lemma_latest_discontinuation_unique(self, a: int, b: int)
        requires
            self.is_latest_discontinuation(a),
            self.is_latest_discontinuation(b),
        ensures
            a == b,
    {
        if a < b {
            assert(key_lt(self.milestones@[b].date.key(), self.milestones@[a].date.key()));
            assert(key_le(self.milestones@[a].date.key(), self.milestones@[b].date.key()));
        } else if b < a {
            assert(key_lt(self.milestones@[a].date.key(), self.milestones@[b].date.key()));
            assert(key_le(self.milestones@[b].date.key(), self.milestones@[a].date.key()));
        }
    }

    /// The position of the earliest release; of several on the earliest
    /// date, the first.
    pub fn earliest_release(&self) -> (at: usize)
        requires
            self.releases@.len() > 0,
        ensures
            self.is_earliest_release(at as int),
            at == self.earliest_release_index(),
    {
        let mut best: usize = 0;
        let mut i: usize = 1;
        while i < self.releases.len()
            invariant
                1 <= i <= self.releases@.len(),
                0 <= best < i,
                forall|j: int|
                    #![trigger self.releases@[j]]
                    0 <= j < i ==> key_le(
                        self.releases@[best as int].date.key(),
                        self.releases@[j].date.key(),
                    ),
                forall|j: int|
                    #![trigger self.releases@[j]]
                    0 <= j < best ==> key_lt(
                        self.releases@[best as int].date.key(),
                        self.releases@[j].date.key(),
                    ),
            decreases self.releases@.len() - i,
        {
            if self.releases[i].date.before(&self.releases[best].date) {
                best = i;
            }
            i += 1;
        }
        proof {
            assert(self.is_earliest_release(best as int));
            self.lemma_earliest_release_unique(best as int, self.earliest_release_index());
        }
        best
    }

    /// The position of the latest milestone that ends production; of several
    /// on the latest date, the last. `None` where production has not ended.
    pub fn latest_discontinuation(&self) -> (found: Option<usize>)
        ensures
            match found {
                Some(at) => self.is_latest_discontinuation(at as int),
                None => !self.is_discontinued(),
            },
            found.is_some() == self.is_discontinued(),
            found matches Some(at) ==> self.latest_discontinuation_index() == Some(at as int),
    {
        let mut found: Option<usize> = None;
        let mut i: usize = 0;
        while i < self.milestones.len()
            invariant
                0 <= i <= self.milestones@.len(),
                found is None ==> forall|j: int|
                    #![trigger self.milestones@[j]]
                    0 <= j < i ==> self.milestones@[j].kind != MilestoneKind::EndOfProduction,
                found matches Some(at) ==> {
                    &&& at < i
                    &&& self.milestones@[at as int].kind == MilestoneKind::EndOfProduction
                    &&& forall|j: int|
                        #![trigger self.milestones@[j]]
                        0 <= j < i && self.milestones@[j].kind == MilestoneKind::EndOfProduction
                            ==> key_le(
                            self.milestones@[j].date.key(),
                            self.milestones@[at as int].date.key(),
                        )
                    &&& forall|j: int|
                        #![trigger self.milestones@[j]]
                        at < j < i && self.milestones@[j].kind == MilestoneKind::EndOfProduction
                            ==> key_lt(
                            self.milestones@[j].date.key(),
                            self.milestones@[at as int].date.key(),
                        )
                },
            decreases self.milestones@.len() - i,
        {
            if self.milestones[i].kind == MilestoneKind::EndOfProduction {
                found = match found {
                    None => Some(i),
                    Some(at) => if self.milestones[i].date.before(&self.milestones[at].date) {
                        Some(at)
                    } else {
                        Some(i)
                    },
                };
            }
            i += 1;
        }
        proof {
            match found {
                Some(at) => {
                    assert(self.is_latest_discontinuation(at as int));
                    assert(self.is_discontinued());
                    self.lemma_latest_discontinuation_unique(
                        at as int,
                        self.latest_discontinuation_index().unwrap(),
                    );
                },
                None => {},
            }
        }
        found
    }
}

/// Why a catalog cannot be laid out.
#[derive(Debug, Clone, Copy, PartialEq, Eq, Structural)]
pub enum CatalogError {
    /// The console at position `console` of the lineage at position
    /// `lineage` has no release.
    NoRelease { lineage: usize, console: usize },
}

/// The console at position `console` of the lineage at position `lineage`
/// has no release.
pub open spec fn lacks_release(lineages: Seq<Lineage>, lineage: int, console: int) -> bool {
    &&& 0 <= lineage < lineages.len()
    &&& 0 <= console < lineages[lineage].consoles@.len()
    &&& lineages[lineage].consoles@[console].releases@.len() == 0
}

/// Every console of every lineage has a release.
pub open spec fn catalog_ok(lineages: Seq<Lineage>) -> bool {
    forall|l: int, c: int| !lacks_release(lineages, l, c)
}

/// Checks that every console has a release, which the layout of its bar
/// needs. The error names the first console without one.
pub fn validate(lineages: &[Lineage]) -> (checked: Result<(), CatalogError>)
    ensures
        checked is Ok <==> catalog_ok(lineages@),
        checked matches Err(CatalogError::NoRelease { lineage, console }) ==> {
            &&& lacks_release(lineages@, lineage as int, console as int)
            &&& forall|l: int, c: int|
                l < lineage || (l == lineage && c < console) ==> !lacks_release(lineages@, l, c)
        },
{
    let mut l: usize = 0;
    while l < lineages.len()
        invariant
            0 <= l <= lineages@.len(),
            forall|i: int, c: int| i < l ==> !lacks_release(lineages@, i, c),
        decreases lineages@.len() - l,
    {
        let consoles = lineages[l].consoles;
        let mut c: usize = 0;
        while c < consoles.len()
            invariant
                0 <= l < lineages@.len(),
                consoles@ == lineages@[l as int].consoles@,
                0 <= c <= consoles@.len(),
                forall|i: int, k: int| i < l ==> !lacks_release(lineages@, i, k),
                forall|k: int| k < c ==> !lacks_release(lineages@, l as int, k),
            decreases consoles@.len() - c,
        {
            if consoles[c].releases.len() == 0 {
                assert(lacks_release(lineages@, l as int, c as int));
                return Err(CatalogError::NoRelease { lineage: l, console: c });
            }
            c += 1;
        }
        l += 1;
    }
    Ok(())
}

} // verus!
