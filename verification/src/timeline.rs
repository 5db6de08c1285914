//! The layout of one frame: grid lines, lineage bands, console bars and the
//! sales tooltip. The host owns the viewport and the scale, asks for each
//! piece in turn and draws what comes back.

use vstd::prelude::*;
use vstd::arithmetic::div_mod::lemma_fundamental_div_mod_converse;
use crate::axis::{
    date_to_x, fit_scale, fitting_scale, grid_step, timeline_width, x_of_date, x_to_date,
    year_at, year_step, END_YEAR, LEFT_MARGIN, MAX_SCALE, START_YEAR,
};
use crate::axis::{year_ticks, TICKS_PER_PIXEL};
use crate::color::{gamma_multiply, Color};
use crate::geometry::{midpoint, midpoint_of, Point, Rect, Size, COORD_LIMIT};
use crate::model::{Console, Lineage, PartialDate};

verus! {

/// Height of the row of one console: 28 pixels.
pub const ROW_HEIGHT: i64 = 33_600;

/// Thickness of a grid line: one pixel.
pub const GRID_THICKNESS: i64 = 1_200;

/// How far right of its grid line a year label starts: 2 pixels.
pub const GRID_LABEL_OFFSET: i64 = 2_400;

/// Space kept free below the last row for the year labels: 24 pixels.
pub const BOTTOM_PADDING: i64 = 28_800;

/// Height of the strip of full colour along the bottom of a bar: 2 pixels.
pub const ACCENT_HEIGHT: i64 = 2_400;

/// Free space left and right of a console's name: 8 pixels.
pub const TEXT_MARGIN: i64 = 9_600;

/// Strength, out of 255, of the lineage colour behind the lineage's name: 60 %.
pub const HEADER_STRENGTH: u8 = 153;

/// Strength of the lineage colour behind the rows, and in a bar at rest: 20 %.
pub const REST_STRENGTH: u8 = 51;

/// Strength of the lineage colour in a bar under the pointer: 40 %.
pub const HOVER_STRENGTH: u8 = 102;

/// The largest magnitude of a coordinate of a bar.
pub const BAR_LIMIT: i64 = 3_000_000_000_000_000_000;

/// What the host keeps between frames.
#[derive(Debug, Clone, Copy, PartialEq, Eq, Structural)]
pub struct Timeline {
    /// The visible part of the content.
    pub viewport: Rect,
    /// The scale, in hundredths of a pixel per year. The layout keeps it
    /// large enough that the timeline is never narrower than the width on
    /// offer.
    pub pixels_per_year: u32,
}

/// One vertical grid line with the place of its year label. The label hangs
/// by its bottom-left corner.
#[derive(Debug, Clone, Copy, PartialEq, Eq, Structural)]
pub struct GridLine {
    pub year: i32,
    pub top: Point,
    pub bottom: Point,
    pub label_at: Point,
}

impl Timeline {
    /// The scale is positive and at most `MAX_SCALE`, and the viewport lies
    /// within `COORD_LIMIT`.
    pub open spec fn wf(self) -> bool {
        &&& 1 <= self.pixels_per_year <= MAX_SCALE
        &&& self.viewport.within_limit()
    }

    /// The first year that gets a grid line: the year under the left edge of
    /// the viewport, but not before the axis starts.
    pub open spec fn first_grid_year(self) -> int {
        vstd::math::max(
            year_at(self.viewport.min.x as int, self.pixels_per_year as int),
            START_YEAR as int,
        )
    }

    /// The year after which no grid line is drawn: the year under the right
    /// edge of the viewport, but not the year the axis ends with.
    pub open spec fn last_grid_year(self) -> int {
        vstd::math::min(
            year_at(self.viewport.max.x as int, self.pixels_per_year as int),
            END_YEAR - 1,
        )
    }

    /// The years that get a grid line, in ascending order.
    pub open spec fn grid_years(self) -> Seq<int> {
        let first = self.first_grid_year();
        let last = self.last_grid_year();
        let step = grid_step(self.pixels_per_year as int);
        if first > last {
            Seq::empty()
        } else {
            Seq::new(((last - first) / step + 1) as nat, |k: int| first + k * step)
        }
    }

    /// The grid line of `year`, from the top of `clip` to its bottom.
    pub open spec fn grid_line(self, clip: Rect, year: int) -> GridLine {
        let x = x_of_date(PartialDate::Year { y: year as i32 }, self.pixels_per_year as int)
            - self.viewport.min.x;
        GridLine {
            year: year as i32,
            top: Point { x: (x + GRID_THICKNESS / 2) as i64, y: clip.min.y },
            bottom: Point { x: (x + GRID_THICKNESS / 2) as i64, y: clip.max.y },
            label_at: Point { x: (x + GRID_LABEL_OFFSET) as i64, y: clip.max.y },
        }
    }

    /// Whether this state can be laid out.
    pub fn is_wf(&self) -> (ok: bool)
        ensures
            ok == self.wf(),
    {
        1 <= self.pixels_per_year && self.pixels_per_year <= MAX_SCALE
            && self.viewport.is_within_limit()
    }

    /// Width of the whole timeline at the current scale.
    pub fn width(&self) -> (w: i64)
        ensures
            w == timeline_width(self.pixels_per_year as int),
    {
        let years: i64 = 12 * (END_YEAR as i64 - START_YEAR as i64);
        assert(timeline_width(self.pixels_per_year as int) == LEFT_MARGIN + 660
            * self.pixels_per_year) by (nonlinear_arith);
        LEFT_MARGIN + years * (self.pixels_per_year as i64)
    }

    /// Raises the scale as far as the timeline needs to fill
    /// `available_width`. The scale never goes down.
    pub fn fit(&mut self, available_width: i64)
        requires
            fitting_scale(available_width as int) <= u32::MAX,
        ensures
            final(self).viewport == old(self).viewport,
            final(self).pixels_per_year == vstd::math::max(
                old(self).pixels_per_year as int,
                fitting_scale(available_width as int),
            ),
            old(self).wf() && available_width <= COORD_LIMIT ==> final(self).wf(),
    {
        proof {
            assert(12 * (END_YEAR - START_YEAR) == 660);
            assert(available_width <= COORD_LIMIT ==> fitting_scale(available_width as int)
                <= MAX_SCALE);
        }
        self.pixels_per_year = fit_scale(self.pixels_per_year, available_width);
    }

    /// The grid lines of the frame: one for every `year_step` years from the
    /// year under the left edge of the viewport to the year under its right
    /// edge, within the axis.
    pub fn grid_lines(&self, clip: Rect) -> (lines: Vec<GridLine>)
        requires
            self.wf(),
        ensures
            lines@.len() == self.grid_years().len(),
            forall|k: int|
                0 <= k < lines@.len() ==> #[trigger] lines@[k] == self.grid_line(
                    clip,
                    self.grid_years()[k],
                ),
    {
        let scale = self.pixels_per_year;
        proof {
            lemma_year_at_bounded(self.viewport.min.x as int, scale as int);
            lemma_year_at_bounded(self.viewport.max.x as int, scale as int);
        }
        let left = x_to_date(self.viewport.min.x, scale).year();
        let right = x_to_date(self.viewport.max.x, scale).year();
        let first: i32 = if left > START_YEAR {
            left
        } else {
            START_YEAR
        };
        let last: i32 = if right < END_YEAR - 1 {
            right
        } else {
            END_YEAR - 1
        };
        let step = year_step(scale);
        let mut lines: Vec<GridLine> = Vec::new();
        if first > last {
            return lines;
        }
        let ghost count = (last - first) / (step as int) + 1;
        let mut year: i32 = first;
        while year <= last
            invariant
                self.wf(),
                scale == self.pixels_per_year,
                step == grid_step(scale as int),
                first == self.first_grid_year(),
                last == self.last_grid_year(),
                START_YEAR <= first <= last < END_YEAR,
                count == (last - first) / (step as int) + 1,
                year == first + lines@.len() * step,
                lines@.len() <= count,
                year <= last <==> lines@.len() < count,
                forall|k: int|
                    0 <= k < lines@.len() ==> #[trigger] lines@[k] == self.grid_line(
                        clip,
                        first + k * step,
                    ),
            decreases count - lines@.len(),
        {
            let ghost k = lines@.len() as int;
            proof {
                let months = 12 * (year - START_YEAR);
                assert(0 <= months * scale <= 66_000_000_000) by (nonlinear_arith)
                    requires
                        0 <= months <= 660,
                        0 <= scale <= 100_000_000,
                ;
            }
            let x = date_to_x(PartialDate::Year { y: year }, scale) - self.viewport.min.x;
            lines.push(
                GridLine {
                    year,
                    top: Point { x: x + GRID_THICKNESS / 2, y: clip.min.y },
                    bottom: Point { x: x + GRID_THICKNESS / 2, y: clip.max.y },
                    label_at: Point { x: x + GRID_LABEL_OFFSET, y: clip.max.y },
                },
            );
            proof {
                lemma_grid_progress(first as int, last as int, step as int, k + 1);
                assert(first + (k + 1) * step == year + step) by (nonlinear_arith)
                    requires
                        year == first + k * step,
                ;
            }
            year = year + step;
        }
        lines
    }
}

/// The block of rows of one lineage: the header that holds its name, with the
/// point the name is centred on and the colour it is written in, and the
/// strip behind its rows, which ends at the right edge of what is visible.
#[derive(Debug, Clone, Copy, PartialEq, Eq, Structural)]
pub struct Band {
    pub header: Rect,
    pub header_fill: Color,
    pub title_at: Point,
    pub title_fill: Color,
    pub rest: Rect,
    pub rest_fill: Color,
}

/// The band of a lineage of colour `color` in the block `rect` that the host
/// set aside for it, when `clip` is visible.
pub open spec fn band_of(color: Color, rect: Rect, clip: Rect) -> Band {
    let split = (rect.min.x + LEFT_MARGIN) as i64;
    let header = Rect { min: rect.min, max: Point { x: split, y: rect.max.y } };
    Band {
        header,
        header_fill: color.faded(HEADER_STRENGTH),
        title_at: header.center(),
        title_fill: Color::spec_white(),
        rest: Rect {
            min: Point { x: split, y: rect.min.y },
            max: Point { x: clip.max.x, y: rect.max.y },
        },
        rest_fill: color.faded(REST_STRENGTH),
    }
}

/// Lays out the band of `lineage` in the block `rect`.
pub fn lineage_band(lineage: &Lineage, rect: Rect, clip: Rect) -> (band: Band)
    requires
        rect.min.x + LEFT_MARGIN <= i64::MAX,
    ensures
        band == band_of(lineage.color, rect, clip),
{
    let split = rect.min.x + LEFT_MARGIN;
    Band {
        header: Rect { min: rect.min, max: Point { x: split, y: rect.max.y } },
        header_fill: gamma_multiply(lineage.color, HEADER_STRENGTH),
        title_at: Point {
            x: midpoint_of(rect.min.x, split),
            y: midpoint_of(rect.min.y, rect.max.y),
        },
        title_fill: Color::white(),
        rest: Rect {
            min: Point { x: split, y: rect.min.y },
            max: Point { x: clip.max.x, y: rect.max.y },
        },
        rest_fill: gamma_multiply(lineage.color, REST_STRENGTH),
    }
}

/// The bar of one console: where it starts and ends on the axis, the
/// rectangle it takes on screen, and whether it ends in a fade because its
/// end is known to the year only.
#[derive(Debug, Clone, Copy, PartialEq, Eq, Structural)]
pub struct Bar {
    pub start: i64,
    pub end: i64,
    pub rect: Rect,
    pub fades: bool,
}

/// The last end of production of `console` is known to the year only.
pub open spec fn ends_in_year_only(console: Console) -> bool {
    match console.latest_discontinuation_index() {
        Some(at) => console.milestones@[at].date is Year,
        None => false,
    }
}

impl Timeline {
    /// Where the bar of `console` starts: at its earliest release.
    pub open spec fn bar_start(self, console: Console) -> int {
        x_of_date(
            console.releases@[console.earliest_release_index()].date,
            self.pixels_per_year as int,
        )
    }

    /// Where the bar of `console` ends: at its latest end of production, or,
    /// where production has not ended, at the available width.
    pub open spec fn bar_end(self, console: Console, available_width: int) -> int {
        match console.latest_discontinuation_index() {
            Some(at) => x_of_date(console.milestones@[at].date, self.pixels_per_year as int),
            None => available_width,
        }
    }

    /// The bar of `console` in row `row` of a band whose top is `band_top`.
    pub open spec fn bar_of(
        self,
        console: Console,
        band_top: int,
        row: int,
        available_width: int,
    ) -> Bar {
        let start = self.bar_start(console);
        let end = self.bar_end(console, available_width);
        let top = band_top + row * ROW_HEIGHT;
        Bar {
            start: start as i64,
            end: end as i64,
            rect: Rect {
                min: Point { x: (start - self.viewport.min.x) as i64, y: top as i64 },
                max: Point {
                    x: (end - self.viewport.min.x) as i64,
                    y: (top + ROW_HEIGHT) as i64,
                },
            },
            fades: ends_in_year_only(console),
        }
    }

    /// The size of the block of rows to set aside for `lineage`: as wide as
    /// the timeline, and one row high for each console.
    pub fn band_size(&self, lineage: &Lineage) -> (size: Size)
        requires
            lineage.consoles@.len() * ROW_HEIGHT <= i64::MAX,
        ensures
            size.width == timeline_width(self.pixels_per_year as int),
            size.height == lineage.consoles@.len() * ROW_HEIGHT,
    {
        Size { width: self.width(), height: lineage.consoles.len() as i64 * ROW_HEIGHT }
    }

    /// Lays out the bar of `console`, which stands in row `row` of a band
    /// whose top is `band_top`. The bar runs from the earliest release to the
    /// latest end of production; a console still in production runs to
    /// `available_width`.
    pub fn console_bar(
        &self,
        console: &Console,
        band_top: i64,
        row: usize,
        available_width: i64,
    ) -> (bar: Bar)
        requires
            self.wf(),
            console.releases@.len() > 0,
            -COORD_LIMIT <= band_top <= COORD_LIMIT,
            row * ROW_HEIGHT <= COORD_LIMIT,
            -COORD_LIMIT <= available_width <= COORD_LIMIT,
        ensures
            bar == self.bar_of(*console, band_top as int, row as int, available_width as int),
            !console.is_discontinued() ==> bar.end == available_width && !bar.fades,
            bar.rect.within(BAR_LIMIT as int),
    {
        let scale = self.pixels_per_year;
        let first = console.earliest_release();
        let first_date = console.releases[first].date;
        let start = date_to_x(first_date, scale);
        let last = console.latest_discontinuation();
        let (end, fades) = match last {
            Some(at) => {
                let date = console.milestones[at].date;
                let fades = match date {
                    PartialDate::Year { .. } => true,
                    _ => false,
                };
                proof {
                    lemma_x_of_date_bounded(date, scale as int);
                }
                (date_to_x(date, scale), fades)
            },
            None => (available_width, false),
        };
        proof {
            lemma_x_of_date_bounded(first_date, scale as int);
        }
        let top = band_top + (row as i64) * ROW_HEIGHT;
        Bar {
            start,
            end,
            rect: Rect {
                min: Point { x: start - self.viewport.min.x, y: top },
                max: Point { x: end - self.viewport.min.x, y: top + ROW_HEIGHT },
            },
            fades,
        }
    }
}

/// The two rectangles of the fade that follows a bar whose end is known to
/// the year only: one behind the bar's body and one behind its accent strip.
/// Each is one year wide and runs from the bar's colour to nothing.
#[derive(Debug, Clone, Copy, PartialEq, Eq, Structural)]
pub struct Fade {
    pub body: Rect,
    pub accent: Rect,
}

/// How to draw a bar that is visible: the fill of its body, the accent strip
/// along its bottom, where the top-left corner of the console's name goes and
/// whether the name is drawn in the strong text colour, and the fade, if any.
#[derive(Debug, Clone, Copy, PartialEq, Eq, Structural)]
pub struct BarPaint {
    pub fill: Color,
    pub accent: Rect,
    pub accent_fill: Color,
    pub label_at: Point,
    pub label_strong: bool,
    pub fade: Option<Fade>,
}

/// `width` rounded up to whole pixels.
pub open spec fn ceil_to_pixel(width: int) -> int {
    ((width + TICKS_PER_PIXEL - 1) / (TICKS_PER_PIXEL as int)) * TICKS_PER_PIXEL
}

/// The room a name of measured width `label_width` takes in a bar: the width
/// in whole pixels, with the margin on both sides.
pub open spec fn text_width(label_width: int) -> int {
    ceil_to_pixel(label_width) + 2 * TEXT_MARGIN
}

/// Where the name in a bar starts. It stands one margin into the bar. Where
/// the bar has room to spare, the name moves right to stay one margin inside
/// the visible part, but no further than where it ends one margin before the
/// end of the bar.
pub open spec fn label_x(bar: Rect, clip: Rect, label_width: int) -> int {
    let home = bar.min.x + TEXT_MARGIN;
    if text_width(label_width) < bar.max.x - bar.min.x {
        vstd::math::min(
            vstd::math::max(home, clip.min.x + TEXT_MARGIN),
            bar.max.x - text_width(label_width) + TEXT_MARGIN,
        )
    } else {
        home
    }
}

/// The fade behind a bar that takes `rect`, one year wide at `scale`.
pub open spec fn fade_of(rect: Rect, scale: int) -> Fade {
    let right = (rect.max.x + year_ticks(scale)) as i64;
    Fade {
        body: Rect {
            min: Point { x: rect.max.x, y: rect.min.y },
            max: Point { x: right, y: rect.max.y },
        },
        accent: Rect {
            min: Point { x: rect.max.x, y: (rect.max.y - ACCENT_HEIGHT) as i64 },
            max: Point { x: right, y: rect.max.y },
        },
    }
}

impl Timeline {
    /// How to draw `bar` in the lineage colour `color`, with a name that
    /// measures `label`.
    pub open spec fn paint_of(
        self,
        bar: Bar,
        color: Color,
        clip: Rect,
        hovered: bool,
        label: Size,
    ) -> BarPaint {
        let rect = bar.rect;
        BarPaint {
            fill: color.faded(
                if hovered {
                    HOVER_STRENGTH
                } else {
                    REST_STRENGTH
                },
            ),
            accent: Rect {
                min: Point { x: rect.min.x, y: (rect.max.y - ACCENT_HEIGHT) as i64 },
                max: rect.max,
            },
            accent_fill: color,
            label_at: Point {
                x: label_x(rect, clip, label.width as int) as i64,
                y: (midpoint(rect.min.y as int, rect.max.y as int) - label.height / 2) as i64,
            },
            label_strong: hovered,
            fade: if bar.fades {
                Some(fade_of(rect, self.pixels_per_year as int))
            } else {
                None
            },
        }
    }

    /// Decides how to draw `bar`. A bar that shares no point with `clip` is
    /// not drawn at all. `hovered` says whether the pointer is over the bar,
    /// and `label` is the measured size of the console's name.
    pub fn paint_bar(&self, bar: &Bar, color: Color, clip: Rect, hovered: bool, label: Size) -> (paint:
        Option<BarPaint>)
        requires
            self.pixels_per_year <= MAX_SCALE,
            bar.rect.within(BAR_LIMIT as int),
            clip.within_limit(),
            label.within_limit(),
        ensures
            paint == if clip.meets(bar.rect) {
                Some(self.paint_of(*bar, color, clip, hovered, label))
            } else {
                None
            },
    {
        let rect = bar.rect;
        if !clip.intersects(rect) {
            return None;
        }
        let strength = if hovered {
            HOVER_STRENGTH
        } else {
            REST_STRENGTH
        };
        let accent_top = rect.max.y - ACCENT_HEIGHT;
        let whole_pixels = (label.width + TICKS_PER_PIXEL - 1) / TICKS_PER_PIXEL;
        let needed = whole_pixels * TICKS_PER_PIXEL + 2 * TEXT_MARGIN;
        let mut x = rect.min.x + TEXT_MARGIN;
        if needed < rect.max.x - rect.min.x {
            if x < clip.min.x + TEXT_MARGIN {
                x = clip.min.x + TEXT_MARGIN;
            }
            if x > rect.max.x - needed + TEXT_MARGIN {
                x = rect.max.x - needed + TEXT_MARGIN;
            }
        }
        let fade = if bar.fades {
            let right = rect.max.x + 12 * (self.pixels_per_year as i64);
            Some(
                Fade {
                    body: Rect {
                        min: Point { x: rect.max.x, y: rect.min.y },
                        max: Point { x: right, y: rect.max.y },
                    },
                    accent: Rect {
                        min: Point { x: rect.max.x, y: accent_top },
                        max: Point { x: right, y: rect.max.y },
                    },
                },
            )
        } else {
            None
        };
        Some(
            BarPaint {
                fill: gamma_multiply(color, strength),
                accent: Rect { min: Point { x: rect.min.x, y: accent_top }, max: rect.max },
                accent_fill: color,
                label_at: Point {
                    x,
                    y: midpoint_of(rect.min.y, rect.max.y) - label.height / 2,
                },
                label_strong: hovered,
                fade,
            },
        )
    }
}

/// A name that fits into its bar stays inside it, margins included.
pub proof fn lemma_label_stays_in_bar(bar: Rect, clip: Rect, label_width: int)
    requires
        text_width(label_width) < bar.max.x - bar.min.x,
    ensures
        bar.min.x <= label_x(bar, clip, label_width) - TEXT_MARGIN,
        label_x(bar, clip, label_width) - TEXT_MARGIN + text_width(label_width) <= bar.max.x,
{
}

/// A name that fits into its bar starts at least one margin right of the
/// left edge of what is visible, unless that would push it out of the bar:
/// then it ends one margin before the end of the bar.
pub proof fn lemma_label_stays_visible(bar: Rect, clip: Rect, label_width: int)
    requires
        text_width(label_width) < bar.max.x - bar.min.x,
    ensures
        label_x(bar, clip, label_width) >= clip.min.x + TEXT_MARGIN || label_x(
            bar,
            clip,
            label_width,
        ) == bar.max.x - text_width(label_width) + TEXT_MARGIN,
{
}

/// One corner of a mesh.
#[derive(Debug, Clone, Copy, PartialEq, Eq, Structural)]
pub struct Vertex {
    pub pos: Point,
    pub color: Color,
}

/// Coloured triangles: `indices` names the corners of each triangle, three
/// at a time, by their position in `vertices`.
#[derive(Debug, Clone, PartialEq, Eq)]
pub struct Mesh {
    pub vertices: Vec<Vertex>,
    pub indices: Vec<u32>,
}

/// What a mesh holds.
pub struct MeshView {
    pub vertices: Seq<Vertex>,
    pub indices: Seq<u32>,
}

impl View for Mesh {
    type V = MeshView;

    open spec fn view(&self) -> MeshView {
        MeshView { vertices: self.vertices@, indices: self.indices@ }
    }
}

/// The mesh that fills `rect` with `color_start` along its left edge running
/// into `color_end` along its right edge.
pub open spec fn gradient_of(rect: Rect, color_start: Color, color_end: Color) -> MeshView {
    MeshView {
        vertices: seq![
            Vertex { pos: rect.min, color: color_start },
            Vertex { pos: Point { x: rect.max.x, y: rect.min.y }, color: color_end },
            Vertex { pos: Point { x: rect.min.x, y: rect.max.y }, color: color_start },
            Vertex { pos: rect.max, color: color_end },
        ],
        indices: seq![0u32, 1u32, 2u32, 2u32, 1u32, 3u32],
    }
}

/// Builds the mesh of a horizontal gradient over `rect`: four corners and
/// the two triangles that cover the rectangle.
pub fn gradient_mesh(rect: Rect, color_start: Color, color_end: Color) -> (mesh: Mesh)
    ensures
        mesh@ == gradient_of(rect, color_start, color_end),
{
    let mut vertices: Vec<Vertex> = Vec::new();
    vertices.push(Vertex { pos: rect.min, color: color_start });
    vertices.push(Vertex { pos: Point { x: rect.max.x, y: rect.min.y }, color: color_end });
    vertices.push(Vertex { pos: Point { x: rect.min.x, y: rect.max.y }, color: color_start });
    vertices.push(Vertex { pos: rect.max, color: color_end });
    let mut indices: Vec<u32> = Vec::new();
    indices.push(0);
    indices.push(1);
    indices.push(2);
    indices.push(2);
    indices.push(1);
    indices.push(3);
    let mesh = Mesh { vertices, indices };
    assert(mesh@.vertices =~= gradient_of(rect, color_start, color_end).vertices);
    assert(mesh@.indices =~= gradient_of(rect, color_start, color_end).indices);
    mesh
}

/// No date lies further from the origin than 2.6 million million million
/// ticks at a scale that is at most `MAX_SCALE`.
pub proof fn lemma_x_of_date_bounded(date: PartialDate, scale: int)
    requires
        0 <= scale <= MAX_SCALE,
    ensures
        -2_600_000_000_000_000_000 <= x_of_date(date, scale) <= 2_600_000_000_000_000_000,
{
    let months = 12 * (date.key().0 - START_YEAR) + (date.key().1 - 1);
    assert(-2_599_000_000_000_000_000 <= months * scale <= 2_599_000_000_000_000_000)
        by (nonlinear_arith)
        requires
            -25_990_000_000 <= months <= 25_990_000_000,
            0 <= scale <= 100_000_000,
    ;
}

/// Under a coordinate within `COORD_LIMIT` the year is a small number at any
/// positive scale.
pub proof fn lemma_year_at_bounded(x: int, scale: int)
    requires
        -COORD_LIMIT <= x <= COORD_LIMIT,
        scale >= 1,
    ensures
        -1_000_000_000 <= year_at(x, scale) <= 1_000_000_000,
{
    let offset = x - LEFT_MARGIN;
    if offset >= 0 {
        assert(0 <= offset / (12 * scale) <= offset) by (nonlinear_arith)
            requires
                offset >= 0,
                scale >= 1,
        ;
        assert(offset / (12 * scale) <= offset / 12) by (nonlinear_arith)
            requires
                offset >= 0,
                scale >= 1,
        ;
    } else {
        assert((-offset) / (12 * scale) <= (-offset) / 12 && 0 <= (-offset) / (12 * scale))
            by (nonlinear_arith)
            requires
                -offset >= 0,
                scale >= 1,
        ;
    }
}

/// Stepping from `first` by `step`, the `taken`-th year is still within
/// `last` exactly when fewer than the whole count of years has been taken.
proof fn lemma_grid_progress(first: int, last: int, step: int, taken: int)
    requires
        first <= last,
        step >= 1,
        taken >= 0,
    ensures
        first + taken * step <= last <==> taken < (last - first) / step + 1,
{
    let span = last - first;
    let q = span / step;
    vstd::arithmetic::div_mod::lemma_fundamental_div_mod(span, step);
    vstd::arithmetic::div_mod::lemma_mod_bound(span, step);
    assert(span == step * q + span % step);
    if taken <= q {
        assert(taken * step <= q * step) by (nonlinear_arith)
            requires
                taken <= q,
                step >= 1,
        ;
        assert(step * q == q * step) by (nonlinear_arith);
    } else {
        assert(taken * step >= (q + 1) * step) by (nonlinear_arith)
            requires
                taken >= q + 1,
                step >= 1,
        ;
        assert((q + 1) * step == step * q + step) by (nonlinear_arith);
    }
}

} // verus!
