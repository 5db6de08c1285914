use console_timeline::axis::{date_to_x, LEFT_MARGIN, TICKS_PER_PIXEL};
use console_timeline::color::Color;
use console_timeline::geometry::{midpoint_of, Point, Rect, Size};
use console_timeline::model::{
    Console, Lineage, Maker, Milestone, MilestoneKind, PartialDate, Region, Release,
};
use console_timeline::timeline::{
    gradient_mesh, lineage_band, Bar, BarPaint, Fade, GridLine, Timeline, Vertex, ACCENT_HEIGHT,
    BOTTOM_PADDING, GRID_LABEL_OFFSET, GRID_THICKNESS, ROW_HEIGHT, TEXT_MARGIN,
};

const PX: i64 = TICKS_PER_PIXEL;

fn rect(left: i64, top: i64, right: i64, bottom: i64) -> Rect {
    Rect { min: Point { x: left, y: top }, max: Point { x: right, y: bottom } }
}

fn leak<T>(items: Vec<T>) -> &'static [T] {
    Box::leak(items.into_boxed_slice())
}

fn release(region: Region, date: PartialDate) -> Release {
    Release { region, date, source: None }
}

fn discontinued(date: PartialDate) -> Milestone {
    Milestone { kind: MilestoneKind::EndOfProduction, date, region: None, source: None }
}

fn console(releases: Vec<Release>, milestones: Vec<Milestone>) -> Console {
    Console {
        name: "Console",
        short_name: "C",
        generation: None,
        releases: leak(releases),
        milestones: leak(milestones),
        measures: &[],
        series: &[],
    }
}

fn lineage(color: Color, rows: usize) -> Lineage {
    let consoles =
        (0..rows).map(|_| console(vec![release(Region::JP, PartialDate::Year { y: 1990 })], vec![]));
    Lineage { name: "Lineage", maker: Maker::Nintendo, color, consoles: leak(consoles.collect()) }
}

/// A viewport of 800 by 500 pixels at the origin, at 12 pixels per year.
fn timeline() -> Timeline {
    Timeline { viewport: rect(0, 0, 800 * PX, 500 * PX), pixels_per_year: 1200 }
}

const RED: Color = Color { r: 255, g: 0, b: 0, a: 255 };

#[test]
fn the_fixed_sizes_in_pixels() {
    assert_eq!(ROW_HEIGHT, 28 * PX);
    assert_eq!(GRID_THICKNESS, PX);
    assert_eq!(GRID_LABEL_OFFSET, 2 * PX);
    assert_eq!(ACCENT_HEIGHT, 2 * PX);
    assert_eq!(TEXT_MARGIN, 8 * PX);
    assert_eq!(BOTTOM_PADDING, 24 * PX);
}

#[test]
fn width_is_the_margin_and_fifty_five_years() {
    assert_eq!(timeline().width(), (200 + 12 * 55) * PX);
    let narrow = Timeline { viewport: rect(0, 0, 0, 0), pixels_per_year: 0 };
    assert_eq!(narrow.width(), LEFT_MARGIN);
    let wide = Timeline { viewport: rect(0, 0, 0, 0), pixels_per_year: u32::MAX };
    assert_eq!(wide.width(), 240_000 + 660 * u32::MAX as i64);
}

#[test]
fn fit_is_a_ratchet() {
    let mut t = Timeline { viewport: rect(3, 4, 5, 6), pixels_per_year: 500 };
    t.fit(800 * PX);
    assert_eq!(t, Timeline { viewport: rect(3, 4, 5, 6), pixels_per_year: 1091 });
    // A narrower window does not bring the scale down again.
    t.fit(400 * PX);
    assert_eq!(t.pixels_per_year, 1091);
    t.fit(800 * PX);
    assert_eq!(t.pixels_per_year, 1091);
    // A wider one raises it.
    t.fit(1000 * PX);
    assert_eq!(t.pixels_per_year, 1455);
    assert!(t.width() >= 1000 * PX);
}

#[test]
fn fit_keeps_a_scale_that_was_zoomed_in() {
    let mut t = Timeline { viewport: rect(0, 0, 800 * PX, 500 * PX), pixels_per_year: 6000 };
    t.fit(800 * PX);
    assert_eq!(t.pixels_per_year, 6000);
}

#[test]
fn grid_lines_every_five_years_at_twelve_pixels_per_year() {
    let clip = rect(0, 10 * PX, 800 * PX, 510 * PX);
    let lines = timeline().grid_lines(clip);
    // The viewport shows 1953 to 2020; the axis starts in 1970.
    let years: Vec<i32> = lines.iter().map(|l| l.year).collect();
    assert_eq!(years, vec![1970, 1975, 1980, 1985, 1990, 1995, 2000, 2005, 2010, 2015, 2020]);
    assert_eq!(
        lines[0],
        GridLine {
            year: 1970,
            top: Point { x: 200 * PX + PX / 2, y: 10 * PX },
            bottom: Point { x: 200 * PX + PX / 2, y: 510 * PX },
            label_at: Point { x: 202 * PX, y: 510 * PX },
        }
    );
    assert_eq!(lines[2].top.x, (200 + 120) * PX + 600);
}

#[test]
fn grid_lines_follow_the_viewport() {
    // Scrolled right by 300 pixels and zoomed to 60 pixels per year: the
    // left edge is 500 pixels into the content, 5 years after the start.
    let t = Timeline { viewport: rect(500 * PX, 0, 800 * PX, 500 * PX), pixels_per_year: 6000 };
    let clip = rect(0, 0, 300 * PX, 500 * PX);
    let lines = t.grid_lines(clip);
    let years: Vec<i32> = lines.iter().map(|l| l.year).collect();
    assert_eq!(years, vec![1975, 1976, 1977, 1978, 1979, 1980]);
    for line in &lines {
        let x = date_to_x(PartialDate::Year { y: line.year }, 6000) - 500 * PX;
        assert_eq!(line.top, Point { x: x + 600, y: 0 });
        assert_eq!(line.bottom, Point { x: x + 600, y: 500 * PX });
        assert_eq!(line.label_at, Point { x: x + 2400, y: 500 * PX });
    }
    assert_eq!(lines[0].top.x, 600);
}

#[test]
fn grid_lines_stop_before_the_end_year() {
    let t = Timeline { viewport: rect(0, 0, 5000 * PX, 500 * PX), pixels_per_year: 3000 };
    let lines = t.grid_lines(rect(0, 0, 5000 * PX, 500 * PX));
    let years: Vec<i32> = lines.iter().map(|l| l.year).collect();
    let expected: Vec<i32> = (1970..=2024).step_by(2).collect();
    assert_eq!(years, expected);
    assert_eq!(years.last(), Some(&2024));
}

#[test]
fn grid_lines_by_ten_years_at_a_small_scale() {
    let t = Timeline { viewport: rect(0, 0, 800 * PX, 500 * PX), pixels_per_year: 999 };
    let years: Vec<i32> = t.grid_lines(rect(0, 0, 1, 1)).iter().map(|l| l.year).collect();
    assert_eq!(years, vec![1970, 1980, 1990, 2000, 2010, 2020]);
}

#[test]
fn no_grid_lines_when_the_viewport_is_past_the_axis() {
    let right = Timeline {
        viewport: rect(2000 * PX, 0, 2800 * PX, 500 * PX),
        pixels_per_year: 1200,
    };
    assert_eq!(right.grid_lines(rect(0, 0, 1, 1)), vec![]);
    let left = Timeline {
        viewport: rect(-2000 * PX, 0, -1200 * PX, 500 * PX),
        pixels_per_year: 1200,
    };
    assert_eq!(left.grid_lines(rect(0, 0, 1, 1)), vec![]);
}

#[test]
fn band_size_is_one_row_for_each_console() {
    let t = timeline();
    assert_eq!(
        t.band_size(&lineage(RED, 3)),
        Size { width: (200 + 660) * PX, height: 3 * 28 * PX }
    );
    assert_eq!(t.band_size(&lineage(RED, 0)), Size { width: 860 * PX, height: 0 });
}

#[test]
fn band_splits_the_block_at_the_left_margin() {
    let block = rect(10 * PX, 40 * PX, 870 * PX, 124 * PX);
    let clip = rect(0, 0, 800 * PX, 500 * PX);
    let band = lineage_band(&lineage(RED, 3), block, clip);
    assert_eq!(band.header, rect(10 * PX, 40 * PX, 210 * PX, 124 * PX));
    assert_eq!(band.title_at, Point { x: 110 * PX, y: 82 * PX });
    assert_eq!(band.title_fill, Color { r: 255, g: 255, b: 255, a: 255 });
    // The strip behind the rows ends where the visible part ends.
    assert_eq!(band.rest, rect(210 * PX, 40 * PX, 800 * PX, 124 * PX));
}

#[test]
fn band_fills_are_the_lineage_colour_at_sixty_and_twenty_percent() {
    let block = rect(0, 0, 860 * PX, 28 * PX);
    let clip = rect(0, 0, 800 * PX, 500 * PX);
    let band = lineage_band(&lineage(RED, 1), block, clip);
    assert_eq!(band.header_fill, Color { r: 153, g: 0, b: 0, a: 153 });
    assert_eq!(band.rest_fill, Color { r: 51, g: 0, b: 0, a: 51 });
    let mixed = Color { r: 200, g: 101, b: 7, a: 255 };
    let band = lineage_band(&lineage(mixed, 1), block, clip);
    // (200 * 153 + 127) / 255 = 120, (101 * 153 + 127) / 255 = 61, ..
    assert_eq!(band.header_fill, Color { r: 120, g: 61, b: 4, a: 153 });
    assert_eq!(band.rest_fill, Color { r: 40, g: 20, b: 1, a: 51 });
}

#[test]
fn band_fills_agree_with_the_toolkit() {
    let block = rect(0, 0, 860 * PX, 28 * PX);
    let clip = rect(0, 0, 800 * PX, 500 * PX);
    for base in [
        Color { r: 0, g: 0, b: 0, a: 0 },
        Color { r: 255, g: 255, b: 255, a: 255 },
        Color { r: 1, g: 2, b: 3, a: 4 },
        Color { r: 230, g: 0, b: 18, a: 255 },
        Color { r: 0, g: 112, b: 209, a: 200 },
    ] {
        let band = lineage_band(&lineage(base, 1), block, clip);
        let tint = egui::Color32::from_rgba_premultiplied(base.r, base.g, base.b, base.a);
        assert_eq!(
            [band.header_fill.r, band.header_fill.g, band.header_fill.b, band.header_fill.a],
            tint.gamma_multiply(0.6).to_array()
        );
        assert_eq!(
            [band.rest_fill.r, band.rest_fill.g, band.rest_fill.b, band.rest_fill.a],
            tint.gamma_multiply(0.2).to_array()
        );
    }
}

#[test]
fn bar_spans_earliest_release_to_discontinuation() {
    let c = console(
        vec![
            release(Region::JP, PartialDate::Year { y: 1990 }),
            release(Region::NA, PartialDate::Year { y: 1991 }),
        ],
        vec![discontinued(PartialDate::Year { y: 1995 })],
    );
    let t = timeline();
    let bar = t.console_bar(&c, 0, 0, 800 * PX);
    assert_eq!(bar.start, date_to_x(PartialDate::YearMonth { y: 1990, m: 1 }, 1200));
    assert_eq!(bar.end, date_to_x(PartialDate::YearMonth { y: 1995, m: 1 }, 1200));
    assert_eq!(bar.start, (200 + 240) * PX);
    assert_eq!(bar.end, (200 + 300) * PX);
    assert_eq!(bar.rect, rect(440 * PX, 0, 500 * PX, 28 * PX));
    assert!(bar.fades);
}

#[test]
fn bar_of_a_console_in_production_runs_to_the_available_width() {
    let c = console(vec![release(Region::Global, PartialDate::Year { y: 2017 })], vec![]);
    let t = timeline();
    let bar = t.console_bar(&c, 0, 0, 800 * PX);
    assert_eq!(bar.end, 800 * PX);
    assert_ne!(bar.end, date_to_x(PartialDate::Year { y: 2025 }, 1200));
    assert_eq!(bar.start, (200 + 47 * 12) * PX);
    assert!(!bar.fades);
    let wider = t.console_bar(&c, 0, 0, 1234 * PX);
    assert_eq!(wider.end, 1234 * PX);
}

#[test]
fn milestones_of_other_kinds_do_not_end_a_bar() {
    let c = console(
        vec![release(Region::Global, PartialDate::Year { y: 2001 })],
        vec![Milestone {
            kind: MilestoneKind::LastUnitSold,
            date: PartialDate::Year { y: 2009 },
            region: None,
            source: None,
        }],
    );
    let bar = timeline().console_bar(&c, 0, 0, 800 * PX);
    assert_eq!(bar.end, 800 * PX);
    assert!(!bar.fades);
}

#[test]
fn bar_is_placed_by_row_and_moved_by_the_viewport() {
    let c = console(
        vec![release(Region::JP, PartialDate::YearMonthDay { y: 1994, m: 12, d: 3 })],
        vec![discontinued(PartialDate::YearMonthDay { y: 2006, m: 3, d: 23 })],
    );
    let t = Timeline {
        viewport: rect(300 * PX, 70 * PX, 1100 * PX, 570 * PX),
        pixels_per_year: 1200,
    };
    let bar = t.console_bar(&c, 56 * PX, 2, 800 * PX);
    let start = (200 + 24 * 12 + 11) * PX;
    let end = (200 + 36 * 12 + 2) * PX;
    assert_eq!(
        bar,
        Bar {
            start,
            end,
            rect: rect(start - 300 * PX, (56 + 2 * 28) * PX, end - 300 * PX, (56 + 3 * 28) * PX),
            fades: false,
        }
    );
}

#[test]
fn bar_fades_only_after_a_year_only_end() {
    let released = vec![release(Region::JP, PartialDate::Year { y: 1990 })];
    let t = timeline();
    let by_year = console(released.clone(), vec![discontinued(PartialDate::Year { y: 1999 })]);
    assert!(t.console_bar(&by_year, 0, 0, 0).fades);
    let by_month =
        console(released.clone(), vec![discontinued(PartialDate::YearMonth { y: 1999, m: 1 })]);
    assert!(!t.console_bar(&by_month, 0, 0, 0).fades);
    // Of two ends on one date the later entry decides.
    let tie = console(
        released,
        vec![
            discontinued(PartialDate::Year { y: 1999 }),
            discontinued(PartialDate::YearMonthDay { y: 1999, m: 1, d: 1 }),
        ],
    );
    assert!(!t.console_bar(&tie, 0, 0, 0).fades);
}

#[test]
fn a_bar_may_end_before_it_starts() {
    let c = console(
        vec![release(Region::JP, PartialDate::Year { y: 2000 })],
        vec![discontinued(PartialDate::Year { y: 1990 })],
    );
    let bar = timeline().console_bar(&c, 0, 0, 800 * PX);
    assert_eq!(bar.rect, rect(560 * PX, 0, 440 * PX, 28 * PX));
}

fn plain_bar(left: i64, right: i64, fades: bool) -> Bar {
    Bar { start: left, end: right, rect: rect(left, 28 * PX, right, 56 * PX), fades }
}

const LABEL: Size = Size { width: 40 * PX, height: 14 * PX };

#[test]
fn bar_outside_the_visible_part_is_not_painted() {
    let t = timeline();
    let clip = rect(0, 0, 800 * PX, 500 * PX);
    assert_eq!(t.paint_bar(&plain_bar(900 * PX, 950 * PX, false), RED, clip, false, LABEL), None);
    assert_eq!(t.paint_bar(&plain_bar(-90 * PX, -1, false), RED, clip, true, LABEL), None);
    let below = Bar { start: 0, end: PX, rect: rect(0, 501 * PX, PX, 529 * PX), fades: true };
    assert_eq!(t.paint_bar(&below, RED, clip, false, LABEL), None);
    // Touching the edge counts as visible.
    assert!(t.paint_bar(&plain_bar(800 * PX, 950 * PX, false), RED, clip, false, LABEL).is_some());
    assert!(t.paint_bar(&plain_bar(-90 * PX, 0, false), RED, clip, false, LABEL).is_some());
}

#[test]
fn bar_at_rest_and_under_the_pointer() {
    let t = timeline();
    let clip = rect(0, 0, 800 * PX, 500 * PX);
    let bar = plain_bar(300 * PX, 500 * PX, false);
    let rest = t.paint_bar(&bar, RED, clip, false, LABEL);
    assert_eq!(
        rest,
        Some(BarPaint {
            fill: Color { r: 51, g: 0, b: 0, a: 51 },
            accent: rect(300 * PX, 54 * PX, 500 * PX, 56 * PX),
            accent_fill: RED,
            label_at: Point { x: 308 * PX, y: (42 - 7) * PX },
            label_strong: false,
            fade: None,
        })
    );
    let hovered = t.paint_bar(&bar, RED, clip, true, LABEL);
    assert_eq!(
        hovered,
        Some(BarPaint {
            fill: Color { r: 102, g: 0, b: 0, a: 102 },
            accent: rect(300 * PX, 54 * PX, 500 * PX, 56 * PX),
            accent_fill: RED,
            label_at: Point { x: 308 * PX, y: 35 * PX },
            label_strong: true,
            fade: None,
        })
    );
}

#[test]
fn hover_fill_agrees_with_the_toolkit() {
    let t = timeline();
    let clip = rect(0, 0, 800 * PX, 500 * PX);
    let base = Color { r: 16, g: 124, b: 16, a: 255 };
    let tint = egui::Color32::from_rgba_premultiplied(base.r, base.g, base.b, base.a);
    let paint = t.paint_bar(&plain_bar(0, 100 * PX, false), base, clip, true, LABEL);
    let fill = paint.map(|p| [p.fill.r, p.fill.g, p.fill.b, p.fill.a]);
    assert_eq!(fill, Some(tint.gamma_multiply(0.4).to_array()));
}

#[test]
fn label_follows_the_left_edge_of_the_visible_part() {
    let t = timeline();
    // The bar starts 100 pixels left of what is visible.
    let clip = rect(50 * PX, 0, 800 * PX, 500 * PX);
    let bar = plain_bar(-50 * PX, 400 * PX, false);
    let paint = t.paint_bar(&bar, RED, clip, false, LABEL);
    assert_eq!(paint.map(|p| p.label_at.x), Some(58 * PX));
}

#[test]
fn label_stops_at_the_right_end_of_its_bar() {
    let t = timeline();
    // Only the last 20 pixels of the bar are visible: the name, 56 pixels
    // with its margins, ends with the bar.
    let clip = rect(380 * PX, 0, 800 * PX, 500 * PX);
    let bar = plain_bar(-50 * PX, 400 * PX, false);
    let paint = t.paint_bar(&bar, RED, clip, false, LABEL);
    assert_eq!(paint.map(|p| p.label_at.x), Some((400 - 56 + 8) * PX));
}

#[test]
fn label_of_a_bar_that_is_too_narrow_is_not_moved() {
    let t = timeline();
    let clip = rect(50 * PX, 0, 800 * PX, 500 * PX);
    // 56 pixels are needed; the bar has exactly 56, which is not enough.
    let exact = plain_bar(20 * PX, 76 * PX, false);
    assert_eq!(
        t.paint_bar(&exact, RED, clip, false, LABEL).map(|p| p.label_at.x),
        Some(28 * PX)
    );
    let roomy = plain_bar(20 * PX, 76 * PX + 1, false);
    assert_eq!(
        t.paint_bar(&roomy, RED, clip, false, LABEL).map(|p| p.label_at.x),
        Some(28 * PX + 1)
    );
}

#[test]
fn label_width_is_rounded_up_to_whole_pixels() {
    let t = timeline();
    let clip = rect(380 * PX, 0, 800 * PX, 500 * PX);
    let bar = plain_bar(-50 * PX, 400 * PX, false);
    let label = Size { width: 40 * PX + 1, height: 14 * PX };
    let paint = t.paint_bar(&bar, RED, clip, false, label);
    assert_eq!(paint.map(|p| p.label_at.x), Some((400 - 57 + 8) * PX));
}

#[test]
fn label_is_centred_on_the_row() {
    let t = timeline();
    let clip = rect(0, -100 * PX, 800 * PX, 500 * PX);
    let bar = Bar { start: 0, end: 0, rect: rect(0, -28 * PX - 1, 300 * PX, -1), fades: false };
    let label = Size { width: 40 * PX, height: 15 * PX + 1 };
    let paint = t.paint_bar(&bar, RED, clip, false, label);
    assert_eq!(paint.map(|p| p.label_at.y), Some(-14 * PX - 1 - (7 * PX + 600)));
}

#[test]
fn fade_is_one_year_wide_and_follows_the_bar() {
    let t = timeline();
    let clip = rect(0, 0, 800 * PX, 500 * PX);
    let bar = plain_bar(300 * PX, 500 * PX, true);
    let paint = t.paint_bar(&bar, RED, clip, false, LABEL);
    assert_eq!(
        paint.and_then(|p| p.fade),
        Some(Fade {
            body: rect(500 * PX, 28 * PX, 512 * PX, 56 * PX),
            accent: rect(500 * PX, 54 * PX, 512 * PX, 56 * PX),
        })
    );
    let zoomed = Timeline { viewport: rect(0, 0, 800 * PX, 500 * PX), pixels_per_year: 6000 };
    let paint = zoomed.paint_bar(&bar, RED, clip, false, LABEL);
    assert_eq!(paint.and_then(|p| p.fade).map(|f| f.body.max.x), Some(560 * PX));
}

#[test]
fn gradient_mesh_is_two_triangles_over_four_corners() {
    let from = Color { r: 51, g: 0, b: 0, a: 51 };
    let to = Color { r: 0, g: 0, b: 0, a: 0 };
    let mesh = gradient_mesh(rect(10, 20, 30, 40), from, to);
    assert_eq!(
        mesh.vertices,
        vec![
            Vertex { pos: Point { x: 10, y: 20 }, color: from },
            Vertex { pos: Point { x: 30, y: 20 }, color: to },
            Vertex { pos: Point { x: 10, y: 40 }, color: from },
            Vertex { pos: Point { x: 30, y: 40 }, color: to },
        ]
    );
    assert_eq!(mesh.indices, vec![0, 1, 2, 2, 1, 3]);
}

#[test]
fn the_named_colours() {
    assert_eq!(Color::white(), Color { r: 255, g: 255, b: 255, a: 255 });
    assert_eq!(Color::transparent(), Color { r: 0, g: 0, b: 0, a: 0 });
}

#[test]
fn rectangles_that_touch_intersect() {
    let a = rect(0, 0, 10, 10);
    assert!(a.intersects(rect(10, 10, 20, 20)));
    assert!(a.intersects(rect(-5, -5, 0, 0)));
    assert!(a.intersects(rect(2, 2, 3, 3)));
    assert!(rect(2, 2, 3, 3).intersects(a));
    assert!(!a.intersects(rect(11, 0, 20, 10)));
    assert!(!a.intersects(rect(0, 11, 10, 20)));
    assert!(!a.intersects(rect(-20, 0, -1, 10)));
    assert!(!a.intersects(rect(0, -20, 10, -1)));
}

#[test]
fn midpoints_round_down() {
    assert_eq!(midpoint_of(0, 10), 5);
    assert_eq!(midpoint_of(0, 11), 5);
    assert_eq!(midpoint_of(-11, 0), -6);
    assert_eq!(midpoint_of(-1, 0), -1);
    assert_eq!(midpoint_of(-3, 3), 0);
    assert_eq!(midpoint_of(i64::MAX, i64::MAX), i64::MAX);
    assert_eq!(midpoint_of(i64::MIN, i64::MIN), i64::MIN);
    assert_eq!(midpoint_of(i64::MIN, i64::MAX), -1);
}

#[test]
fn a_state_within_the_limits_can_be_laid_out() {
    assert!(timeline().is_wf());
    let limit = 10_000_000_000;
    assert!(Timeline { viewport: rect(-limit, -limit, limit, limit), pixels_per_year: 1 }.is_wf());
    assert!(Timeline { viewport: rect(0, 0, 0, 0), pixels_per_year: 100_000_000 }.is_wf());
    assert!(!Timeline { viewport: rect(0, 0, 0, 0), pixels_per_year: 0 }.is_wf());
    assert!(!Timeline { viewport: rect(0, 0, 0, 0), pixels_per_year: 100_000_001 }.is_wf());
    assert!(!Timeline { viewport: rect(0, 0, limit + 1, 0), pixels_per_year: 1200 }.is_wf());
    assert!(!Timeline { viewport: rect(0, -limit - 1, 0, 0), pixels_per_year: 1200 }.is_wf());
}

#[test]
fn sizes_within_the_limits() {
    assert!(Size { width: 0, height: 0 }.is_within_limit());
    assert!(Size { width: 10_000_000_000, height: 10_000_000_000 }.is_within_limit());
    assert!(!Size { width: -1, height: 0 }.is_within_limit());
    assert!(!Size { width: 0, height: -1 }.is_within_limit());
    assert!(!Size { width: 10_000_000_001, height: 0 }.is_within_limit());
    assert!(rect(-1, -2, 3, 4).is_within_limit());
    assert!(!rect(-1, -2, 3, 10_000_000_001).is_within_limit());
    assert!(!rect(-10_000_000_001, -2, 3, 4).is_within_limit());
}
