//! Chart Composer: turns a Dataset and a configuration into a fully laid-out
//! chart description that a drawing backend can render unchanged.

use crate::dataset::{trajectory_max, Dataset};
use crate::error::CollatzError;
use crate::text::{decimal, range_caption};
use vstd::prelude::*;

verus! {

/// Number of entries in the fixed series palette.
pub const PALETTE_LEN: usize = 8;

/// An RGB color.
#[derive(Clone, Copy, Debug, PartialEq, Eq, Structural)]
pub struct Color {
    pub r: u8,
    pub g: u8,
    pub b: u8,
}

/// The fixed palette, indexed modulo its size: series `i` always gets
/// `color_of_index(i)`.
pub open spec fn color_of_index(i: nat) -> Color {
    let d = i % (PALETTE_LEN as nat);
    if d == 0 {
        Color { r: 230, g: 25, b: 75 }
    } else if d == 1 {
        Color { r: 60, g: 180, b: 75 }
    } else if d == 2 {
        Color { r: 0, g: 130, b: 200 }
    } else if d == 3 {
        Color { r: 245, g: 130, b: 48 }
    } else if d == 4 {
        Color { r: 145, g: 30, b: 180 }
    } else if d == 5 {
        Color { r: 70, g: 240, b: 240 }
    } else if d == 6 {
        Color { r: 240, g: 50, b: 230 }
    } else {
        Color { r: 128, g: 128, b: 0 }
    }
}

/// Fill color of the per-start maximum-value histogram.
pub open spec fn max_value_bar_color() -> Color {
    Color { r: 0, g: 0, b: 255 }
}

/// Fill color of the per-start iteration-count histogram.
pub open spec fn iterations_bar_color() -> Color {
    Color { r: 0, g: 255, b: 0 }
}

/// The palette color for series index `i`.
pub fn pick_color(i: usize) -> (c: Color)
    ensures
        c == color_of_index(i as nat),
{
    match i % PALETTE_LEN {
        0 => Color { r: 230, g: 25, b: 75 },
        1 => Color { r: 60, g: 180, b: 75 },
        2 => Color { r: 0, g: 130, b: 200 },
        3 => Color { r: 245, g: 130, b: 48 },
        4 => Color { r: 145, g: 30, b: 180 },
        5 => Color { r: 70, g: 240, b: 240 },
        6 => Color { r: 240, g: 50, b: 230 },
        _ => Color { r: 128, g: 128, b: 0 },
    }
}

/// Which panels a chart is made of.
#[derive(Clone, Copy, Debug, PartialEq, Eq, Structural)]
pub enum ChartVariant {
    /// A single panel with one line series per trajectory.
    LineOnly,
    /// The line panel plus the iteration-count and maximum-value histograms.
    LineWithHistograms,
}

/// Chart configuration, built once at the boundary and passed by value.
#[derive(Clone, Copy, Debug)]
pub struct ChartSpec {
    pub variant: ChartVariant,
    /// Canvas width in output units (pixels or characters).
    pub width: u32,
    /// Canvas height in output units.
    pub height: u32,
}

impl ChartSpec {
    /// Default configuration of the three-panel bitmap chart.
    pub fn bitmap_default() -> (r: ChartSpec)
        ensures
            r.variant is LineWithHistograms,
            r.width == 1000,
            r.height == 1500,
    {
        ChartSpec { variant: ChartVariant::LineWithHistograms, width: 1000, height: 1500 }
    }

    /// Default configuration of the single-panel terminal chart.
    pub fn terminal_default() -> (r: ChartSpec)
        ensures
            r.variant is LineOnly,
            r.width == 80,
            r.height == 40,
    {
        ChartSpec { variant: ChartVariant::LineOnly, width: 80, height: 40 }
    }
}

/// One line series: its color and its points `(iteration index, value)`.
pub struct Series {
    pub color: Color,
    pub points: Vec<(usize, u64)>,
}

/// The line panel: every trajectory as one series, axes bounding the data
/// exactly.
pub struct LinePanel {
    pub caption: String,
    /// X axis runs over `0 ..= x_max` (iteration index).
    pub x_max: usize,
    /// Y axis runs over `0 ..= y_max` (trajectory value).
    pub y_max: u64,
    pub series: Vec<Series>,
}

/// A histogram panel: one vertical bar per starting value.
pub struct HistogramPanel {
    pub caption: String,
    /// X axis runs over `x_min .. x_max` (starting value).
    pub x_min: u64,
    pub x_max: u64,
    /// Y axis runs over `0 ..= y_max`.
    pub y_max: u64,
    /// Bar fill color.
    pub color: Color,
    /// Bars as `(starting value, bar height)`.
    pub bars: Vec<(u64, u64)>,
}

/// A panel of either kind.
pub enum Panel {
    Line(LinePanel),
    Histogram(HistogramPanel),
}

/// A fully laid-out chart, ready for a drawing backend: a fixed canvas
/// subdivided into equally sized horizontal panels, top panel first.
pub struct ChartDescription {
    pub width: u32,
    pub height: u32,
    /// Height of each panel: `height / number of panels`.
    pub panel_height: u32,
    pub panels: Vec<Panel>,
}

/// `m` is the largest value of `s`.
pub open spec fn is_seq_max(s: Seq<u64>, m: u64) -> bool {
    &&& forall|j: int| 0 <= j < s.len() ==> (#[trigger] s[j]) <= m
    &&& exists|j: int| 0 <= j < s.len() && (#[trigger] s[j]) == m
}

/// The line panel laid out for `d`: caption embedding the range, axes bound
/// by the extrema, series `i` holding trajectory `i`'s points in the palette
/// color for `i`.
pub open spec fn line_panel_for(p: LinePanel, d: Dataset) -> bool {
    &&& p.caption@ == "Collatz sequence for "@ + decimal(d.start as nat) + " to "@ + decimal(
        d.end_spec() as nat,
    )
    &&& p.x_max == d.max_iterations
    &&& p.y_max == d.max_height
    &&& p.series@.len() == d.trajectories@.len()
    &&& forall|i: int|
        0 <= i < d.trajectories@.len() ==> (#[trigger] p.series@[i]).color == color_of_index(
            i as nat,
        )
    &&& forall|i: int|
        0 <= i < d.trajectories@.len() ==> (#[trigger] p.series@[i]).points@.len()
            == d.trajectories@[i]@.len()
    &&& forall|i: int, j: int|
        0 <= i < d.trajectories@.len() && 0 <= j < d.trajectories@[i]@.len() ==> (
        #[trigger] p.series@[i].points@[j]) == (j as usize, d.trajectories@[i]@[j])
}

/// The iteration-count histogram laid out for `d`: one bar per start, height
/// the trajectory length, Y axis bound by `max_iterations`.
pub open spec fn iterations_panel_for(p: HistogramPanel, d: Dataset) -> bool {
    &&& p.caption@ == "Iterations for "@ + decimal(d.start as nat) + " to "@ + decimal(
        d.end_spec() as nat,
    )
    &&& p.x_min == d.start
    &&& p.x_max == d.end_spec()
    &&& p.y_max == d.max_iterations
    &&& p.color == iterations_bar_color()
    &&& p.bars@.len() == d.trajectories@.len()
    &&& forall|i: int|
        0 <= i < d.trajectories@.len() ==> (#[trigger] p.bars@[i]) == (
        (d.start + i) as u64,
        d.trajectories@[i]@.len() as u64,
        )
}

/// The maximum-value histogram laid out for `d`: one bar per start, height
/// the largest value of that trajectory, Y axis bound by `max_height`.
pub open spec fn max_value_panel_for(p: HistogramPanel, d: Dataset) -> bool {
    &&& p.caption@ == "Max Value for "@ + decimal(d.start as nat) + " to "@ + decimal(
        d.end_spec() as nat,
    )
    &&& p.x_min == d.start
    &&& p.x_max == d.end_spec()
    &&& p.y_max == d.max_height
    &&& p.color == max_value_bar_color()
    &&& p.bars@.len() == d.trajectories@.len()
    &&& forall|i: int|
        0 <= i < d.trajectories@.len() ==> (#[trigger] p.bars@[i]).0 == (d.start + i) as u64
            && is_seq_max(d.trajectories@[i]@, p.bars@[i].1)
}

/// The whole chart laid out for `d` under configuration `cfg`.
pub open spec fn chart_for(c: ChartDescription, d: Dataset, cfg: ChartSpec) -> bool {
    &&& c.width == cfg.width
    &&& c.height == cfg.height
    &&& match cfg.variant {
        ChartVariant::LineOnly => {
            &&& c.panel_height == cfg.height
            &&& c.panels@.len() == 1
            &&& c.panels@[0] matches Panel::Line(lp) && line_panel_for(lp, d)
        },
        ChartVariant::LineWithHistograms => {
            &&& c.panel_height == cfg.height / 3
            &&& c.panels@.len() == 3
            &&& c.panels@[0] matches Panel::Line(lp) && line_panel_for(lp, d)
            &&& c.panels@[1] matches Panel::Histogram(hp) && iterations_panel_for(hp, d)
            &&& c.panels@[2] matches Panel::Histogram(hp) && max_value_panel_for(hp, d)
        },
    }
}

/// Lays out the chart for `d`: the line panel, and for the three-panel
/// variant also both histograms, each axis exactly bounding the data.
///
/// Rejects an empty dataset with `EmptyDataset`; succeeds on every other
/// well-formed dataset.
pub fn compose_chart(d: &Dataset, cfg: &ChartSpec) -> (r: Result<ChartDescription, CollatzError>)
    requires
        d.wf(),
    ensures
        (r is Ok) <==> d.trajectories@.len() > 0,
        d.trajectories@.len() == 0 ==> r == Err::<ChartDescription, CollatzError>(
            CollatzError::EmptyDataset,
        ),
        r matches Ok(c) ==> chart_for(c, *d, *cfg),
{
    if d.trajectories.len() == 0 {
        return Err(CollatzError::EmptyDataset);
    }
    let end = d.end();
    let mut series: Vec<Series> = Vec::new();
    let mut i: usize = 0;
    while i < d.trajectories.len()
        invariant
            d.wf(),
            i <= d.trajectories@.len(),
            series@.len() == i,
            forall|a: int|
                0 <= a < i ==> (#[trigger] series@[a]).color == color_of_index(a as nat),
            forall|a: int|
                0 <= a < i ==> (#[trigger] series@[a]).points@.len() == d.trajectories@[a]@.len(),
            forall|a: int, j: int|
                0 <= a < i && 0 <= j < d.trajectories@[a]@.len() ==> (
                #[trigger] series@[a].points@[j]) == (j as usize, d.trajectories@[a]@[j]),
        decreases d.trajectories@.len() - i,
    {
        let t = &d.trajectories[i];
        let mut points: Vec<(usize, u64)> = Vec::new();
        let mut j: usize = 0;
        while j < t.len()
            invariant
                j <= t@.len(),
                points@.len() == j,
                t@ == d.trajectories@[i as int]@,
                i < d.trajectories@.len(),
                forall|b: int| 0 <= b < j ==> (#[trigger] points@[b]) == (b as usize, t@[b]),
            decreases t@.len() - j,
        {
            let val = t[j];
            points.push((j, val));
            j = j + 1;
        }
        let c = pick_color(i);
        series.push(Series { color: c, points });
        i = i + 1;
    }
    let line = LinePanel {
        caption: range_caption("Collatz sequence for ", d.start, end),
        x_max: d.max_iterations,
        y_max: d.max_height,
        series,
    };
    match cfg.variant {
        ChartVariant::LineOnly => {
            let mut panels: Vec<Panel> = Vec::new();
            panels.push(Panel::Line(line));
            Ok(
                ChartDescription {
                    width: cfg.width,
                    height: cfg.height,
                    panel_height: cfg.height,
                    panels,
                },
            )
        },
        ChartVariant::LineWithHistograms => {
            let mut iter_bars: Vec<(u64, u64)> = Vec::new();
            let mut i: usize = 0;
            while i < d.trajectories.len()
                invariant
                    d.wf(),
                    i <= d.trajectories@.len(),
                    iter_bars@.len() == i,
                    forall|a: int|
                        0 <= a < i ==> (#[trigger] iter_bars@[a]) == (
                        (d.start + a) as u64,
                        d.trajectories@[a]@.len() as u64,
                        ),
                decreases d.trajectories@.len() - i,
            {
                let len_i = d.trajectories[i].len();
                iter_bars.push((d.start + i as u64, len_i as u64));
                i = i + 1;
            }
            let mut value_bars: Vec<(u64, u64)> = Vec::new();
            let mut i: usize = 0;
            while i < d.trajectories.len()
                invariant
                    d.wf(),
                    i <= d.trajectories@.len(),
                    value_bars@.len() == i,
                    forall|a: int|
                        0 <= a < i ==> (#[trigger] value_bars@[a]).0 == (d.start + a) as u64
                            && is_seq_max(d.trajectories@[a]@, value_bars@[a].1),
                decreases d.trajectories@.len() - i,
            {
                let tm = trajectory_max(&d.trajectories[i]);
                value_bars.push((d.start + i as u64, tm));
                i = i + 1;
            }
            let iter_panel = HistogramPanel {
                caption: range_caption("Iterations for ", d.start, end),
                x_min: d.start,
                x_max: end,
                y_max: d.max_iterations as u64,
                color: Color { r: 0, g: 255, b: 0 },
                bars: iter_bars,
            };
            let value_panel = HistogramPanel {
                caption: range_caption("Max Value for ", d.start, end),
                x_min: d.start,
                x_max: end,
                y_max: d.max_height,
                color: Color { r: 0, g: 0, b: 255 },
                bars: value_bars,
            };
            let mut panels: Vec<Panel> = Vec::new();
            panels.push(Panel::Line(line));
            panels.push(Panel::Histogram(iter_panel));
            panels.push(Panel::Histogram(value_panel));
            Ok(
                ChartDescription {
                    width: cfg.width,
                    height: cfg.height,
                    panel_height: cfg.height / 3,
                    panels,
                },
            )
        },
    }
}

/// Extracts the line panel; meaningful only when the panel is a line panel.
pub open spec fn line_of(p: Panel) -> LinePanel {
    match p {
        Panel::Line(l) => l,
        Panel::Histogram(_) => arbitrary(),
    }
}

/// Color and series assignment is deterministic: any two charts laid out for
/// the same dataset under the same configuration carry the same number of
/// series and identical per-series colors.
pub proof fn lemma_color_assignment_deterministic(
    c1: ChartDescription,
    c2: ChartDescription,
    d: Dataset,
    cfg: ChartSpec,
)
    requires
        chart_for(c1, d, cfg),
        chart_for(c2, d, cfg),
    ensures
        c1.panels@.len() == c2.panels@.len(),
        c1.panels@[0] is Line && c2.panels@[0] is Line,
        line_of(c1.panels@[0]).series@.len() == line_of(c2.panels@[0]).series@.len(),
        forall|i: int|
            0 <= i < line_of(c1.panels@[0]).series@.len() ==> (#[trigger] line_of(
                c1.panels@[0],
            ).series@[i]).color == line_of(c2.panels@[0]).series@[i].color,
{
    let l1 = line_of(c1.panels@[0]);
    let l2 = line_of(c2.panels@[0]);
    assert(line_panel_for(l1, d) && line_panel_for(l2, d));
    assert forall|i: int| 0 <= i < l1.series@.len() implies (#[trigger] l1.series@[i]).color
        == l2.series@[i].color by {
        assert(l1.series@[i].color == color_of_index(i as nat));
        assert(l2.series@[i].color == color_of_index(i as nat));
    }
}

} // verus!
