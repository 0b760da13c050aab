//! The render plan: everything the chart image shows, computed and pinned
//! down before any drawing happens.
//!
//! The canvas is split into five equal-height bands, one metric each, top to
//! bottom in field order.  Every panel shares the x axis — the full time
//! range of the dataset — and scales its y axis to its own metric's range.
//! A degenerate range (all values equal) stays a single point; it is the
//! drawing backend's documented job to render it without failing.

use vstd::prelude::*;
use crate::bits::{
    POS_INFINITY_BITS, NEG_INFINITY_BITS, is_nan_bits, le_bits, min_fold, max_fold, min_step,
    max_step, nan_bits, bits_le, lemma_min_fold_exact, lemma_max_fold_exact,
};
use crate::error::ChartError;
use crate::record::{
    Field, Record, PANEL_COUNT, field_value, field_value_spec, field_title, field_title_spec,
    panel_field, panel_field_spec,
};

verus! {

/// Canvas width in pixels.
pub const CANVAS_WIDTH: u32 = 2200;

/// Canvas height in pixels.
pub const CANVAS_HEIGHT: u32 = 1800;

/// Pixel height of one panel's band: the canvas splits evenly.
pub const BAND_HEIGHT: u32 = 360;

/// Outer margin of each chart region, in pixels.
pub const CHART_MARGIN: u32 = 20;

/// Pixels reserved under each chart for x-axis labels.
pub const X_LABEL_AREA: u32 = 50;

/// Pixels reserved left of each chart for y-axis labels.
pub const Y_LABEL_AREA: u32 = 100;

/// Font size of captions and axis labels.
pub const LABEL_FONT_SIZE: u32 = 20;

/// Stroke width of each band's border rectangle.
pub const BORDER_STROKE_WIDTH: u32 = 2;

/// Requested tick-label count per axis.
pub const AXIS_TICKS: usize = 5;

/// One metric's values across the dataset, in record order.
pub open spec fn metric_seq(data: Seq<Record>, f: Field) -> Seq<u64> {
    data.map_values(|r: Record| field_value_spec(r, f))
}

/// One panel of the chart: its metric, caption, pixel band, border
/// rectangle, y-axis bounds and line-series points, all fixed.
#[derive(Debug, PartialEq)]
pub struct PanelPlan {
    pub field: Field,
    pub title: String,
    pub band_top: u32,
    pub band_bottom: u32,
    pub border_x0: u32,
    pub border_y0: u32,
    pub border_x1: u32,
    pub border_y1: u32,
    pub y_min: u64,
    pub y_max: u64,
    pub points: Vec<(u64, u64)>,
}

/// The full drawing plan for one dataset.
#[derive(Debug, PartialEq)]
pub struct RenderPlan {
    pub width: u32,
    pub height: u32,
    pub x_min: u64,
    pub x_max: u64,
    pub panels: Vec<PanelPlan>,
}

/// First pixel row of band `k`.
pub open spec fn band_top_spec(k: int) -> int {
    k * (BAND_HEIGHT as int)
}

/// `pl` is exactly the panel the dataset determines for position `k`.
pub open spec fn panel_for(data: Seq<Record>, k: int, pl: PanelPlan) -> bool {
    &&& pl.field == panel_field_spec(k)
    &&& pl.title@ == field_title_spec(panel_field_spec(k))
    &&& pl.band_top == band_top_spec(k)
    &&& pl.band_bottom == band_top_spec(k + 1)
    &&& pl.border_x0 == 0
    &&& pl.border_y0 == band_top_spec(k)
    &&& pl.border_x1 == CANVAS_WIDTH - 1
    &&& pl.border_y1 == band_top_spec(k + 1) - 1
    &&& pl.y_min == min_fold(metric_seq(data, panel_field_spec(k)))
    &&& pl.y_max == max_fold(metric_seq(data, panel_field_spec(k)))
    &&& pl.points@.len() == data.len()
    &&& forall|i: int|
        0 <= i < data.len() ==> #[trigger] pl.points@[i] == (
            data[i].time,
            field_value_spec(data[i], panel_field_spec(k)),
        )
}

/// `p` is exactly the plan the dataset determines.
pub open spec fn plan_for(data: Seq<Record>, p: RenderPlan) -> bool {
    &&& p.width == CANVAS_WIDTH
    &&& p.height == CANVAS_HEIGHT
    &&& p.x_min == min_fold(metric_seq(data, Field::Time))
    &&& p.x_max == max_fold(metric_seq(data, Field::Time))
    &&& p.panels@.len() == PANEL_COUNT
    &&& forall|k: int| 0 <= k < PANEL_COUNT ==> panel_for(data, k, #[trigger] p.panels@[k])
}

/// Running minimum and maximum of one metric over the whole dataset, NaN
/// entries skipped, starting from the infinities.
fn metric_bounds(data: &Vec<Record>, f: Field) -> (b: (u64, u64))
    ensures
        b.0 == min_fold(metric_seq(data@, f)),
        b.1 == max_fold(metric_seq(data@, f)),
{
    let ghost s = metric_seq(data@, f);
    let mut lo = POS_INFINITY_BITS;
    let mut hi = NEG_INFINITY_BITS;
    let n = data.len();
    for i in 0..n
        invariant
            n == data@.len(),
            s == metric_seq(data@, f),
            s.len() == n,
            lo == min_fold(s.take(i as int)),
            hi == max_fold(s.take(i as int)),
    {
        let v = field_value(&data[i], f);
        proof {
            assert(s.take(i + 1).drop_last() =~= s.take(i as int));
            assert(s.take(i + 1).last() == v);
            assert(min_fold(s.take(i + 1)) == min_step(lo, v));
            assert(max_fold(s.take(i + 1)) == max_step(hi, v));
        }
        if !nan_bits(v) {
            if bits_le(v, lo) {
                lo = v;
            }
            if bits_le(hi, v) {
                hi = v;
            }
        }
    }
    proof {
        assert(s.take(n as int) =~= s);
    }
    (lo, hi)
}

/// Computes the whole drawing plan, or rejects an empty dataset before any
/// bound is computed.  Succeeds on every non-empty dataset.
pub fn render_plan(data: &Vec<Record>) -> (r: Result<RenderPlan, ChartError>)
    ensures
        (r is Ok) <==> data@.len() > 0,
        r matches Ok(p) ==> plan_for(data@, p),
        r matches Err(e) ==> e == ChartError::EmptyDataset,
{
    if data.len() == 0 {
        return Err(ChartError::EmptyDataset);
    }
    let (x_min, x_max) = metric_bounds(data, Field::Time);
    let mut panels: Vec<PanelPlan> = Vec::new();
    for k in 0..PANEL_COUNT
        invariant
            panels@.len() == k,
            forall|k2: int| 0 <= k2 < k ==> panel_for(data@, k2, #[trigger] panels@[k2]),
    {
        let f = panel_field(k);
        let (y_min, y_max) = metric_bounds(data, f);
        let mut points: Vec<(u64, u64)> = Vec::new();
        let n = data.len();
        for i in 0..n
            invariant
                n == data@.len(),
                f == panel_field_spec(k as int),
                points@.len() == i,
                forall|i2: int|
                    0 <= i2 < i ==> #[trigger] points@[i2] == (
                        data@[i2].time,
                        field_value_spec(data@[i2], f),
                    ),
        {
            let t = data[i].time;
            let v = field_value(&data[i], f);
            points.push((t, v));
        }
        let band_top = (k as u32) * BAND_HEIGHT;
        let band_bottom = (k as u32 + 1) * BAND_HEIGHT;
        panels.push(
            PanelPlan {
                field: f,
                title: field_title(f),
                band_top,
                band_bottom,
                border_x0: 0,
                border_y0: band_top,
                border_x1: CANVAS_WIDTH - 1,
                border_y1: band_bottom - 1,
                y_min,
                y_max,
                points,
            },
        );
    }
    Ok(RenderPlan { width: CANVAS_WIDTH, height: CANVAS_HEIGHT, x_min, x_max, panels })
}

/// Two panels agree in everything the drawing step reads.
pub open spec fn panel_agrees(a: PanelPlan, b: PanelPlan) -> bool {
    &&& a.field == b.field
    &&& a.title@ == b.title@
    &&& a.band_top == b.band_top
    &&& a.band_bottom == b.band_bottom
    &&& a.border_x0 == b.border_x0
    &&& a.border_y0 == b.border_y0
    &&& a.border_x1 == b.border_x1
    &&& a.border_y1 == b.border_y1
    &&& a.y_min == b.y_min
    &&& a.y_max == b.y_max
    &&& a.points@ == b.points@
}

/// Planning is deterministic: two plans computed from the same dataset
/// agree in every field the drawing step reads, so rendering the same
/// dataset twice draws the same image (up to the drawing backend itself).
pub proof fn lemma_plan_deterministic(data: Seq<Record>, p1: RenderPlan, p2: RenderPlan)
    requires
        plan_for(data, p1),
        plan_for(data, p2),
    ensures
        p1.width == p2.width,
        p1.height == p2.height,
        p1.x_min == p2.x_min,
        p1.x_max == p2.x_max,
        p1.panels@.len() == p2.panels@.len(),
        forall|k: int|
            0 <= k < p1.panels@.len() ==> panel_agrees(
                #[trigger] p1.panels@[k],
                p2.panels@[k],
            ),
{
    assert forall|k: int| 0 <= k < p1.panels@.len() implies panel_agrees(
        p1.panels@[k],
        p2.panels@[k],
    ) by {
        assert(panel_for(data, k, p1.panels@[k]));
        assert(panel_for(data, k, p2.panels@[k]));
        assert(p1.panels@[k].points@ =~= p2.panels@[k].points@);
    }
}

/// Axis bounds are exact.  The shared x range is the least and greatest
/// time, and panel `k`'s y range is the least and greatest value of its own
/// metric: each bound lies at or beyond every non-NaN entry and is itself
/// one of the entries whenever any entry is not NaN.
pub proof fn lemma_plan_bounds_exact(data: Seq<Record>, p: RenderPlan, k: int)
    requires
        plan_for(data, p),
        0 <= k < PANEL_COUNT,
    ensures
        forall|i: int|
            0 <= i < data.len() && !is_nan_bits(#[trigger] data[i].time) ==> le_bits(
                p.x_min,
                data[i].time,
            ) && le_bits(data[i].time, p.x_max),
        (exists|i: int| 0 <= i < data.len() && !is_nan_bits(#[trigger] data[i].time)) ==> (
        (exists|i: int| 0 <= i < data.len() && #[trigger] data[i].time == p.x_min) && (exists|i: int|
            0 <= i < data.len() && #[trigger] data[i].time == p.x_max)),
        forall|i: int|
            0 <= i < data.len() && !is_nan_bits(field_value_spec(
                #[trigger] data[i],
                panel_field_spec(k),
            )) ==> le_bits(p.panels@[k].y_min, field_value_spec(data[i], panel_field_spec(k)))
                && le_bits(field_value_spec(data[i], panel_field_spec(k)), p.panels@[k].y_max),
        (exists|i: int|
            0 <= i < data.len() && !is_nan_bits(field_value_spec(
                #[trigger] data[i],
                panel_field_spec(k),
            ))) ==> ((exists|i: int|
            0 <= i < data.len() && field_value_spec(#[trigger] data[i], panel_field_spec(k))
                == p.panels@[k].y_min) && (exists|i: int|
            0 <= i < data.len() && field_value_spec(#[trigger] data[i], panel_field_spec(k))
                == p.panels@[k].y_max)),
{
    let times = metric_seq(data, Field::Time);
    let vals = metric_seq(data, panel_field_spec(k));
    assert(times.len() == data.len());
    assert(vals.len() == data.len());
    assert(forall|i: int| 0 <= i < data.len() ==> #[trigger] times[i] == data[i].time);
    assert(forall|i: int|
        0 <= i < data.len() ==> #[trigger] vals[i] == field_value_spec(
            data[i],
            panel_field_spec(k),
        ));
    lemma_min_fold_exact(times);
    lemma_max_fold_exact(times);
    lemma_min_fold_exact(vals);
    lemma_max_fold_exact(vals);
    assert forall|i: int| 0 <= i < data.len() && !is_nan_bits(#[trigger] data[i].time) implies
        le_bits(p.x_min, data[i].time) && le_bits(data[i].time, p.x_max) by {
        assert(times[i] == data[i].time);
    }
    if exists|i: int| 0 <= i < data.len() && !is_nan_bits(#[trigger] data[i].time) {
        let w0 = choose|i: int| 0 <= i < data.len() && !is_nan_bits(#[trigger] data[i].time);
        assert(times[w0] == data[w0].time);
        assert(exists|i: int| 0 <= i < times.len() && !is_nan_bits(#[trigger] times[i]));
        let wmin = choose|i: int| 0 <= i < times.len() && #[trigger] times[i] == min_fold(times);
        assert(data[wmin].time == p.x_min);
        let wmax = choose|i: int| 0 <= i < times.len() && #[trigger] times[i] == max_fold(times);
        assert(data[wmax].time == p.x_max);
    }
    assert forall|i: int|
        0 <= i < data.len() && !is_nan_bits(field_value_spec(
            #[trigger] data[i],
            panel_field_spec(k),
        )) implies le_bits(p.panels@[k].y_min, field_value_spec(data[i], panel_field_spec(k)))
        && le_bits(field_value_spec(data[i], panel_field_spec(k)), p.panels@[k].y_max) by {
        assert(vals[i] == field_value_spec(data[i], panel_field_spec(k)));
    }
    if exists|i: int|
        0 <= i < data.len() && !is_nan_bits(field_value_spec(
            #[trigger] data[i],
            panel_field_spec(k),
        )) {
        let w0 = choose|i: int|
            0 <= i < data.len() && !is_nan_bits(field_value_spec(
                #[trigger] data[i],
                panel_field_spec(k),
            ));
        assert(vals[w0] == field_value_spec(data[w0], panel_field_spec(k)));
        assert(exists|i: int| 0 <= i < vals.len() && !is_nan_bits(#[trigger] vals[i]));
        let wmin = choose|i: int| 0 <= i < vals.len() && #[trigger] vals[i] == min_fold(vals);
        assert(field_value_spec(data[wmin], panel_field_spec(k)) == p.panels@[k].y_min);
        let wmax = choose|i: int| 0 <= i < vals.len() && #[trigger] vals[i] == max_fold(vals);
        assert(field_value_spec(data[wmax], panel_field_spec(k)) == p.panels@[k].y_max);
    }
}

} // verus!
