//! The chart: ordered edge components around a stacked data series, and the
//! render pass that turns them into concrete geometry.
//!
//! A `Chart` is built by pushing edge components side by side — top and left
//! lists outermost first, right and bottom lists innermost first, matching
//! the order the layout compositor consumes. One render pass composes the
//! layout, builds the projection from the remaining inner area and the data
//! position range, and resolves the stacked series into value resolvers.

use vstd::prelude::*;

use crate::bounds::Bounds;
use crate::layout::{compose_post, AspectRatio, Edge, Layout, LayoutContext, sum_thickness};
use crate::projection::Projection;
use crate::series::{SeriesAcc, Stack};

verus! {

/// The declarative description of a chart: the edge components attached to
/// each side of the plot area, and the data series drawn inside it.
#[derive(Clone, Debug)]
pub struct Chart {
    pub top: Vec<Edge>,
    pub right: Vec<Edge>,
    pub bottom: Vec<Edge>,
    pub left: Vec<Edge>,
    pub series: Stack,
}

impl Chart {
    /// A chart of the given series with no edge components yet.
    pub fn new(series: Stack) -> (r: Chart)
        ensures
            r.top@ =~= Seq::<Edge>::empty(),
            r.right@ =~= Seq::<Edge>::empty(),
            r.bottom@ =~= Seq::<Edge>::empty(),
            r.left@ =~= Seq::<Edge>::empty(),
            r.series == series,
    {
        Chart {
            top: Vec::new(),
            right: Vec::new(),
            bottom: Vec::new(),
            left: Vec::new(),
            series,
        }
    }

    /// Adds a component to the top edge, inside any added before it.
    pub fn top(self, opt: Edge) -> (r: Chart)
        ensures
            r.top@ =~= self.top@.push(opt),
            r.right == self.right,
            r.bottom == self.bottom,
            r.left == self.left,
            r.series == self.series,
    {
        let mut top = self.top;
        top.push(opt);
        Chart { top, right: self.right, bottom: self.bottom, left: self.left, series: self.series }
    }

    /// Adds a component to the right edge, outside any added before it.
    pub fn right(self, opt: Edge) -> (r: Chart)
        ensures
            r.right@ =~= self.right@.push(opt),
            r.top == self.top,
            r.bottom == self.bottom,
            r.left == self.left,
            r.series == self.series,
    {
        let mut right = self.right;
        right.push(opt);
        Chart { top: self.top, right, bottom: self.bottom, left: self.left, series: self.series }
    }

    /// Adds a component to the bottom edge, outside any added before it.
    pub fn bottom(self, opt: Edge) -> (r: Chart)
        ensures
            r.bottom@ =~= self.bottom@.push(opt),
            r.top == self.top,
            r.right == self.right,
            r.left == self.left,
            r.series == self.series,
    {
        let mut bottom = self.bottom;
        bottom.push(opt);
        Chart { top: self.top, right: self.right, bottom, left: self.left, series: self.series }
    }

    /// Adds a component to the left edge, inside any added before it.
    pub fn left(self, opt: Edge) -> (r: Chart)
        ensures
            r.left@ =~= self.left@.push(opt),
            r.top == self.top,
            r.right == self.right,
            r.bottom == self.bottom,
            r.series == self.series,
    {
        let mut left = self.left;
        left.push(opt);
        Chart { top: self.top, right: self.right, bottom: self.bottom, left, series: self.series }
    }
}

/// One render pass over a chart, against the current environment dimensions:
/// composes the edge layout, projects the remaining inner plot area onto the
/// data position range, and resolves the stacked series into coloured value
/// resolvers. Pure in all its inputs: rerunning it with the same inputs
/// yields the same geometry.
pub fn render_chart(
    chart: Chart,
    aspect_ratio: &AspectRatio,
    ctx: &LayoutContext,
    env_width: u32,
    env_height: u32,
    position_range: &Bounds,
) -> (r: (Layout, Projection, SeriesAcc))
    requires
        chart.series.wf(),
        position_range.wf(),
        aspect_ratio.wf(),
        sum_thickness(chart.left@, *ctx) + aspect_ratio.spec_inner_size(env_width, env_height).0
            + sum_thickness(chart.right@, *ctx) <= i64::MAX,
        sum_thickness(chart.top@, *ctx) + aspect_ratio.spec_inner_size(env_width, env_height).1
            + sum_thickness(chart.bottom@, *ctx) <= i64::MAX,
    ensures
        compose_post(
            r.0,
            chart.top@,
            chart.right@,
            chart.bottom@,
            chart.left@,
            *aspect_ratio,
            *ctx,
            env_width,
            env_height,
        ),
        r.1.wf(),
        r.1.bounds == r.0.inner,
        r.1.range == *position_range,
        r.2.wf(),
        r.2.lines@.len() == chart.series.lines@.len(),
        forall|k: int|
            0 <= k < chart.series.lines@.len() ==> {
                let e = #[trigger] r.2.lines@[k];
                &&& e.colour == (match chart.series.lines@[k].colour {
                    Some(c) => c,
                    None => chart.series.palette()[k % (chart.series.palette().len() as int)],
                })
                &&& e.previous == (if k == 0 {
                    Option::<usize>::None
                } else {
                    Some((k - 1) as usize)
                })
            },
{
    let Chart { top, right, bottom, left, series: stack } = chart;
    let layout = Layout::compose(
        &top,
        &right,
        &bottom,
        &left,
        aspect_ratio,
        ctx,
        env_width,
        env_height,
    );
    let projection = Projection::new(layout.inner, *position_range);
    let mut series = SeriesAcc::new();
    stack.apply_use_series(&mut series);
    proof {
        assert forall|k: int| 0 <= k < stack.lines@.len() implies {
            let e = #[trigger] series.lines@[k];
            &&& e.colour == (match stack.lines@[k].colour {
                Some(c) => c,
                None => stack.palette()[k % (stack.palette().len() as int)],
            })
            &&& e.previous == (if k == 0 {
                Option::<usize>::None
            } else {
                Some((k - 1) as usize)
            })
        } by {
            assert(series.lines@[0 + k] == series.lines@[k]);
        }
    }
    (layout, projection, series)
}

} // verus!
