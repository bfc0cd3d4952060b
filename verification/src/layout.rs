//! Layout composition: allocating nested rectangular regions to an ordered
//! set of edge components around the inner plot area.
//!
//! The compositor starts from the target inner area determined by the
//! aspect-ratio policy and grows outward, attaching each component's strip
//! around the accumulated rectangle. The component lists for the top and left
//! sides are declared outermost first, those for the right and bottom sides
//! innermost first, so that on every side the visual stacking follows the
//! order in which the caller added the components.

use vstd::prelude::*;

use crate::bounds::Bounds;

verus! {

/// The sizing context shared by every edge component: the height of a line
/// of text and the padding applied on each side of it.
#[derive(Clone, Copy, Debug, PartialEq, Eq, Structural)]
pub struct LayoutContext {
    pub font_height: u16,
    pub padding: u16,
}

/// An edge component: a sizing policy for a strip attached to one side of
/// the plot area.
#[derive(Clone, Copy, Debug, PartialEq, Eq, Structural)]
pub enum Edge {
    /// A strip of a fixed thickness, such as a legend of known size.
    Fixed { size: u32 },
    /// A strip sized for `lines` lines of text with padding, such as an axis
    /// label or tick labels.
    Label { lines: u16 },
}

/// The thickness of the strip an edge component requires, given the shared
/// font and padding context.
pub open spec fn spec_thickness(e: Edge, ctx: LayoutContext) -> int {
    match e {
        Edge::Fixed { size } => size as int,
        Edge::Label { lines } => lines * (ctx.font_height + 2 * ctx.padding),
    }
}

/// Every thickness is non-negative and small against the coordinate space.
pub proof fn lemma_thickness_bounds(e: Edge, ctx: LayoutContext)
    ensures
        0 <= spec_thickness(e, ctx) <= 0x1_0000_0000_0000,
{
    match e {
        Edge::Fixed { size } => {
        },
        Edge::Label { lines } => {
            assert(0 <= lines * (ctx.font_height + 2 * ctx.padding) <= 0x1_0000_0000_0000)
                by (nonlinear_arith)
                requires
                    0 <= lines < 0x1_0000,
                    0 <= ctx.font_height < 0x1_0000,
                    0 <= ctx.padding < 0x1_0000,
            {
            }
        },
    }
}

impl Edge {
    /// Computes the component's required strip thickness.
    pub fn thickness(&self, ctx: &LayoutContext) -> (r: u64)
        ensures
            r == spec_thickness(*self, *ctx),
            r <= 0x1_0000_0000_0000,
    {
        proof {
            lemma_thickness_bounds(*self, *ctx);
        }
        match self {
            Edge::Fixed { size } => *size as u64,
            Edge::Label { lines } => (*lines as u64) * (ctx.font_height as u64 + 2
                * (ctx.padding as u64)),
        }
    }
}

/// The total thickness of the first `k` components of a side, in declaration
/// order.
pub open spec fn prefix_thickness(edges: Seq<Edge>, ctx: LayoutContext, k: int) -> int
    decreases k,
{
    if k <= 0 {
        0
    } else {
        prefix_thickness(edges, ctx, k - 1) + spec_thickness(edges[k - 1], ctx)
    }
}

/// The total thickness of one side's components.
pub open spec fn sum_thickness(edges: Seq<Edge>, ctx: LayoutContext) -> int {
    prefix_thickness(edges, ctx, edges.len() as int)
}

/// Prefix thicknesses grow monotonically, each step by the thickness of the
/// component it adds.
pub proof fn lemma_prefix_mono(edges: Seq<Edge>, ctx: LayoutContext, k1: int, k2: int)
    requires
        0 <= k1 <= k2 <= edges.len(),
    ensures
        0 <= prefix_thickness(edges, ctx, k1) <= prefix_thickness(edges, ctx, k2),
    decreases k2,
{
    if k2 > 0 {
        lemma_thickness_bounds(edges[k2 - 1], ctx);
        if k1 < k2 {
            lemma_prefix_mono(edges, ctx, k1, k2 - 1);
        } else {
            lemma_prefix_mono(edges, ctx, k1 - 1, k1 - 1);
        }
    }
}

/// Every offset within a side's total thickness falls inside exactly the
/// strip of one component: the one whose prefix interval contains it.
pub proof fn lemma_prefix_cover(edges: Seq<Edge>, ctx: LayoutContext, k: int, v: int)
    requires
        0 <= k <= edges.len(),
        0 <= v < prefix_thickness(edges, ctx, k),
    ensures
        exists|d: int|
            0 <= d < k && #[trigger] prefix_thickness(edges, ctx, d) <= v < prefix_thickness(
                edges,
                ctx,
                d,
            ) + spec_thickness(edges[d], ctx),
    decreases k,
{
    if k > 0 {
        if v < prefix_thickness(edges, ctx, k - 1) {
            lemma_prefix_cover(edges, ctx, k - 1, v);
        } else {
            assert(prefix_thickness(edges, ctx, k - 1) <= v < prefix_thickness(edges, ctx, k - 1)
                + spec_thickness(edges[k - 1], ctx));
        }
    }
}

/// The aspect-ratio policy for the inner plot area: its dimensions are either
/// known outright, derived from one known dimension and a width-to-height
/// ratio, or taken from the environment's container dimensions.
#[derive(Clone, Copy, Debug, PartialEq, Eq, Structural)]
pub enum AspectRatio {
    /// Both inner dimensions are known.
    Inner { width: u32, height: u32 },
    /// The inner width is known; the height follows from the ratio
    /// `ratio_num / ratio_den` as `width * ratio_den / ratio_num`.
    InnerWidthAndRatio { width: u32, ratio_num: u16, ratio_den: u16 },
    /// The inner height is known; the width follows from the ratio as
    /// `height * ratio_num / ratio_den`.
    InnerHeightAndRatio { height: u32, ratio_num: u16, ratio_den: u16 },
    /// Both inner dimensions come from the environment.
    Environment,
    /// The inner width comes from the environment; the height is known.
    EnvironmentWidth { height: u32 },
    /// The inner height comes from the environment; the width is known.
    EnvironmentHeight { width: u32 },
}

impl AspectRatio {
    /// Well-formedness: a ratio never divides by zero.
    pub open spec fn wf(self) -> bool {
        match self {
            AspectRatio::InnerWidthAndRatio { ratio_num, .. } => ratio_num > 0,
            AspectRatio::InnerHeightAndRatio { ratio_den, .. } => ratio_den > 0,
            _ => true,
        }
    }

    /// The concrete target inner size a policy resolves to, against the
    /// currently known environment width and height.
    pub open spec fn spec_inner_size(self, env_width: u32, env_height: u32) -> (int, int) {
        match self {
            AspectRatio::Inner { width, height } => (width as int, height as int),
            AspectRatio::InnerWidthAndRatio { width, ratio_num, ratio_den } => (
                width as int,
                (width * ratio_den) / (ratio_num as int),
            ),
            AspectRatio::InnerHeightAndRatio { height, ratio_num, ratio_den } => (
                (height * ratio_num) / (ratio_den as int),
                height as int,
            ),
            AspectRatio::Environment => (env_width as int, env_height as int),
            AspectRatio::EnvironmentWidth { height } => (env_width as int, height as int),
            AspectRatio::EnvironmentHeight { width } => (width as int, env_height as int),
        }
    }

    /// Resolves the policy to the concrete target inner size. Environment
    /// policies consult the given container dimensions; the others ignore
    /// them. Resolution happens once per composition pass.
    pub fn resolve(&self, env_width: u32, env_height: u32) -> (r: (u64, u64))
        requires
            self.wf(),
        ensures
            (r.0 as int, r.1 as int) == self.spec_inner_size(env_width, env_height),
            r.0 <= 0x1_0000_0000_0000,
            r.1 <= 0x1_0000_0000_0000,
    {
        match self {
            AspectRatio::Inner { width, height } => (*width as u64, *height as u64),
            AspectRatio::InnerWidthAndRatio { width, ratio_num, ratio_den } => {
                proof {
                    lemma_scaled_ratio_bound(*width as int, *ratio_den as int, *ratio_num as int);
                }
                (*width as u64, (*width as u64 * *ratio_den as u64) / (*ratio_num as u64))
            },
            AspectRatio::InnerHeightAndRatio { height, ratio_num, ratio_den } => {
                proof {
                    lemma_scaled_ratio_bound(*height as int, *ratio_num as int, *ratio_den as int);
                }
                ((*height as u64 * *ratio_num as u64) / (*ratio_den as u64), *height as u64)
            },
            AspectRatio::Environment => (env_width as u64, env_height as u64),
            AspectRatio::EnvironmentWidth { height } => (env_width as u64, *height as u64),
            AspectRatio::EnvironmentHeight { width } => (*width as u64, env_height as u64),
        }
    }
}

/// Scaling a container-sized dimension by a ratio keeps it small against the
/// coordinate space.
proof fn lemma_scaled_ratio_bound(w: int, m: int, d: int)
    requires
        0 <= w < 0x1_0000_0000,
        0 <= m < 0x1_0000,
        1 <= d,
    ensures
        0 <= w * m <= 0x1_0000_0000_0000,
        0 <= (w * m) / d <= 0x1_0000_0000_0000,
{
    assert(0 <= w * m <= 0x1_0000_0000_0000) by (nonlinear_arith)
        requires
            0 <= w < 0x1_0000_0000,
            0 <= m < 0x1_0000,
    {
    }
    assert(0 <= (w * m) / d <= w * m) by (nonlinear_arith)
        requires
            0 <= w * m,
            1 <= d,
    {
    }
}


/// The side of the plot area an edge component is attached to.
#[derive(Clone, Copy, Debug, PartialEq, Eq, Structural)]
pub enum Side {
    Top,
    Right,
    Bottom,
    Left,
}

/// One edge component's identity — its side and its position in that side's
/// declaration order — together with the rectangle allocated to it.
#[derive(Clone, Copy, Debug, PartialEq, Eq, Structural)]
pub struct EdgeAlloc {
    pub side: Side,
    pub index: usize,
    pub bounds: Bounds,
}

/// The result of one composition pass: the outer bounds after all edges are
/// allocated, the remaining inner plot area, and one allocation per edge
/// component, listed top, right, bottom, then left, in declaration order
/// within each side.
#[derive(Clone, Debug)]
pub struct Layout {
    pub outer: Bounds,
    pub inner: Bounds,
    pub edges: Vec<EdgeAlloc>,
}

/// Exact description of a composed layout: the inner area sits at the origin
/// with the size the aspect-ratio policy resolved to; the outer area extends
/// it by each side's total thickness; and every edge component owns the strip
/// between its side's prefix thicknesses. Top and left components are
/// declared outermost first, right and bottom components innermost first.
pub open spec fn compose_post(
    r: Layout,
    top: Seq<Edge>,
    right: Seq<Edge>,
    bottom: Seq<Edge>,
    left: Seq<Edge>,
    ar: AspectRatio,
    ctx: LayoutContext,
    env_width: u32,
    env_height: u32,
) -> bool {
    let iw = ar.spec_inner_size(env_width, env_height).0;
    let ih = ar.spec_inner_size(env_width, env_height).1;
    let st = sum_thickness(top, ctx);
    let sr = sum_thickness(right, ctx);
    let sb = sum_thickness(bottom, ctx);
    let sl = sum_thickness(left, ctx);
    let nt = top.len() as int;
    let nr = right.len() as int;
    let nb = bottom.len() as int;
    let nl = left.len() as int;
    &&& r.inner.left == 0 && r.inner.top == 0 && r.inner.right == iw && r.inner.bottom == ih
    &&& r.outer.left == -sl && r.outer.top == -st && r.outer.right == iw + sr && r.outer.bottom
        == ih + sb
    &&& r.edges@.len() == nt + nr + nb + nl
    &&& forall|d: int|
        0 <= d < nt ==> {
            let e = #[trigger] r.edges@[d];
            &&& e.side == Side::Top
            &&& e.index == d
            &&& e.bounds.left == 0
            &&& e.bounds.right == iw
            &&& e.bounds.top == prefix_thickness(top, ctx, d) - st
            &&& e.bounds.bottom == prefix_thickness(top, ctx, d) + spec_thickness(top[d], ctx) - st
        }
    &&& forall|d: int|
        0 <= d < nr ==> {
            let e = #[trigger] r.edges@[nt + d];
            &&& e.side == Side::Right
            &&& e.index == d
            &&& e.bounds.top == -st
            &&& e.bounds.bottom == ih
            &&& e.bounds.left == iw + prefix_thickness(right, ctx, d)
            &&& e.bounds.right == iw + prefix_thickness(right, ctx, d) + spec_thickness(
                right[d],
                ctx,
            )
        }
    &&& forall|d: int|
        0 <= d < nb ==> {
            let e = #[trigger] r.edges@[nt + nr + d];
            &&& e.side == Side::Bottom
            &&& e.index == d
            &&& e.bounds.left == 0
            &&& e.bounds.right == iw + sr
            &&& e.bounds.top == ih + prefix_thickness(bottom, ctx, d)
            &&& e.bounds.bottom == ih + prefix_thickness(bottom, ctx, d) + spec_thickness(
                bottom[d],
                ctx,
            )
        }
    &&& forall|d: int|
        0 <= d < nl ==> {
            let e = #[trigger] r.edges@[nt + nr + nb + d];
            &&& e.side == Side::Left
            &&& e.index == d
            &&& e.bounds.top == -st
            &&& e.bounds.bottom == ih + sb
            &&& e.bounds.left == prefix_thickness(left, ctx, d) - sl
            &&& e.bounds.right == prefix_thickness(left, ctx, d) + spec_thickness(left[d], ctx)
                - sl
        }
}

/// Sums one side's component thicknesses.
fn side_total(edges: &Vec<Edge>, ctx: &LayoutContext) -> (r: i64)
    requires
        sum_thickness(edges@, *ctx) <= i64::MAX,
    ensures
        r == sum_thickness(edges@, *ctx),
        r >= 0,
{
    let mut acc: i64 = 0;
    let mut k: usize = 0;
    while k < edges.len()
        invariant
            k <= edges@.len(),
            acc == prefix_thickness(edges@, *ctx, k as int),
            0 <= acc,
            sum_thickness(edges@, *ctx) <= i64::MAX,
        decreases edges@.len() - k,
    {
        proof {
            lemma_prefix_mono(edges@, *ctx, k as int + 1, edges@.len() as int);
            lemma_prefix_mono(edges@, *ctx, 0, k as int + 1);
        }
        let t = edges[k].thickness(ctx);
        acc = acc + t as i64;
        k = k + 1;
    }
    proof {
        lemma_prefix_mono(edges@, *ctx, 0, edges@.len() as int);
    }
    acc
}

/// Places the top components: strips spanning the inner width, stacked from
/// the outer edge downward toward the plot, outermost declared first.
fn place_top(top: &Vec<Edge>, ctx: &LayoutContext, iw: i64, st: i64) -> (r: Vec<EdgeAlloc>)
    requires
        st == sum_thickness(top@, *ctx),
        iw >= 0,
    ensures
        r@.len() == top@.len(),
        forall|d: int|
            0 <= d < top@.len() ==> {
                let e = #[trigger] r@[d];
                &&& e.side == Side::Top
                &&& e.index == d
                &&& e.bounds.left == 0
                &&& e.bounds.right == iw
                &&& e.bounds.top == prefix_thickness(top@, *ctx, d) - st
                &&& e.bounds.bottom == prefix_thickness(top@, *ctx, d) + spec_thickness(
                    top@[d],
                    *ctx,
                ) - st
            },
{
    proof {
        lemma_prefix_mono(top@, *ctx, 0, top@.len() as int);
    }
    let mut r: Vec<EdgeAlloc> = Vec::new();
    let mut off: i64 = 0;
    let mut k: usize = 0;
    while k < top.len()
        invariant
            k <= top@.len(),
            r@.len() == k,
            st == sum_thickness(top@, *ctx),
            iw >= 0,
            off == prefix_thickness(top@, *ctx, k as int),
            0 <= off <= st,
            forall|d: int|
                0 <= d < k ==> {
                    let e = #[trigger] r@[d];
                    &&& e.side == Side::Top
                    &&& e.index == d
                    &&& e.bounds.left == 0
                    &&& e.bounds.right == iw
                    &&& e.bounds.top == prefix_thickness(top@, *ctx, d) - st
                    &&& e.bounds.bottom == prefix_thickness(top@, *ctx, d) + spec_thickness(
                        top@[d],
                        *ctx,
                    ) - st
                },
        decreases top@.len() - k,
    {
        proof {
            lemma_prefix_mono(top@, *ctx, k as int + 1, top@.len() as int);
            lemma_prefix_mono(top@, *ctx, 0, k as int + 1);
        }
        let t = top[k].thickness(ctx) as i64;
        r.push(
            EdgeAlloc {
                side: Side::Top,
                index: k,
                bounds: Bounds { left: 0, top: off - st, right: iw, bottom: off + t - st },
            },
        );
        off = off + t;
        k = k + 1;
    }
    r
}

/// Places the right components: strips spanning from the outer top edge to
/// the inner bottom, stacked from the plot outward, innermost declared first.
fn place_right(right: &Vec<Edge>, ctx: &LayoutContext, iw: i64, ih: i64, st: i64, sr: i64) -> (r:
    Vec<EdgeAlloc>)
    requires
        sr == sum_thickness(right@, *ctx),
        st >= 0,
        iw >= 0,
        ih >= 0,
        iw + sr <= i64::MAX,
    ensures
        r@.len() == right@.len(),
        forall|d: int|
            0 <= d < right@.len() ==> {
                let e = #[trigger] r@[d];
                &&& e.side == Side::Right
                &&& e.index == d
                &&& e.bounds.top == -st
                &&& e.bounds.bottom == ih
                &&& e.bounds.left == iw + prefix_thickness(right@, *ctx, d)
                &&& e.bounds.right == iw + prefix_thickness(right@, *ctx, d) + spec_thickness(
                    right@[d],
                    *ctx,
                )
            },
{
    proof {
        lemma_prefix_mono(right@, *ctx, 0, right@.len() as int);
    }
    let mut r: Vec<EdgeAlloc> = Vec::new();
    let mut off: i64 = 0;
    let mut k: usize = 0;
    while k < right.len()
        invariant
            k <= right@.len(),
            r@.len() == k,
            sr == sum_thickness(right@, *ctx),
            st >= 0,
            iw >= 0,
            ih >= 0,
            iw + sr <= i64::MAX,
            off == prefix_thickness(right@, *ctx, k as int),
            0 <= off <= sr,
            forall|d: int|
                0 <= d < k ==> {
                    let e = #[trigger] r@[d];
                    &&& e.side == Side::Right
                    &&& e.index == d
                    &&& e.bounds.top == -st
                    &&& e.bounds.bottom == ih
                    &&& e.bounds.left == iw + prefix_thickness(right@, *ctx, d)
                    &&& e.bounds.right == iw + prefix_thickness(right@, *ctx, d) + spec_thickness(
                        right@[d],
                        *ctx,
                    )
                },
        decreases right@.len() - k,
    {
        proof {
            lemma_prefix_mono(right@, *ctx, k as int + 1, right@.len() as int);
            lemma_prefix_mono(right@, *ctx, 0, k as int + 1);
        }
        let t = right[k].thickness(ctx) as i64;
        r.push(
            EdgeAlloc {
                side: Side::Right,
                index: k,
                bounds: Bounds { left: iw + off, top: -st, right: iw + off + t, bottom: ih },
            },
        );
        off = off + t;
        k = k + 1;
    }
    r
}

/// Places the bottom components: strips spanning from the inner left edge to
/// the outer right, stacked from the plot outward, innermost declared first.
fn place_bottom(bottom: &Vec<Edge>, ctx: &LayoutContext, iw: i64, ih: i64, sr: i64, sb: i64) -> (r:
    Vec<EdgeAlloc>)
    requires
        sb == sum_thickness(bottom@, *ctx),
        sr >= 0,
        iw >= 0,
        ih >= 0,
        iw + sr <= i64::MAX,
        ih + sb <= i64::MAX,
    ensures
        r@.len() == bottom@.len(),
        forall|d: int|
            0 <= d < bottom@.len() ==> {
                let e = #[trigger] r@[d];
                &&& e.side == Side::Bottom
                &&& e.index == d
                &&& e.bounds.left == 0
                &&& e.bounds.right == iw + sr
                &&& e.bounds.top == ih + prefix_thickness(bottom@, *ctx, d)
                &&& e.bounds.bottom == ih + prefix_thickness(bottom@, *ctx, d) + spec_thickness(
                    bottom@[d],
                    *ctx,
                )
            },
{
    proof {
        lemma_prefix_mono(bottom@, *ctx, 0, bottom@.len() as int);
    }
    let mut r: Vec<EdgeAlloc> = Vec::new();
    let mut off: i64 = 0;
    let mut k: usize = 0;
    while k < bottom.len()
        invariant
            k <= bottom@.len(),
            r@.len() == k,
            sb == sum_thickness(bottom@, *ctx),
            sr >= 0,
            iw >= 0,
            ih >= 0,
            iw + sr <= i64::MAX,
            ih + sb <= i64::MAX,
            off == prefix_thickness(bottom@, *ctx, k as int),
            0 <= off <= sb,
            forall|d: int|
                0 <= d < k ==> {
                    let e = #[trigger] r@[d];
                    &&& e.side == Side::Bottom
                    &&& e.index == d
                    &&& e.bounds.left == 0
                    &&& e.bounds.right == iw + sr
                    &&& e.bounds.top == ih + prefix_thickness(bottom@, *ctx, d)
                    &&& e.bounds.bottom == ih + prefix_thickness(bottom@, *ctx, d)
                        + spec_thickness(bottom@[d], *ctx)
                },
        decreases bottom@.len() - k,
    {
        proof {
            lemma_prefix_mono(bottom@, *ctx, k as int + 1, bottom@.len() as int);
            lemma_prefix_mono(bottom@, *ctx, 0, k as int + 1);
        }
        let t = bottom[k].thickness(ctx) as i64;
        r.push(
            EdgeAlloc {
                side: Side::Bottom,
                index: k,
                bounds: Bounds { left: 0, top: ih + off, right: iw + sr, bottom: ih + off + t },
            },
        );
        off = off + t;
        k = k + 1;
    }
    r
}

/// Places the left components: strips spanning the full outer height,
/// stacked from the outer edge inward toward the plot, outermost declared
/// first.
fn place_left(left: &Vec<Edge>, ctx: &LayoutContext, ih: i64, st: i64, sb: i64, sl: i64) -> (r: Vec<
    EdgeAlloc,
>)
    requires
        sl == sum_thickness(left@, *ctx),
        st >= 0,
        sb >= 0,
        ih >= 0,
        ih + sb <= i64::MAX,
    ensures
        r@.len() == left@.len(),
        forall|d: int|
            0 <= d < left@.len() ==> {
                let e = #[trigger] r@[d];
                &&& e.side == Side::Left
                &&& e.index == d
                &&& e.bounds.top == -st
                &&& e.bounds.bottom == ih + sb
                &&& e.bounds.left == prefix_thickness(left@, *ctx, d) - sl
                &&& e.bounds.right == prefix_thickness(left@, *ctx, d) + spec_thickness(
                    left@[d],
                    *ctx,
                ) - sl
            },
{
    proof {
        lemma_prefix_mono(left@, *ctx, 0, left@.len() as int);
    }
    let mut r: Vec<EdgeAlloc> = Vec::new();
    let mut off: i64 = 0;
    let mut k: usize = 0;
    while k < left.len()
        invariant
            k <= left@.len(),
            r@.len() == k,
            sl == sum_thickness(left@, *ctx),
            st >= 0,
            sb >= 0,
            ih >= 0,
            ih + sb <= i64::MAX,
            off == prefix_thickness(left@, *ctx, k as int),
            0 <= off <= sl,
            forall|d: int|
                0 <= d < k ==> {
                    let e = #[trigger] r@[d];
                    &&& e.side == Side::Left
                    &&& e.index == d
                    &&& e.bounds.top == -st
                    &&& e.bounds.bottom == ih + sb
                    &&& e.bounds.left == prefix_thickness(left@, *ctx, d) - sl
                    &&& e.bounds.right == prefix_thickness(left@, *ctx, d) + spec_thickness(
                        left@[d],
                        *ctx,
                    ) - sl
                },
        decreases left@.len() - k,
    {
        proof {
            lemma_prefix_mono(left@, *ctx, k as int + 1, left@.len() as int);
            lemma_prefix_mono(left@, *ctx, 0, k as int + 1);
        }
        let t = left[k].thickness(ctx) as i64;
        r.push(
            EdgeAlloc {
                side: Side::Left,
                index: k,
                bounds: Bounds { left: off - sl, top: -st, right: off + t - sl, bottom: ih + sb },
            },
        );
        off = off + t;
        k = k + 1;
    }
    r
}

/// The inner size a well-formed policy resolves to is never negative.
pub proof fn lemma_inner_size_nonneg(ar: AspectRatio, env_width: u32, env_height: u32)
    requires
        ar.wf(),
    ensures
        0 <= ar.spec_inner_size(env_width, env_height).0,
        0 <= ar.spec_inner_size(env_width, env_height).1,
{
    match ar {
        AspectRatio::InnerWidthAndRatio { width, ratio_num, ratio_den } => {
            lemma_scaled_ratio_bound(width as int, ratio_den as int, ratio_num as int);
        },
        AspectRatio::InnerHeightAndRatio { height, ratio_num, ratio_den } => {
            lemma_scaled_ratio_bound(height as int, ratio_num as int, ratio_den as int);
        },
        _ => {
        },
    }
}

impl Layout {
    /// Composes the four ordered edge-component lists and the aspect-ratio
    /// policy into concrete rectangles: the inner plot area, the outer chart
    /// area, and one strip per edge component.
    ///
    /// The preconditions beyond policy well-formedness only keep the
    /// composed chart inside the machine coordinate range.
    pub fn compose(
        top: &Vec<Edge>,
        right: &Vec<Edge>,
        bottom: &Vec<Edge>,
        left: &Vec<Edge>,
        aspect_ratio: &AspectRatio,
        ctx: &LayoutContext,
        env_width: u32,
        env_height: u32,
    ) -> (r: Layout)
        requires
            aspect_ratio.wf(),
            sum_thickness(left@, *ctx) + aspect_ratio.spec_inner_size(env_width, env_height).0
                + sum_thickness(right@, *ctx) <= i64::MAX,
            sum_thickness(top@, *ctx) + aspect_ratio.spec_inner_size(env_width, env_height).1
                + sum_thickness(bottom@, *ctx) <= i64::MAX,
        ensures
            compose_post(
                r,
                top@,
                right@,
                bottom@,
                left@,
                *aspect_ratio,
                *ctx,
                env_width,
                env_height,
            ),
            r.inner.wf(),
            r.outer.wf(),
    {
        proof {
            lemma_inner_size_nonneg(*aspect_ratio, env_width, env_height);
            lemma_prefix_mono(top@, *ctx, 0, top@.len() as int);
            lemma_prefix_mono(right@, *ctx, 0, right@.len() as int);
            lemma_prefix_mono(bottom@, *ctx, 0, bottom@.len() as int);
            lemma_prefix_mono(left@, *ctx, 0, left@.len() as int);
        }
        let (iw_u, ih_u) = aspect_ratio.resolve(env_width, env_height);
        let iw = iw_u as i64;
        let ih = ih_u as i64;
        let st = side_total(top, ctx);
        let sr = side_total(right, ctx);
        let sb = side_total(bottom, ctx);
        let sl = side_total(left, ctx);
        let mut edges = place_top(top, ctx, iw, st);
        let mut right_allocs = place_right(right, ctx, iw, ih, st, sr);
        let mut bottom_allocs = place_bottom(bottom, ctx, iw, ih, sr, sb);
        let mut left_allocs = place_left(left, ctx, ih, st, sb, sl);
        edges.append(&mut right_allocs);
        edges.append(&mut bottom_allocs);
        edges.append(&mut left_allocs);
        let inner = Bounds { left: 0, top: 0, right: iw, bottom: ih };
        let outer = Bounds { left: 0 - sl, top: 0 - st, right: iw + sr, bottom: ih + sb };
        Layout { outer, inner, edges }
    }
}


/// Each allocated strip lies inside its side's band: top and bottom bands
/// span the heights between the outer and inner edges, the right band the
/// widths, and the left band the full outer height at negative x.
proof fn lemma_edge_strip(
    r: Layout,
    top: Seq<Edge>,
    right: Seq<Edge>,
    bottom: Seq<Edge>,
    left: Seq<Edge>,
    ar: AspectRatio,
    ctx: LayoutContext,
    env_width: u32,
    env_height: u32,
    k: int,
)
    requires
        ar.wf(),
        compose_post(r, top, right, bottom, left, ar, ctx, env_width, env_height),
        0 <= k < r.edges@.len(),
    ensures
        ({
            let iw = ar.spec_inner_size(env_width, env_height).0;
            let ih = ar.spec_inner_size(env_width, env_height).1;
            let st = sum_thickness(top, ctx);
            let sr = sum_thickness(right, ctx);
            let sb = sum_thickness(bottom, ctx);
            let sl = sum_thickness(left, ctx);
            let nt = top.len() as int;
            let nr = right.len() as int;
            let nb = bottom.len() as int;
            let b = r.edges@[k].bounds;
            &&& (k < nt ==> b.left == 0 && b.right == iw && -st <= b.top && b.top <= b.bottom
                && b.bottom <= 0)
            &&& (nt <= k < nt + nr ==> b.top == -st && b.bottom == ih && iw <= b.left && b.left
                <= b.right && b.right <= iw + sr)
            &&& (nt + nr <= k < nt + nr + nb ==> b.left == 0 && b.right == iw + sr && ih <= b.top
                && b.top <= b.bottom && b.bottom <= ih + sb)
            &&& (nt + nr + nb <= k ==> b.top == -st && b.bottom == ih + sb && -sl <= b.left
                && b.left <= b.right && b.right <= 0)
        }),
{
    let nt = top.len() as int;
    let nr = right.len() as int;
    let nb = bottom.len() as int;
    if k < nt {
        let e = r.edges@[k];
        lemma_thickness_bounds(top[k], ctx);
        lemma_prefix_mono(top, ctx, 0, k);
        lemma_prefix_mono(top, ctx, k + 1, nt);
    } else if k < nt + nr {
        let d = k - nt;
        let e = r.edges@[nt + d];
        lemma_thickness_bounds(right[d], ctx);
        lemma_prefix_mono(right, ctx, 0, d);
        lemma_prefix_mono(right, ctx, d + 1, nr);
    } else if k < nt + nr + nb {
        let d = k - nt - nr;
        let e = r.edges@[nt + nr + d];
        lemma_thickness_bounds(bottom[d], ctx);
        lemma_prefix_mono(bottom, ctx, 0, d);
        lemma_prefix_mono(bottom, ctx, d + 1, nb);
    } else {
        let d = k - nt - nr - nb;
        let e = r.edges@[nt + nr + nb + d];
        lemma_thickness_bounds(left[d], ctx);
        lemma_prefix_mono(left, ctx, 0, d);
        lemma_prefix_mono(left, ctx, d + 1, left.len() as int);
    }
}

/// Conservation law: a composed layout decomposes the outer area exactly.
/// Every point of the outer area lies in the inner area or in some edge
/// allocation; the inner area and every allocation lie inside the outer
/// area; no allocation overlaps the inner area; and no two allocations
/// overlap each other.
pub proof fn lemma_layout_conservation(
    r: Layout,
    top: Seq<Edge>,
    right: Seq<Edge>,
    bottom: Seq<Edge>,
    left: Seq<Edge>,
    ar: AspectRatio,
    ctx: LayoutContext,
    env_width: u32,
    env_height: u32,
)
    requires
        ar.wf(),
        compose_post(r, top, right, bottom, left, ar, ctx, env_width, env_height),
    ensures
        forall|x: int, y: int|
            #[trigger] r.outer.holds_point(x, y) ==> r.inner.holds_point(x, y) || exists|k: int|
                0 <= k < r.edges@.len() && #[trigger] r.edges@[k].bounds.holds_point(x, y),
        forall|x: int, y: int|
            #[trigger] r.inner.holds_point(x, y) ==> r.outer.holds_point(x, y),
        forall|k: int, x: int, y: int|
            0 <= k < r.edges@.len() && #[trigger] r.edges@[k].bounds.holds_point(x, y)
                ==> r.outer.holds_point(x, y),
        forall|k: int, x: int, y: int|
            0 <= k < r.edges@.len() && #[trigger] r.edges@[k].bounds.holds_point(x, y)
                ==> !r.inner.holds_point(x, y),
        forall|k1: int, k2: int, x: int, y: int|
            0 <= k1 < r.edges@.len() && 0 <= k2 < r.edges@.len() && k1 != k2 && #[trigger] r.edges@[k1].bounds.holds_point(x, y) ==> !(#[trigger] r.edges@[k2].bounds.holds_point(x, y)),
{
    let iw = ar.spec_inner_size(env_width, env_height).0;
    let ih = ar.spec_inner_size(env_width, env_height).1;
    let st = sum_thickness(top, ctx);
    let sr = sum_thickness(right, ctx);
    let sb = sum_thickness(bottom, ctx);
    let sl = sum_thickness(left, ctx);
    let nt = top.len() as int;
    let nr = right.len() as int;
    let nb = bottom.len() as int;
    let nl = left.len() as int;
    lemma_inner_size_nonneg(ar, env_width, env_height);
    lemma_prefix_mono(top, ctx, 0, nt);
    lemma_prefix_mono(right, ctx, 0, nr);
    lemma_prefix_mono(bottom, ctx, 0, nb);
    lemma_prefix_mono(left, ctx, 0, nl);
    assert forall|x: int, y: int| #[trigger] r.outer.holds_point(x, y) implies r.inner.holds_point(
        x,
        y,
    ) || exists|k: int|
        0 <= k < r.edges@.len() && #[trigger] r.edges@[k].bounds.holds_point(x, y) by {
        if r.inner.holds_point(x, y) {
        } else if x < 0 {
            lemma_prefix_cover(left, ctx, nl, x + sl);
            let d = choose|d: int|
                0 <= d < nl && #[trigger] prefix_thickness(left, ctx, d) <= x + sl
                    < prefix_thickness(left, ctx, d) + spec_thickness(left[d], ctx);
            assert(r.edges@[nt + nr + nb + d].bounds.holds_point(x, y));
        } else if x >= iw {
            if y < ih {
                lemma_prefix_cover(right, ctx, nr, x - iw);
                let d = choose|d: int|
                    0 <= d < nr && #[trigger] prefix_thickness(right, ctx, d) <= x - iw
                        < prefix_thickness(right, ctx, d) + spec_thickness(right[d], ctx);
                assert(r.edges@[nt + d].bounds.holds_point(x, y));
            } else {
                lemma_prefix_cover(bottom, ctx, nb, y - ih);
                let d = choose|d: int|
                    0 <= d < nb && #[trigger] prefix_thickness(bottom, ctx, d) <= y - ih
                        < prefix_thickness(bottom, ctx, d) + spec_thickness(bottom[d], ctx);
                assert(r.edges@[nt + nr + d].bounds.holds_point(x, y));
            }
        } else if y < 0 {
            lemma_prefix_cover(top, ctx, nt, y + st);
            let d = choose|d: int|
                0 <= d < nt && #[trigger] prefix_thickness(top, ctx, d) <= y + st
                    < prefix_thickness(top, ctx, d) + spec_thickness(top[d], ctx);
            assert(r.edges@[d].bounds.holds_point(x, y));
        } else {
            lemma_prefix_cover(bottom, ctx, nb, y - ih);
            let d = choose|d: int|
                0 <= d < nb && #[trigger] prefix_thickness(bottom, ctx, d) <= y - ih
                    < prefix_thickness(bottom, ctx, d) + spec_thickness(bottom[d], ctx);
            assert(r.edges@[nt + nr + d].bounds.holds_point(x, y));
        }
    }
    assert forall|k: int, x: int, y: int|
        0 <= k < r.edges@.len() && #[trigger] r.edges@[k].bounds.holds_point(x, y)
        implies r.outer.holds_point(x, y) && !r.inner.holds_point(x, y) by {
        lemma_edge_strip(r, top, right, bottom, left, ar, ctx, env_width, env_height, k);
    }
    assert forall|k1: int, k2: int, x: int, y: int|
        0 <= k1 < r.edges@.len() && 0 <= k2 < r.edges@.len() && k1 != k2
            && #[trigger] r.edges@[k1].bounds.holds_point(x, y) implies !(
    #[trigger] r.edges@[k2].bounds.holds_point(x, y)) by {
        lemma_edge_strip(r, top, right, bottom, left, ar, ctx, env_width, env_height, k1);
        lemma_edge_strip(r, top, right, bottom, left, ar, ctx, env_width, env_height, k2);
        if r.edges@[k2].bounds.holds_point(x, y) {
            let lo = if k1 < k2 {
                k1
            } else {
                k2
            };
            let hi = if k1 < k2 {
                k2
            } else {
                k1
            };
            if hi < nt {
                let e1 = r.edges@[lo];
                let e2 = r.edges@[hi];
                lemma_prefix_mono(top, ctx, lo + 1, hi);
                assert(e1.bounds.bottom <= e2.bounds.top);
            } else if nt <= lo && hi < nt + nr {
                let d1 = lo - nt;
                let d2 = hi - nt;
                let e1 = r.edges@[nt + d1];
                let e2 = r.edges@[nt + d2];
                lemma_prefix_mono(right, ctx, d1 + 1, d2);
                assert(e1.bounds.right <= e2.bounds.left);
            } else if nt + nr <= lo && hi < nt + nr + nb {
                let d1 = lo - nt - nr;
                let d2 = hi - nt - nr;
                let e1 = r.edges@[nt + nr + d1];
                let e2 = r.edges@[nt + nr + d2];
                lemma_prefix_mono(bottom, ctx, d1 + 1, d2);
                assert(e1.bounds.bottom <= e2.bounds.top);
            } else if nt + nr + nb <= lo {
                let d1 = lo - nt - nr - nb;
                let d2 = hi - nt - nr - nb;
                let e1 = r.edges@[nt + nr + nb + d1];
                let e2 = r.edges@[nt + nr + nb + d2];
                lemma_prefix_mono(left, ctx, d1 + 1, d2);
                assert(e1.bounds.right <= e2.bounds.left);
            }
        }
    }
}

/// Order-sensitivity law: within one side, swapping two components swaps
/// which strip lies nearer the plot. On the top and left sides the component
/// declared earlier is allocated strictly further from the inner area; on
/// the right and bottom sides the component declared earlier is allocated
/// nearer the inner area.
pub proof fn lemma_layout_order(
    r: Layout,
    top: Seq<Edge>,
    right: Seq<Edge>,
    bottom: Seq<Edge>,
    left: Seq<Edge>,
    ar: AspectRatio,
    ctx: LayoutContext,
    env_width: u32,
    env_height: u32,
    d1: int,
    d2: int,
)
    requires
        ar.wf(),
        compose_post(r, top, right, bottom, left, ar, ctx, env_width, env_height),
        0 <= d1 < d2,
    ensures
        d2 < top.len() ==> r.edges@[d1].bounds.bottom <= r.edges@[d2].bounds.top,
        d2 < right.len() ==> r.edges@[top.len() + d1].bounds.right <= r.edges@[top.len()
            + d2].bounds.left,
        d2 < bottom.len() ==> r.edges@[top.len() + right.len() + d1].bounds.bottom
            <= r.edges@[top.len() + right.len() + d2].bounds.top,
        d2 < left.len() ==> r.edges@[top.len() + right.len() + bottom.len() + d1].bounds.right
            <= r.edges@[top.len() + right.len() + bottom.len() + d2].bounds.left,
{
    if d2 < top.len() {
        lemma_prefix_mono(top, ctx, d1 + 1, d2);
    }
    if d2 < right.len() {
        lemma_prefix_mono(right, ctx, d1 + 1, d2);
    }
    if d2 < bottom.len() {
        lemma_prefix_mono(bottom, ctx, d1 + 1, d2);
    }
    if d2 < left.len() {
        lemma_prefix_mono(left, ctx, d1 + 1, d2);
    }
}

} // verus!
