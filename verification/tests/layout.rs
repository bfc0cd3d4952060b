use chartistry::bounds::Bounds;
use chartistry::chart::{render_chart, Chart};
use chartistry::layout::{AspectRatio, Edge, EdgeAlloc, Layout, LayoutContext, Side};
use chartistry::series::{Line, Stack};

fn ctx() -> LayoutContext {
    LayoutContext { font_height: 10, padding: 3 }
}

fn area(b: &Bounds) -> i64 {
    (b.right - b.left) * (b.bottom - b.top)
}

#[test]
fn edge_thickness_formulas() {
    let c = ctx();
    assert_eq!(Edge::Fixed { size: 5 }.thickness(&c), 5);
    // Two lines of text: 2 * (10 + 2 * 3).
    assert_eq!(Edge::Label { lines: 2 }.thickness(&c), 32);
    assert_eq!(Edge::Label { lines: 0 }.thickness(&c), 0);
}

#[test]
fn aspect_ratio_resolution() {
    assert_eq!(AspectRatio::Inner { width: 100, height: 80 }.resolve(640, 480), (100, 80));
    assert_eq!(AspectRatio::Environment.resolve(640, 480), (640, 480));
    assert_eq!(AspectRatio::EnvironmentWidth { height: 30 }.resolve(640, 480), (640, 30));
    assert_eq!(AspectRatio::EnvironmentHeight { width: 25 }.resolve(640, 480), (25, 480));
    // Ratio 2:1 against a known width of 100 gives a height of 50.
    let ar = AspectRatio::InnerWidthAndRatio { width: 100, ratio_num: 2, ratio_den: 1 };
    assert_eq!(ar.resolve(640, 480), (100, 50));
    // Ratio 2:1 against a known height of 50 gives a width of 100.
    let ar = AspectRatio::InnerHeightAndRatio { height: 50, ratio_num: 2, ratio_den: 1 };
    assert_eq!(ar.resolve(640, 480), (100, 50));
}

#[test]
fn empty_layout_keeps_inner_equal_to_outer() {
    let none: Vec<Edge> = Vec::new();
    let ar = AspectRatio::Inner { width: 100, height: 80 };
    let layout = Layout::compose(&none, &none, &none, &none, &ar, &ctx(), 0, 0);
    assert_eq!(layout.inner, layout.outer);
    assert_eq!(layout.inner, Bounds::from_points(0, 0, 100, 80));
    assert_eq!(layout.edges.len(), 0);
}

#[test]
fn layout_conservation() {
    let top = vec![Edge::Fixed { size: 10 }];
    let right = vec![Edge::Fixed { size: 5 }];
    let bottom = vec![Edge::Fixed { size: 7 }];
    let left = vec![Edge::Fixed { size: 3 }];
    let ar = AspectRatio::Inner { width: 100, height: 80 };
    let layout = Layout::compose(&top, &right, &bottom, &left, &ar, &ctx(), 0, 0);
    assert_eq!(layout.inner, Bounds::from_points(0, 0, 100, 80));
    assert_eq!(layout.outer, Bounds::from_points(-3, -10, 105, 87));
    assert_eq!(layout.edges.len(), 4);
    assert_eq!(layout.edges[0].bounds, Bounds::from_points(0, -10, 100, 0));
    assert_eq!(layout.edges[1].bounds, Bounds::from_points(100, -10, 105, 80));
    assert_eq!(layout.edges[2].bounds, Bounds::from_points(0, 80, 105, 87));
    assert_eq!(layout.edges[3].bounds, Bounds::from_points(-3, -10, 0, 87));
    // The outer area is exactly the inner area plus every allocation.
    let edge_area: i64 = layout.edges.iter().map(|e| area(&e.bounds)).sum();
    assert_eq!(area(&layout.outer), area(&layout.inner) + edge_area);
}

#[test]
fn layout_labels_edges_with_side_and_index() {
    let top = vec![Edge::Fixed { size: 10 }, Edge::Label { lines: 1 }];
    let right = vec![Edge::Fixed { size: 5 }];
    let none: Vec<Edge> = Vec::new();
    let ar = AspectRatio::Inner { width: 100, height: 80 };
    let layout = Layout::compose(&top, &right, &none, &none, &ar, &ctx(), 0, 0);
    let expect = [(Side::Top, 0), (Side::Top, 1), (Side::Right, 0)];
    for (e, (side, index)) in layout.edges.iter().zip(expect.iter()) {
        let want = EdgeAlloc { side: *side, index: *index, bounds: e.bounds };
        assert_eq!(*e, want);
    }
}

#[test]
fn top_components_nest_outermost_first() {
    let ar = AspectRatio::Inner { width: 100, height: 80 };
    let none: Vec<Edge> = Vec::new();
    let top = vec![Edge::Fixed { size: 10 }, Edge::Fixed { size: 20 }];
    let layout = Layout::compose(&top, &none, &none, &none, &ar, &ctx(), 0, 0);
    // Declared first means outermost: the second strip touches the plot.
    assert_eq!(layout.edges[0].bounds, Bounds::from_points(0, -30, 100, -20));
    assert_eq!(layout.edges[1].bounds, Bounds::from_points(0, -20, 100, 0));
    // Reordering the list swaps which component sits against the plot.
    let swapped = vec![Edge::Fixed { size: 20 }, Edge::Fixed { size: 10 }];
    let layout = Layout::compose(&swapped, &none, &none, &none, &ar, &ctx(), 0, 0);
    assert_eq!(layout.edges[0].bounds, Bounds::from_points(0, -30, 100, -10));
    assert_eq!(layout.edges[1].bounds, Bounds::from_points(0, -10, 100, 0));
}

#[test]
fn bottom_components_nest_innermost_first() {
    let ar = AspectRatio::Inner { width: 100, height: 80 };
    let none: Vec<Edge> = Vec::new();
    let bottom = vec![Edge::Fixed { size: 10 }, Edge::Fixed { size: 20 }];
    let layout = Layout::compose(&none, &none, &bottom, &none, &ar, &ctx(), 0, 0);
    // Declared first means innermost on the bottom side.
    assert_eq!(layout.edges[0].bounds, Bounds::from_points(0, 80, 100, 90));
    assert_eq!(layout.edges[1].bounds, Bounds::from_points(0, 90, 100, 110));
}

#[test]
fn environment_driven_layout() {
    let ar = AspectRatio::Environment;
    let none: Vec<Edge> = Vec::new();
    let left = vec![Edge::Label { lines: 3 }];
    let layout = Layout::compose(&none, &none, &none, &left, &ar, &ctx(), 640, 480);
    assert_eq!(layout.inner, Bounds::from_points(0, 0, 640, 480));
    // 3 * (10 + 2 * 3) = 48 units of left edge.
    assert_eq!(layout.outer, Bounds::from_points(-48, 0, 640, 480));
}

#[test]
fn chart_render_pass() {
    let stack = Stack::new().push(Line::new()).push(Line::new());
    let chart = Chart::new(stack)
        .top(Edge::Fixed { size: 10 })
        .right(Edge::Fixed { size: 5 })
        .bottom(Edge::Label { lines: 1 })
        .left(Edge::Fixed { size: 3 });
    let ar = AspectRatio::Inner { width: 100, height: 80 };
    let range = Bounds::from_points(0, 0, 100, 100);
    let (layout, projection, series) = render_chart(chart, &ar, &ctx(), 0, 0, &range);
    assert_eq!(layout.inner, Bounds::from_points(0, 0, 100, 80));
    assert_eq!(layout.outer, Bounds::from_points(-3, -10, 105, 96));
    assert_eq!(projection.bounds, layout.inner);
    assert_eq!(projection.range, range);
    assert_eq!(series.len(), 2);
    let vals: Vec<i64> = vec![2, 3];
    assert_eq!(series.cumulative_value(1, &vals), 5);
}
