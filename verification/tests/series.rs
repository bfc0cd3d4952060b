use chartistry::colours::{lajolla, Colour, ColourScheme};
use chartistry::series::{Line, SeriesAcc, Stack, StackedLine};

#[test]
fn stack_cumulative_sum() {
    // Three lines with values 1, 2, 3 at a point: cumulative values must be
    // 1, 3, 6 from bottom to top.
    let stack = Stack::new().push(Line::new()).push(Line::new()).push(Line::new());
    let mut acc = SeriesAcc::new();
    stack.apply_use_series(&mut acc);
    assert_eq!(acc.len(), 3);
    let vals: Vec<i64> = vec![1, 2, 3];
    assert_eq!(acc.value(0, &vals), 1);
    assert_eq!(acc.value(1, &vals), 2);
    assert_eq!(acc.value(2, &vals), 3);
    assert_eq!(acc.cumulative_value(0, &vals), 1);
    assert_eq!(acc.cumulative_value(1, &vals), 3);
    assert_eq!(acc.cumulative_value(2, &vals), 6);
}

#[test]
fn single_line_stack() {
    let stack = Stack::new().push(Line::new());
    let mut acc = SeriesAcc::new();
    stack.apply_use_series(&mut acc);
    assert_eq!(acc.len(), 1);
    let vals: Vec<i64> = vec![7];
    assert_eq!(acc.cumulative_value(0, &vals), acc.value(0, &vals));
    assert_eq!(acc.cumulative_value(0, &vals), 7);
}

#[test]
fn empty_stack_resolves_no_lines() {
    let stack = Stack::new();
    let mut acc = SeriesAcc::new();
    stack.apply_use_series(&mut acc);
    assert_eq!(acc.len(), 0);
}

#[test]
fn negative_values_accumulate() {
    let stack = Stack::new().push(Line::new()).push(Line::new());
    let mut acc = SeriesAcc::new();
    stack.apply_use_series(&mut acc);
    let vals: Vec<i64> = vec![5, -8];
    assert_eq!(acc.cumulative_value(1, &vals), -3);
}

#[test]
fn default_scheme_colours_lines_by_index() {
    let stack = Stack::new().push(Line::new()).push(Line::new());
    let mut acc = SeriesAcc::new();
    stack.apply_use_series(&mut acc);
    let palette = lajolla();
    assert_eq!(acc.lines[0].colour, palette.by_index(0));
    assert_eq!(acc.lines[1].colour, palette.by_index(1));
}

#[test]
fn line_colour_override_wins() {
    let red = Colour::from_rgb(0xFF, 0, 0);
    let stack = Stack::new().push(Line::new()).push(Line::with_colour(red));
    let mut acc = SeriesAcc::new();
    stack.apply_use_series(&mut acc);
    assert_eq!(acc.lines[0].colour, lajolla().by_index(0));
    assert_eq!(acc.lines[1].colour, red);
}

#[test]
fn configured_scheme_wraps_around() {
    let a = Colour::from_rgb(1, 1, 1);
    let b = Colour::from_rgb(2, 2, 2);
    let scheme = ColourScheme::new(vec![a, b]);
    let stack = Stack::new()
        .set_colours(Some(scheme))
        .push(Line::new())
        .push(Line::new())
        .push(Line::new());
    let mut acc = SeriesAcc::new();
    stack.apply_use_series(&mut acc);
    assert_eq!(acc.lines[0].colour, a);
    assert_eq!(acc.lines[1].colour, b);
    assert_eq!(acc.lines[2].colour, a);
}

#[test]
fn builder_accumulates_in_order() {
    let stack = Stack::default().push(Line::new());
    assert_eq!(stack.lines.len(), 1);
    let stack = stack.set_colours(None).push(Line::new());
    assert_eq!(stack.lines.len(), 2);
    assert!(stack.colours.is_none());
}

#[test]
fn resolvers_chain_through_the_accumulator() {
    let stack = Stack::new().push(Line::new()).push(Line::new());
    let mut acc = SeriesAcc::new();
    stack.apply_use_series(&mut acc);
    assert_eq!(acc.lines[0].previous, None);
    assert_eq!(acc.lines[1].previous, Some(0));
    // A second stack starts a fresh chain after the first.
    let other = Stack::new().push(Line::new()).push(Line::new());
    other.apply_use_series(&mut acc);
    assert_eq!(acc.lines[2].previous, None);
    assert_eq!(acc.lines[3].previous, Some(2));
    let vals: Vec<i64> = vec![1, 2, 10, 20];
    assert_eq!(acc.cumulative_value(3, &vals), 30);
}

#[test]
fn pushed_resolver_keeps_explicit_chain() {
    let mut acc = SeriesAcc::new();
    let grey = Colour::from_rgb(9, 9, 9);
    let first = acc.push(grey, StackedLine::new(Line::new(), None));
    let second = acc.push(grey, StackedLine::new(Line::new(), Some(first)));
    assert_eq!(first, 0);
    assert_eq!(second, 1);
    assert_eq!(acc.lines[1].previous, Some(0));
    let vals: Vec<i64> = vec![4, 5];
    assert_eq!(acc.cumulative_value(second, &vals), 9);
}

#[test]
fn stack_from_lines() {
    let stack = Stack::from(vec![Line::new(), Line::new(), Line::new()]);
    assert_eq!(stack.lines.len(), 3);
    assert!(stack.colours.is_none());
}
