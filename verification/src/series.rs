//! Stacked data series: colour assignment and cumulative value resolution.
//!
//! A `Stack` is built once by pushing lines in bottom-to-top stacking order
//! and is then resolved into a `SeriesAcc` of per-line value resolvers. Each
//! resolver stores the accumulator index of the resolver for the line stacked
//! directly beneath it — or none for the bottom-most line — forming a singly
//! linked, acyclic chain established at resolution time and never mutated.
//! A resolver's cumulative value at a data point is its own value plus the
//! cumulative value of its predecessor, so each line's rendered value is the
//! sum of itself and every line beneath it.
//!
//! Value extraction itself belongs to the data-series collaborator: callers
//! hand each resolver call the vector of per-line extracted scalars for the
//! point in question, indexed by accumulator position.

use vstd::prelude::*;

use crate::colours::{lajolla, lajolla_palette, Colour, ColourScheme};
use crate::ratio::fits_i64;

verus! {

/// A named data series in a stack; the value-extraction capability lives with
/// the data collaborator, so the line itself only carries its optional
/// per-line colour override.
#[derive(Clone, Copy, Debug, PartialEq, Eq, Structural)]
pub struct Line {
    pub colour: Option<Colour>,
}

impl Line {
    pub fn new() -> (r: Line)
        ensures
            r.colour is None,
    {
        Line { colour: None }
    }

    pub fn with_colour(colour: Colour) -> (r: Line)
        ensures
            r.colour == Some(colour),
    {
        Line { colour: Some(colour) }
    }
}

/// An ordered group of lines, bottom to top, plus an optional colour-scheme
/// selection; an accumulating builder resolved once per chart render.
#[derive(Clone, Debug)]
pub struct Stack {
    pub colours: Option<ColourScheme>,
    pub lines: Vec<Line>,
}

impl Stack {
    pub fn new() -> (r: Stack)
        ensures
            r.colours is None,
            r.lines@ =~= Seq::<Line>::empty(),
    {
        Stack { colours: None, lines: Vec::new() }
    }

    /// Selects the colour scheme used for lines without their own colour;
    /// `None` falls back to the default palette.
    pub fn set_colours(self, colours: Option<ColourScheme>) -> (r: Stack)
        ensures
            r.colours == colours,
            r.lines == self.lines,
    {
        Stack { colours, lines: self.lines }
    }

    /// Appends a line on top of the stack.
    pub fn push(self, line: Line) -> (r: Stack)
        ensures
            r.colours == self.colours,
            r.lines@ =~= self.lines@.push(line),
    {
        let mut lines = self.lines;
        lines.push(line);
        Stack { colours: self.colours, lines }
    }

    /// Well-formedness: a configured colour scheme must be a valid palette.
    pub open spec fn wf(self) -> bool {
        match self.colours {
            Some(s) => s.wf(),
            None => true,
        }
    }

    /// The palette that colours this stack's lines: the configured scheme, or
    /// the default palette when none is configured.
    pub open spec fn palette(self) -> Seq<Colour> {
        match self.colours {
            Some(s) => s.colours@,
            None => lajolla_palette(),
        }
    }
}

impl Default for Stack {
    fn default() -> (r: Stack)
        ensures
            r.colours is None,
            r.lines@ =~= Seq::<Line>::empty(),
    {
        Stack::new()
    }
}

impl From<Vec<Line>> for Stack {
    /// A stack of the given lines, bottom to top, with no colour scheme
    /// configured.
    fn from(lines: Vec<Line>) -> (r: Stack) {
        Stack { colours: None, lines }
    }
}

impl vstd::std_specs::convert::FromSpecImpl<Vec<Line>> for Stack {
    open spec fn obeys_from_spec() -> bool {
        true
    }

    open spec fn from_spec(lines: Vec<Line>) -> Stack {
        Stack { colours: None, lines }
    }
}

/// A resolved value resolver for one line: its accumulator position, its
/// assigned colour, and the accumulator position of the resolver beneath it
/// in its stack, or none for a bottom-most line.
#[derive(Clone, Copy, Debug, PartialEq, Eq, Structural)]
pub struct UseStackLine {
    pub id: usize,
    pub colour: Colour,
    pub previous: Option<usize>,
}

/// A line waiting to be resolved: the line itself plus the accumulator
/// position of the resolver it stacks on.
#[derive(Clone, Copy, Debug, PartialEq, Eq, Structural)]
pub struct StackedLine {
    pub line: Line,
    pub previous: Option<usize>,
}

impl StackedLine {
    pub fn new(line: Line, previous: Option<usize>) -> (r: StackedLine)
        ensures
            r.line == line,
            r.previous == previous,
    {
        StackedLine { line, previous }
    }

    /// Resolves the line at accumulator position `id`: the line's own colour
    /// override wins over the colour assigned from the scheme.
    pub fn into_use_line(self, id: usize, colour: Colour) -> (r: UseStackLine)
        ensures
            r.id == id,
            r.colour == (match self.line.colour {
                Some(c) => c,
                None => colour,
            }),
            r.previous == self.previous,
    {
        let chosen = match self.line.colour {
            Some(c) => c,
            None => colour,
        };
        UseStackLine { id, colour: chosen, previous: self.previous }
    }
}

/// The cumulative value of the resolver at `i`: its own extracted value plus,
/// recursively, the cumulative value of the resolver beneath it.
pub open spec fn cumulative_spec(lines: Seq<UseStackLine>, vals: Seq<i64>, i: int) -> int
    decreases i,
{
    vals[i] + match lines[i].previous {
        Some(j) => if j < i {
            cumulative_spec(lines, vals, j as int)
        } else {
            0
        },
        None => 0,
    }
}

/// Every cumulative value along the chain below `i` fits in the scalar type,
/// so the chained additions cannot overflow.
pub open spec fn chain_fits(lines: Seq<UseStackLine>, vals: Seq<i64>, i: int) -> bool
    decreases i,
{
    &&& fits_i64(cumulative_spec(lines, vals, i))
    &&& match lines[i].previous {
        Some(j) => j < i ==> chain_fits(lines, vals, j as int),
        None => true,
    }
}

/// The append-only accumulator of resolved lines. Resolver chains always
/// point backwards, so they are acyclic.
#[derive(Clone, Debug)]
pub struct SeriesAcc {
    pub lines: Vec<UseStackLine>,
}

impl SeriesAcc {
    /// Well-formedness: each resolver's predecessor was resolved before it,
    /// and each resolver records its own position.
    pub open spec fn wf(self) -> bool {
        forall|i: int|
            0 <= i < self.lines@.len() ==> {
                &&& (#[trigger] self.lines@[i]).id == i
                &&& match self.lines@[i].previous {
                    Some(j) => j < i,
                    None => true,
                }
            }
    }

    pub fn new() -> (r: SeriesAcc)
        ensures
            r.wf(),
            r.lines@ =~= Seq::<UseStackLine>::empty(),
    {
        SeriesAcc { lines: Vec::new() }
    }

    pub fn len(&self) -> (r: usize)
        ensures
            r == self.lines@.len(),
    {
        self.lines.len()
    }

    /// Resolves one stacked line at the next accumulator position and
    /// records it; returns that position for the next line to stack on.
    pub fn push(&mut self, colour: Colour, line: StackedLine) -> (r: usize)
        requires
            old(self).wf(),
            match line.previous {
                Some(j) => j < old(self).lines@.len(),
                None => true,
            },
        ensures
            final(self).wf(),
            r == old(self).lines@.len(),
            final(self).lines@ =~= old(self).lines@.push(
                UseStackLine {
                    id: old(self).lines@.len() as usize,
                    colour: match line.line.colour {
                        Some(c) => c,
                        None => colour,
                    },
                    previous: line.previous,
                },
            ),
    {
        let id = self.lines.len();
        let entry = line.into_use_line(id, colour);
        self.lines.push(entry);
        id
    }

    /// The line's own extracted value at a point — unaffected by stacking.
    pub fn value(&self, i: usize, vals: &Vec<i64>) -> (r: i64)
        requires
            i < vals@.len(),
        ensures
            r == vals@[i as int],
    {
        vals[i]
    }

    /// The total height at which line `i`'s top edge is drawn: its own value
    /// plus the cumulative value of every line beneath it, evaluated per
    /// data point by walking the resolver chain.
    pub fn cumulative_value(&self, i: usize, vals: &Vec<i64>) -> (r: i64)
        requires
            self.wf(),
            i < self.lines@.len(),
            vals@.len() == self.lines@.len(),
            chain_fits(self.lines@, vals@, i as int),
        ensures
            r == cumulative_spec(self.lines@, vals@, i as int),
        decreases i,
    {
        match self.lines[i].previous {
            Some(j) => vals[i] + self.cumulative_value(j, vals),
            None => vals[i],
        }
    }
}

/// Resolving a stack appends one resolver per line, in stacking order: line
/// `k` is coloured by the stack's palette at index `k` (unless the line
/// overrides its colour) and stacks on the resolver pushed just before it.
impl Stack {
    pub fn apply_use_series(self, series: &mut SeriesAcc)
        requires
            self.wf(),
            old(series).wf(),
        ensures
            final(series).wf(),
            final(series).lines@.len() == old(series).lines@.len() + self.lines@.len(),
            forall|k: int|
                0 <= k < old(series).lines@.len() ==> final(series).lines@[k] == old(
                    series,
                ).lines@[k],
            forall|k: int|
                0 <= k < self.lines@.len() ==> {
                    let e = #[trigger] final(series).lines@[old(series).lines@.len() + k];
                    &&& e.colour == (match self.lines@[k].colour {
                        Some(c) => c,
                        None => self.palette()[k % (self.palette().len() as int)],
                    })
                    &&& e.previous == (if k == 0 {
                        Option::<usize>::None
                    } else {
                        Some((old(series).lines@.len() + k - 1) as usize)
                    })
                },
    {
        let ghost base = series.lines@.len() as int;
        let scheme = match self.colours {
            Some(s) => s,
            None => lajolla(),
        };
        assert(scheme.colours@ =~= self.palette());
        let mut previous: Option<usize> = None;
        let mut k: usize = 0;
        while k < self.lines.len()
            invariant
                series.wf(),
                scheme.wf(),
                scheme.colours@ =~= self.palette(),
                k <= self.lines@.len(),
                series.lines@.len() == base + k,
                base == old(series).lines@.len(),
                forall|m: int| 0 <= m < base ==> series.lines@[m] == old(series).lines@[m],
                previous == (if k == 0 {
                    Option::<usize>::None
                } else {
                    Some((base + k - 1) as usize)
                }),
                forall|m: int|
                    0 <= m < k ==> {
                        let e = #[trigger] series.lines@[base + m];
                        &&& e.colour == (match self.lines@[m].colour {
                            Some(c) => c,
                            None => self.palette()[m % (self.palette().len() as int)],
                        })
                        &&& e.previous == (if m == 0 {
                            Option::<usize>::None
                        } else {
                            Some((base + m - 1) as usize)
                        })
                    },
            decreases self.lines@.len() - k,
        {
            let colour = scheme.by_index(k);
            let stacked = StackedLine::new(self.lines[k], previous);
            let idx = series.push(colour, stacked);
            previous = Some(idx);
            k = k + 1;
        }
    }
}

/// The value of `vals` summed over the index range `base ..= i`.
pub open spec fn sum_range(vals: Seq<i64>, base: int, i: int) -> int
    decreases i - base,
{
    if i <= base {
        vals[base] as int
    } else {
        sum_range(vals, base, i - 1) + vals[i]
    }
}

/// Stack cumulative-sum law: along a fully chained stack occupying positions
/// `base ..= top` of the accumulator — the shape `apply_use_series` builds —
/// the cumulative value at position `i` is the sum of the own values of
/// every line from the bottom of the stack up to `i`.
pub proof fn lemma_stack_cumulative_sum(
    lines: Seq<UseStackLine>,
    vals: Seq<i64>,
    base: int,
    i: int,
)
    requires
        0 <= base <= i < lines.len(),
        lines.len() <= usize::MAX,
        lines[base].previous is None,
        forall|k: int|
            base < k <= i ==> (#[trigger] lines[k].previous) == Some((k - 1) as usize),
    ensures
        cumulative_spec(lines, vals, i) == sum_range(vals, base, i),
    decreases i - base,
{
    if i == base {
    } else {
        assert(lines[i].previous == Some((i - 1) as usize));
        lemma_stack_cumulative_sum(lines, vals, base, i - 1);
        assert(cumulative_spec(lines, vals, i) == vals[i] + cumulative_spec(lines, vals, i - 1));
    }
}

/// Single-line law: a resolver with no line stacked beneath it — a stack of
/// one line, or the bottom of any stack — has a cumulative value equal to
/// its own value.
pub proof fn lemma_unstacked_cumulative_value(lines: Seq<UseStackLine>, vals: Seq<i64>, i: int)
    requires
        0 <= i < lines.len(),
        lines[i].previous is None,
    ensures
        cumulative_spec(lines, vals, i) == vals[i],
{
}

} // verus!
