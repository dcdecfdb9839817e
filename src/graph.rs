use vstd::prelude::*;

use crate::plan::GridPlan;
use crate::rate::Rate;
use crate::text::{dec_text, push_decimal};

verus! {

/// A place in the 2x2 grid, which is also the index of the input shown there.
#[derive(Clone, Copy, Debug, PartialEq, Eq, Structural)]
pub enum Position {
    TopLeft,
    TopRight,
    BottomLeft,
    BottomRight,
}

/// A named stream between two segments of the graph.
#[derive(Clone, Copy, Debug, PartialEq, Eq, Structural)]
pub enum Label {
    /// The fitted stream of one input.
    Cell(Position),
    /// The two upper cells side by side.
    Top,
    /// The two lower cells side by side.
    Bottom,
    /// The whole grid: the stream that is encoded.
    Final,
}

#[derive(Clone, Copy, Debug, PartialEq, Eq, Structural)]
pub enum SegmentKind {
    Cell,
    HStack,
    VStack,
}

/// One filter chain of the graph.
#[derive(Clone, Copy, Debug, PartialEq, Eq, Structural)]
pub enum Segment {
    /// Fits input `input` into a `width` x `height` cell (scaled to fit,
    /// padded to centre), restarts its timestamps, resamples it to `rate` and
    /// buffers it, as stream `out`.
    Cell { input: Position, width: u32, height: u32, rate: Rate, out: Label },
    /// Puts `left` and `right` side by side, as `out`.
    HStack { left: Label, right: Label, out: Label },
    /// Puts `upper` above `lower`, as `out`.
    VStack { upper: Label, lower: Label, out: Label },
}

/// The filter graph: its segments in the order they are written out.
#[derive(Debug)]
pub struct FilterGraph {
    pub segments: Vec<Segment>,
}

impl Segment {
    pub open spec fn kind(self) -> SegmentKind {
        match self {
            Segment::Cell { .. } => SegmentKind::Cell,
            Segment::HStack { .. } => SegmentKind::HStack,
            Segment::VStack { .. } => SegmentKind::VStack,
        }
    }

    /// The label this segment writes.
    pub open spec fn writes(self) -> Label {
        match self {
            Segment::Cell { out, .. } => out,
            Segment::HStack { out, .. } => out,
            Segment::VStack { out, .. } => out,
        }
    }

    /// How many times this segment reads `l`.
    pub open spec fn reads(self, l: Label) -> nat {
        match self {
            Segment::Cell { .. } => 0,
            Segment::HStack { left, right, .. } => (if left == l { 1nat } else { 0nat }) + (if right
                == l {
                1nat
            } else {
                0nat
            }),
            Segment::VStack { upper, lower, .. } => (if upper == l { 1nat } else { 0nat }) + (if lower
                == l {
                1nat
            } else {
                0nat
            }),
        }
    }
}

pub open spec fn count_kind(segs: Seq<Segment>, k: SegmentKind) -> nat
    decreases segs.len(),
{
    if segs.len() == 0 {
        0
    } else {
        count_kind(segs.drop_last(), k) + if segs.last().kind() == k {
            1nat
        } else {
            0nat
        }
    }
}

pub open spec fn count_writes(segs: Seq<Segment>, l: Label) -> nat
    decreases segs.len(),
{
    if segs.len() == 0 {
        0
    } else {
        count_writes(segs.drop_last(), l) + if segs.last().writes() == l {
            1nat
        } else {
            0nat
        }
    }
}

pub open spec fn count_reads(segs: Seq<Segment>, l: Label) -> nat
    decreases segs.len(),
{
    if segs.len() == 0 {
        0
    } else {
        count_reads(segs.drop_last(), l) + segs.last().reads(l)
    }
}

pub open spec fn cell_segment(p: GridPlan, at: Position) -> Segment {
    Segment::Cell {
        input: at,
        width: p.cell_width,
        height: p.cell_height,
        rate: p.rate,
        out: Label::Cell(at),
    }
}

/// The graph for a plan: the four cells, the two rows, then the two rows stacked.
pub open spec fn grid_segments(p: GridPlan) -> Seq<Segment> {
    seq![
        cell_segment(p, Position::TopLeft),
        cell_segment(p, Position::TopRight),
        cell_segment(p, Position::BottomLeft),
        cell_segment(p, Position::BottomRight),
        Segment::HStack {
            left: Label::Cell(Position::TopLeft),
            right: Label::Cell(Position::TopRight),
            out: Label::Top,
        },
        Segment::HStack {
            left: Label::Cell(Position::BottomLeft),
            right: Label::Cell(Position::BottomRight),
            out: Label::Bottom,
        },
        Segment::VStack { upper: Label::Top, lower: Label::Bottom, out: Label::Final },
    ]
}

fn make_cell(p: &GridPlan, at: Position) -> (s: Segment)
    ensures
        s == cell_segment(*p, at),
{
    Segment::Cell {
        input: at,
        width: p.cell_width,
        height: p.cell_height,
        rate: p.rate,
        out: Label::Cell(at),
    }
}

/// Builds the filter graph for a plan.
pub fn build(p: &GridPlan) -> (g: FilterGraph)
    ensures
        g.segments@ == grid_segments(*p),
{
    let mut segments: Vec<Segment> = Vec::new();
    segments.push(make_cell(p, Position::TopLeft));
    segments.push(make_cell(p, Position::TopRight));
    segments.push(make_cell(p, Position::BottomLeft));
    segments.push(make_cell(p, Position::BottomRight));
    segments.push(
        Segment::HStack {
            left: Label::Cell(Position::TopLeft),
            right: Label::Cell(Position::TopRight),
            out: Label::Top,
        },
    );
    segments.push(
        Segment::HStack {
            left: Label::Cell(Position::BottomLeft),
            right: Label::Cell(Position::BottomRight),
            out: Label::Bottom,
        },
    );
    segments.push(Segment::VStack { upper: Label::Top, lower: Label::Bottom, out: Label::Final });
    assert(segments@ =~= grid_segments(*p));
    FilterGraph { segments }
}

/// The graph of any plan has four cell segments, two side-by-side segments
/// and one stacking segment. Every label is written exactly once; every label
/// but `Final` is read exactly once, and `Final`, which only the encoder
/// reads, not at all; and each label is written before it is read.
pub proof fn lemma_graph_shape(p: GridPlan)
    ensures
        count_kind(grid_segments(p), SegmentKind::Cell) == 4,
        count_kind(grid_segments(p), SegmentKind::HStack) == 2,
        count_kind(grid_segments(p), SegmentKind::VStack) == 1,
        forall|l: Label| count_writes(grid_segments(p), l) == 1,
        count_reads(grid_segments(p), Label::Final) == 0,
        forall|l: Label| l != Label::Final ==> count_reads(grid_segments(p), l) == 1,
        forall|i: int, l: Label|
            0 <= i < 7 && #[trigger] grid_segments(p)[i].reads(l) > 0 ==> exists|j: int|
                0 <= j < i && (#[trigger] grid_segments(p)[j]).writes() == l,
{
    let s = grid_segments(p);
    reveal_with_fuel(count_kind, 8);
    reveal_with_fuel(count_writes, 8);
    reveal_with_fuel(count_reads, 8);
    assert(s.drop_last().drop_last().drop_last().drop_last().drop_last().drop_last().drop_last()
        =~= Seq::<Segment>::empty());
    assert forall|i: int, l: Label| 0 <= i < 7 && #[trigger] s[i].reads(l) > 0 implies exists|
        j: int,
    | 0 <= j < i && (#[trigger] s[j]).writes() == l by {
        if i == 4 {
            if l == Label::Cell(Position::TopLeft) {
                assert(s[0].writes() == l);
            } else {
                assert(s[1].writes() == l);
            }
        } else if i == 5 {
            if l == Label::Cell(Position::BottomLeft) {
                assert(s[2].writes() == l);
            } else {
                assert(s[3].writes() == l);
            }
        } else if i == 6 {
            if l == Label::Top {
                assert(s[4].writes() == l);
            } else {
                assert(s[5].writes() == l);
            }
        }
    }
}

/// The encoder's name for the video stream of the input at `at`.
pub open spec fn input_text(at: Position) -> Seq<char> {
    match at {
        Position::TopLeft => "0:v"@,
        Position::TopRight => "1:v"@,
        Position::BottomLeft => "2:v"@,
        Position::BottomRight => "3:v"@,
    }
}

pub open spec fn label_text(l: Label) -> Seq<char> {
    match l {
        Label::Cell(Position::TopLeft) => "vid1"@,
        Label::Cell(Position::TopRight) => "vid2"@,
        Label::Cell(Position::BottomLeft) => "vid3"@,
        Label::Cell(Position::BottomRight) => "vid4"@,
        Label::Top => "top"@,
        Label::Bottom => "bottom"@,
        Label::Final => "final"@,
    }
}

/// A rate as the encoder reads it: `num/den`.
pub open spec fn rate_text(r: Rate) -> Seq<char> {
    dec_text(r.num as nat) + "/"@ + dec_text(r.den as nat)
}

pub open spec fn bracketed(t: Seq<char>) -> Seq<char> {
    "["@ + t + "]"@
}

/// `width:height`.
pub open spec fn size_text(width: u32, height: u32) -> Seq<char> {
    dec_text(width as nat) + ":"@ + dec_text(height as nat)
}

pub open spec fn cell_text(input: Position, width: u32, height: u32, rate: Rate, out: Label) -> Seq<
    char,
> {
    bracketed(input_text(input)) + "scale="@ + size_text(width, height)
        + ":force_original_aspect_ratio=decrease,pad="@ + size_text(width, height)
        + ":(ow-iw)/2:(oh-ih)/2,setpts=PTS-STARTPTS,fps=fps="@ + rate_text(rate) + ",fifo"@
        + bracketed(label_text(out))
}

pub open spec fn segment_text(s: Segment) -> Seq<char> {
    match s {
        Segment::Cell { input, width, height, rate, out } => cell_text(
            input,
            width,
            height,
            rate,
            out,
        ),
        Segment::HStack { left, right, out } => bracketed(label_text(left)) + bracketed(
            label_text(right),
        ) + "hstack=inputs=2"@ + bracketed(label_text(out)),
        Segment::VStack { upper, lower, out } => bracketed(label_text(upper)) + bracketed(
            label_text(lower),
        ) + "vstack=inputs=2"@ + bracketed(label_text(out)),
    }
}

/// The segments written out in order, separated by `"; "`.
pub open spec fn graph_text(segs: Seq<Segment>) -> Seq<char>
    decreases segs.len(),
{
    if segs.len() == 0 {
        Seq::empty()
    } else if segs.len() == 1 {
        segment_text(segs[0])
    } else {
        graph_text(segs.drop_last()) + "; "@ + segment_text(segs.last())
    }
}

fn push_input(out: &mut String, at: Position)
    ensures
        final(out)@ == old(out)@ + bracketed(input_text(at)),
{
    let ghost start = out@;
    out.append("[");
    match at {
        Position::TopLeft => out.append("0:v"),
        Position::TopRight => out.append("1:v"),
        Position::BottomLeft => out.append("2:v"),
        Position::BottomRight => out.append("3:v"),
    }
    out.append("]");
    assert(out@ =~= start + bracketed(input_text(at)));
}

fn push_label(out: &mut String, l: Label)
    ensures
        final(out)@ == old(out)@ + bracketed(label_text(l)),
{
    let ghost start = out@;
    out.append("[");
    match l {
        Label::Cell(Position::TopLeft) => out.append("vid1"),
        Label::Cell(Position::TopRight) => out.append("vid2"),
        Label::Cell(Position::BottomLeft) => out.append("vid3"),
        Label::Cell(Position::BottomRight) => out.append("vid4"),
        Label::Top => out.append("top"),
        Label::Bottom => out.append("bottom"),
        Label::Final => out.append("final"),
    }
    out.append("]");
    assert(out@ =~= start + bracketed(label_text(l)));
}

fn push_size(out: &mut String, width: u32, height: u32)
    ensures
        final(out)@ == old(out)@ + size_text(width, height),
{
    let ghost start = out@;
    push_decimal(out, width as u64);
    out.append(":");
    push_decimal(out, height as u64);
    assert(out@ =~= start + size_text(width, height));
}

fn push_rate(out: &mut String, rate: Rate)
    ensures
        final(out)@ == old(out)@ + rate_text(rate),
{
    let ghost start = out@;
    push_decimal(out, rate.num);
    out.append("/");
    push_decimal(out, rate.den);
    assert(out@ =~= start + rate_text(rate));
}

fn push_cell(out: &mut String, input: Position, width: u32, height: u32, rate: Rate, label: Label)
    ensures
        final(out)@ == old(out)@ + cell_text(input, width, height, rate, label),
{
    let ghost start = out@;
    let ghost a = bracketed(input_text(input)) + "scale="@ + size_text(width, height);
    let ghost b = a + ":force_original_aspect_ratio=decrease,pad="@ + size_text(width, height);
    let ghost c = b + ":(ow-iw)/2:(oh-ih)/2,setpts=PTS-STARTPTS,fps=fps="@ + rate_text(rate);
    push_input(out, input);
    out.append("scale=");
    push_size(out, width, height);
    assert(out@ =~= start + a);
    out.append(":force_original_aspect_ratio=decrease,pad=");
    push_size(out, width, height);
    assert(out@ =~= start + b);
    out.append(":(ow-iw)/2:(oh-ih)/2,setpts=PTS-STARTPTS,fps=fps=");
    push_rate(out, rate);
    assert(out@ =~= start + c);
    out.append(",fifo");
    push_label(out, label);
    assert(out@ =~= start + cell_text(input, width, height, rate, label));
}

fn push_segment(out: &mut String, s: &Segment)
    ensures
        final(out)@ == old(out)@ + segment_text(*s),
{
    let ghost start = out@;
    match *s {
        Segment::Cell { input, width, height, rate, out: label } => {
            push_cell(out, input, width, height, rate, label);
        },
        Segment::HStack { left, right, out: label } => {
            push_label(out, left);
            push_label(out, right);
            out.append("hstack=inputs=2");
            push_label(out, label);
        },
        Segment::VStack { upper, lower, out: label } => {
            push_label(out, upper);
            push_label(out, lower);
            out.append("vstack=inputs=2");
            push_label(out, label);
        },
    }
    assert(out@ =~= start + segment_text(*s));
}

impl FilterGraph {
    /// The graph as the text the encoder takes.
    pub fn render(&self) -> (r: String)
        ensures
            r@ == graph_text(self.segments@),
    {
        let mut r = String::new();
        let n = self.segments.len();
        let mut i: usize = 0;
        while i < n
            invariant
                i <= n == self.segments@.len(),
                r@ == graph_text(self.segments@.subrange(0, i as int)),
            decreases n - i,
        {
            let ghost before = r@;
            let ghost part = self.segments@.subrange(0, i as int + 1);
            assert(part.drop_last() =~= self.segments@.subrange(0, i as int));
            if i > 0 {
                r.append("; ");
            }
            push_segment(&mut r, &self.segments[i]);
            proof {
                if i == 0 {
                    assert(before =~= Seq::<char>::empty());
                    assert(r@ =~= segment_text(part[0]));
                }
            }
            i = i + 1;
        }
        assert(self.segments@.subrange(0, n as int) =~= self.segments@);
        r
    }
}

} // verus!
