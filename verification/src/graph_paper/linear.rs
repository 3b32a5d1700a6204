use vstd::prelude::*;
use vstd::string::*;
use crate::graph_paper::{GraphPaper, XScale, YScale};
use crate::math::fixed::{clamp, lemma_ratio_ends, lemma_ratio_is_monotone, ratio, saturate, scale};
use crate::text::texts;

verus! {

/// The parameters of a linear axis are in order: there is at least one
/// major division, each has at least one minor division, the largest value
/// on the axis is positive, and the ticks can be counted.
pub open spec fn linear_wf(great_split: u32, short_split: u32, max_value: i64) -> bool {
    &&& great_split >= 1
    &&& short_split >= 1
    &&& max_value > 0
    &&& great_split * short_split < isize::MAX
}

/// Where a linear axis places the value `v` across: `0` on the left edge of
/// the frame, `max_value` on its right edge, and the rest in proportion.
pub open spec fn linear_x(graph_paper: &GraphPaper, max_value: i64, v: int) -> int {
    clamp(graph_paper.margin + ratio(v, graph_paper.width(), max_value as int))
}

/// Where a linear axis places the value `v` down the sheet: `0` on the lower
/// edge of the frame, `max_value` on its upper edge.
pub open spec fn linear_y(graph_paper: &GraphPaper, max_value: i64, v: int) -> int {
    clamp(
        graph_paper.size.y - graph_paper.margin - ratio(
            v,
            graph_paper.height(),
            max_value as int,
        ),
    )
}

/// Where a linear axis places the value `v` along its own direction.
pub open spec fn linear_position(
    graph_paper: &GraphPaper,
    horizontal: bool,
    max_value: i64,
    v: int,
) -> int {
    if horizontal {
        linear_x(graph_paper, max_value, v)
    } else {
        linear_y(graph_paper, max_value, v)
    }
}

/// The value at which tick `i` of `total` equal steps stands.
pub open spec fn tick_value(total: int, max_value: int, i: int) -> int {
    ratio(i, max_value, total)
}

/// A tick is a major one where its index is a multiple of the number of
/// major divisions.
pub open spec fn is_major(great_split: int, i: int) -> bool {
    i % great_split == 0
}

/// The number written at major tick `i`: one major division's share of the
/// largest value, times the number of major ticks before this one.
pub open spec fn tick_label(great_split: int, max_value: int, i: int) -> int {
    clamp(ratio(i / great_split, max_value, great_split))
}

/// Tick `i` of a linear axis as an element of the drawing: a long stroke and
/// a label for a major tick, a short stroke for a minor one.
pub open spec fn linear_mark(
    graph_paper: &GraphPaper,
    horizontal: bool,
    great_split: u32,
    short_split: u32,
    max_value: i64,
    i: int,
) -> Seq<char> {
    let value = tick_value(great_split * short_split, max_value as int, i);
    let at = linear_position(graph_paper, horizontal, max_value, value);
    if is_major(great_split as int, i) {
        graph_paper.tick_line(horizontal, at, graph_paper.great_split_length) + "\n\t"@
            + graph_paper.tick_text(
            horizontal,
            at,
            tick_label(great_split as int, max_value as int, i),
        )
    } else {
        graph_paper.tick_line(horizontal, at, graph_paper.short_split_length)
    }
}

/// All ticks of a linear axis, from the one at zero to the one at the
/// largest value: one more than there are minor divisions in all.
pub open spec fn linear_marks(
    graph_paper: &GraphPaper,
    horizontal: bool,
    great_split: u32,
    short_split: u32,
    max_value: i64,
) -> Seq<Seq<char>> {
    Seq::new(
        (great_split * short_split + 1) as nat,
        |i: int| linear_mark(graph_paper, horizontal, great_split, short_split, max_value, i),
    )
}

/// Computes where a linear axis places `v`.
pub fn to_linear(graph_paper: &GraphPaper, horizontal: bool, max_value: i64, v: i64) -> (at: i64)
    requires
        graph_paper.wf(),
        max_value > 0,
    ensures
        at == linear_position(graph_paper, horizontal, max_value, v as int),
{
    if horizontal {
        let width: i64 = graph_paper.size.x - 2 * graph_paper.margin;
        saturate(graph_paper.margin as i128 + scale(v, width, max_value))
    } else {
        let height: i64 = graph_paper.size.y - 2 * graph_paper.margin;
        saturate(graph_paper.size.y as i128 - graph_paper.margin as i128 - scale(v, height, max_value))
    }
}

/// The value of every tick lies between zero and the largest value; the
/// first tick stands at zero and the last at the largest value.
pub proof fn lemma_tick_value_range(total: int, max_value: int, i: int)
    requires
        0 < total,
        0 < max_value,
        0 <= i <= total,
    ensures
        0 <= tick_value(total, max_value, i) <= max_value,
        tick_value(total, max_value, 0) == 0,
        tick_value(total, max_value, total) == max_value,
{
    lemma_ratio_ends(max_value, total);
    lemma_ratio_is_monotone(0, i, max_value, total);
    lemma_ratio_is_monotone(i, total, max_value, total);
}

/// Tells whether the parameters of a linear axis are in order.
pub fn linear_is_wf(great_split: u32, short_split: u32, max_value: i64) -> (ok: bool)
    ensures
        ok == linear_wf(great_split, short_split, max_value),
{
    assert(great_split * short_split <= 0xffff_ffff * 0xffff_ffff) by (nonlinear_arith)
        requires
            0 <= great_split <= 0xffff_ffff,
            0 <= short_split <= 0xffff_ffff,
    ;
    let total_split: u64 = (great_split as u64) * (short_split as u64);
    great_split >= 1 && short_split >= 1 && max_value > 0 && total_split < isize::MAX as u64
}

/// Draws the ticks of a linear axis.
pub fn generate_ticks(
    graph_paper: &GraphPaper,
    horizontal: bool,
    great_split: u32,
    short_split: u32,
    max_value: i64,
) -> (ticks: Vec<String>)
    requires
        graph_paper.wf(),
        linear_wf(great_split, short_split, max_value),
    ensures
        texts(ticks@) == linear_marks(graph_paper, horizontal, great_split, short_split, max_value),
{
    assert(great_split * short_split <= 0xffff_ffff * 0xffff_ffff) by (nonlinear_arith)
        requires
            0 <= great_split <= 0xffff_ffff,
            0 <= short_split <= 0xffff_ffff,
    ;
    let total_split: u64 = (great_split as u64) * (short_split as u64);
    assert(total_split >= 1) by (nonlinear_arith)
        requires
            total_split == great_split * short_split,
            great_split >= 1,
            short_split >= 1,
    ;
    let mut ticks: Vec<String> = Vec::new();
    let mut i: u64 = 0;
    while i <= total_split
        invariant
            graph_paper.wf(),
            linear_wf(great_split, short_split, max_value),
            total_split == great_split * short_split,
            1 <= total_split,
            i <= total_split + 1,
            ticks.len() == i,
            forall|k: int|
                0 <= k < i ==> (#[trigger] ticks@[k])@ == linear_mark(
                    graph_paper,
                    horizontal,
                    great_split,
                    short_split,
                    max_value,
                    k,
                ),
        decreases total_split + 1 - i,
    {
        proof {
            lemma_tick_value_range(total_split as int, max_value as int, i as int);
        }
        let value: i64 = scale(i as i64, max_value, total_split as i64) as i64;
        let at = to_linear(graph_paper, horizontal, max_value, value);
        let tick = if i % (great_split as u64) == 0 {
            let label = saturate(scale((i / (great_split as u64)) as i64, max_value, great_split as i64));
            let mut line = graph_paper.get_tick_line(horizontal, at, graph_paper.great_split_length);
            let text = graph_paper.get_tick_text(horizontal, at, label);
            line.append("\n\t");
            line.append(text.as_str());
            line
        } else {
            graph_paper.get_tick_line(horizontal, at, graph_paper.short_split_length)
        };
        ticks.push(tick);
        i += 1;
    }
    assert(texts(ticks@) =~= linear_marks(
        graph_paper,
        horizontal,
        great_split,
        short_split,
        max_value,
    ));
    ticks
}

/// A linear scale for the horizontal axis: `h_great_split` major divisions
/// of `h_short_split` minor divisions each, from zero to `max_value`.
#[derive(Clone)]
pub struct XLinearScale {
    /// The number of major divisions.
    pub h_great_split: u32,
    /// The number of minor divisions of each major division.
    pub h_short_split: u32,
    /// The value at the end of the axis.
    pub max_value: i64,
}

impl XScale for XLinearScale {
    open spec fn wf(&self) -> bool {
        linear_wf(self.h_great_split, self.h_short_split, self.max_value)
    }

    open spec fn position(&self, graph_paper: &GraphPaper, x: i64) -> int {
        linear_x(graph_paper, self.max_value, x as int)
    }

    open spec fn marks(&self, graph_paper: &GraphPaper) -> Seq<Seq<char>> {
        linear_marks(graph_paper, true, self.h_great_split, self.h_short_split, self.max_value)
    }

    proof fn lemma_position_is_monotone(&self, graph_paper: &GraphPaper, a: i64, b: i64) {
        lemma_ratio_is_monotone(a as int, b as int, graph_paper.width(), self.max_value as int);
    }

    fn is_wf(&self) -> (ok: bool) {
        linear_is_wf(self.h_great_split, self.h_short_split, self.max_value)
    }

    fn get_h_splitten(&self, graph_paper: &GraphPaper) -> (ticks: Vec<String>) {
        generate_ticks(graph_paper, true, self.h_great_split, self.h_short_split, self.max_value)
    }

    fn to_scaled_x(&self, graph_paper: &GraphPaper, x: i64) -> (at: i64) {
        to_linear(graph_paper, true, self.max_value, x)
    }
}

/// A linear scale for the vertical axis: `v_great_split` major divisions of
/// `v_short_split` minor divisions each, from zero to `max_value`.
#[derive(Clone)]
pub struct YLinearScale {
    /// The number of major divisions.
    pub v_great_split: u32,
    /// The number of minor divisions of each major division.
    pub v_short_split: u32,
    /// The value at the end of the axis.
    pub max_value: i64,
}

impl YScale for YLinearScale {
    open spec fn wf(&self) -> bool {
        linear_wf(self.v_great_split, self.v_short_split, self.max_value)
    }

    open spec fn position(&self, graph_paper: &GraphPaper, y: i64) -> int {
        linear_y(graph_paper, self.max_value, y as int)
    }

    open spec fn marks(&self, graph_paper: &GraphPaper) -> Seq<Seq<char>> {
        linear_marks(graph_paper, false, self.v_great_split, self.v_short_split, self.max_value)
    }

    proof fn lemma_position_is_monotone(&self, graph_paper: &GraphPaper, a: i64, b: i64) {
        lemma_ratio_is_monotone(a as int, b as int, graph_paper.height(), self.max_value as int);
    }

    fn is_wf(&self) -> (ok: bool) {
        linear_is_wf(self.v_great_split, self.v_short_split, self.max_value)
    }

    fn get_v_splitten(&self, graph_paper: &GraphPaper) -> (ticks: Vec<String>) {
        generate_ticks(graph_paper, false, self.v_great_split, self.v_short_split, self.max_value)
    }

    fn to_scaled_y(&self, graph_paper: &GraphPaper, y: i64) -> (at: i64) {
        to_linear(graph_paper, false, self.max_value, y)
    }
}

/// A linear axis draws one tick more than it has minor divisions in all.
pub proof fn lemma_linear_mark_count(
    graph_paper: &GraphPaper,
    horizontal: bool,
    great_split: u32,
    short_split: u32,
    max_value: i64,
)
    ensures
        linear_marks(graph_paper, horizontal, great_split, short_split, max_value).len()
            == great_split * short_split + 1,
{
    assert(great_split * short_split >= 0) by (nonlinear_arith)
        requires
            great_split >= 0,
            short_split >= 0,
    ;
}

/// A horizontal linear scale places zero on the left edge of the frame and
/// its largest value on the right edge.
pub proof fn lemma_linear_x_ends(scale: XLinearScale, graph_paper: &GraphPaper)
    requires
        scale.wf(),
        graph_paper.wf(),
    ensures
        scale.position(graph_paper, 0) == graph_paper.margin,
        scale.position(graph_paper, scale.max_value) == graph_paper.size.x - graph_paper.margin,
{
    lemma_ratio_ends(graph_paper.width(), scale.max_value as int);
}

/// A vertical linear scale places zero on the lower edge of the frame and
/// its largest value on the upper edge.
pub proof fn lemma_linear_y_ends(scale: YLinearScale, graph_paper: &GraphPaper)
    requires
        scale.wf(),
        graph_paper.wf(),
    ensures
        scale.position(graph_paper, 0) == graph_paper.size.y - graph_paper.margin,
        scale.position(graph_paper, scale.max_value) == graph_paper.margin,
{
    lemma_ratio_ends(graph_paper.height(), scale.max_value as int);
}

} // verus!
