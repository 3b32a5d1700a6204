use vstd::prelude::*;
use crate::graph_paper::{Graph, GraphPaper, XLinearScale, XLogScale, XScale, YLinearScale, YLogScale, YScale};
use crate::math::fixed::UNIT;

verus! {

/// The kinds of scale an axis can have.
#[derive(Clone, Copy, Debug, PartialEq, Eq, Structural)]
pub enum AxisKind {
    Linear,
    Log,
}

/// The scale of the horizontal axis, of whichever kind.
#[derive(Clone)]
pub enum XAxis {
    Linear(XLinearScale),
    Log(XLogScale),
}

/// The scale of the vertical axis, of whichever kind.
#[derive(Clone)]
pub enum YAxis {
    Linear(YLinearScale),
    Log(YLogScale),
}

impl XScale for XAxis {
    open spec fn wf(&self) -> bool {
        match self {
            XAxis::Linear(scale) => scale.wf(),
            XAxis::Log(scale) => scale.wf(),
        }
    }

    open spec fn position(&self, graph_paper: &GraphPaper, x: i64) -> int {
        match self {
            XAxis::Linear(scale) => scale.position(graph_paper, x),
            XAxis::Log(scale) => scale.position(graph_paper, x),
        }
    }

    open spec fn marks(&self, graph_paper: &GraphPaper) -> Seq<Seq<char>> {
        match self {
            XAxis::Linear(scale) => scale.marks(graph_paper),
            XAxis::Log(scale) => scale.marks(graph_paper),
        }
    }

    proof fn lemma_position_is_monotone(&self, graph_paper: &GraphPaper, a: i64, b: i64) {
        match self {
            XAxis::Linear(scale) => scale.lemma_position_is_monotone(graph_paper, a, b),
            XAxis::Log(scale) => scale.lemma_position_is_monotone(graph_paper, a, b),
        }
    }

    fn is_wf(&self) -> (ok: bool) {
        match self {
            XAxis::Linear(scale) => scale.is_wf(),
            XAxis::Log(scale) => scale.is_wf(),
        }
    }

    fn get_h_splitten(&self, graph_paper: &GraphPaper) -> (ticks: Vec<String>) {
        match self {
            XAxis::Linear(scale) => scale.get_h_splitten(graph_paper),
            XAxis::Log(scale) => scale.get_h_splitten(graph_paper),
        }
    }

    fn to_scaled_x(&self, graph_paper: &GraphPaper, x: i64) -> (at: i64) {
        match self {
            XAxis::Linear(scale) => scale.to_scaled_x(graph_paper, x),
            XAxis::Log(scale) => scale.to_scaled_x(graph_paper, x),
        }
    }
}

impl YScale for YAxis {
    open spec fn wf(&self) -> bool {
        match self {
            YAxis::Linear(scale) => scale.wf(),
            YAxis::Log(scale) => scale.wf(),
        }
    }

    open spec fn position(&self, graph_paper: &GraphPaper, y: i64) -> int {
        match self {
            YAxis::Linear(scale) => scale.position(graph_paper, y),
            YAxis::Log(scale) => scale.position(graph_paper, y),
        }
    }

    open spec fn marks(&self, graph_paper: &GraphPaper) -> Seq<Seq<char>> {
        match self {
            YAxis::Linear(scale) => scale.marks(graph_paper),
            YAxis::Log(scale) => scale.marks(graph_paper),
        }
    }

    proof fn lemma_position_is_monotone(&self, graph_paper: &GraphPaper, a: i64, b: i64) {
        match self {
            YAxis::Linear(scale) => scale.lemma_position_is_monotone(graph_paper, a, b),
            YAxis::Log(scale) => scale.lemma_position_is_monotone(graph_paper, a, b),
        }
    }

    fn is_wf(&self) -> (ok: bool) {
        match self {
            YAxis::Linear(scale) => scale.is_wf(),
            YAxis::Log(scale) => scale.is_wf(),
        }
    }

    fn get_v_splitten(&self, graph_paper: &GraphPaper) -> (ticks: Vec<String>) {
        match self {
            YAxis::Linear(scale) => scale.get_v_splitten(graph_paper),
            YAxis::Log(scale) => scale.get_v_splitten(graph_paper),
        }
    }

    fn to_scaled_y(&self, graph_paper: &GraphPaper, y: i64) -> (at: i64) {
        match self {
            YAxis::Linear(scale) => scale.to_scaled_y(graph_paper, y),
            YAxis::Log(scale) => scale.to_scaled_y(graph_paper, y),
        }
    }
}

/// What a caller chooses for one axis: the kind of scale, and the
/// parameters of both kinds, of which the chosen kind reads its own.
#[derive(Clone)]
pub struct AxisData {
    pub axis_kind: AxisKind,
    pub h_great_split: u32,
    pub h_short_split: u32,
    pub max_value: i64,
    pub base: i64,
    pub from: i32,
    pub to: i32,
    pub tick: u32,
    pub subscale: Vec<i64>,
}

/// The logarithms to base ten of the numbers two to nine, in millionths:
/// where the minor ticks of a decade of a decimal axis stand.
pub open spec fn decimal_subscale() -> Seq<i64> {
    seq![301_030i64, 477_121i64, 602_060i64, 698_970i64, 778_151i64, 845_098i64, 903_090i64, 954_243i64]
}

/// Computes the offsets of the minor ticks of a decimal axis.
pub fn get_decimal_subscale() -> (subscale: Vec<i64>)
    ensures
        subscale@ == decimal_subscale(),
{
    let mut subscale: Vec<i64> = Vec::new();
    subscale.push(301_030);
    subscale.push(477_121);
    subscale.push(602_060);
    subscale.push(698_970);
    subscale.push(778_151);
    subscale.push(845_098);
    subscale.push(903_090);
    subscale.push(954_243);
    assert(subscale@ =~= decimal_subscale());
    subscale
}

impl Default for AxisData {
    /// A linear axis from zero to ten in ten major divisions of five; should
    /// the kind be changed, a decimal axis from a tenth to a hundred.
    fn default() -> (data: Self)
        ensures
            data.axis_kind == AxisKind::Linear,
            data.h_great_split == 10,
            data.h_short_split == 5,
            data.max_value == 10 * UNIT,
            data.base == 10 * UNIT,
            data.from == -1,
            data.to == 2,
            data.tick == 10,
            data.subscale@ == decimal_subscale(),
    {
        AxisData {
            axis_kind: AxisKind::Linear,
            h_great_split: 10,
            h_short_split: 5,
            max_value: 10_000_000,
            base: 10_000_000,
            from: -1,
            to: 2,
            tick: 10,
            subscale: get_decimal_subscale(),
        }
    }
}

impl AxisData {
    /// `axis` is the scale that this choice makes of the horizontal axis:
    /// it is of the chosen kind and has that kind's parameters.
    pub open spec fn makes_x(&self, axis: XAxis) -> bool {
        match axis {
            XAxis::Linear(scale) => self.axis_kind == AxisKind::Linear && scale.h_great_split
                == self.h_great_split && scale.h_short_split == self.h_short_split
                && scale.max_value == self.max_value,
            XAxis::Log(scale) => self.axis_kind == AxisKind::Log && scale.base == self.base
                && scale.from == self.from && scale.to == self.to && scale.tick == self.tick
                && scale.subscale@ == self.subscale@,
        }
    }

    /// `axis` is the scale that this choice makes of the vertical axis.
    pub open spec fn makes_y(&self, axis: YAxis) -> bool {
        match axis {
            YAxis::Linear(scale) => self.axis_kind == AxisKind::Linear && scale.v_great_split
                == self.h_great_split && scale.v_short_split == self.h_short_split
                && scale.max_value == self.max_value,
            YAxis::Log(scale) => self.axis_kind == AxisKind::Log && scale.base == self.base
                && scale.from == self.from && scale.to == self.to && scale.subscale@
                == self.subscale@,
        }
    }

    /// The scale that this choice makes of the horizontal axis.
    pub fn x_scale(&self) -> (axis: XAxis)
        ensures
            self.makes_x(axis),
    {
        match self.axis_kind {
            AxisKind::Linear => XAxis::Linear(
                XLinearScale {
                    h_great_split: self.h_great_split,
                    h_short_split: self.h_short_split,
                    max_value: self.max_value,
                },
            ),
            AxisKind::Log => XAxis::Log(
                XLogScale {
                    base: self.base,
                    from: self.from,
                    to: self.to,
                    tick: self.tick,
                    subscale: self.subscale.clone(),
                },
            ),
        }
    }

    /// The scale that this choice makes of the vertical axis.
    pub fn y_scale(&self) -> (axis: YAxis)
        ensures
            self.makes_y(axis),
    {
        match self.axis_kind {
            AxisKind::Linear => YAxis::Linear(
                YLinearScale {
                    v_great_split: self.h_great_split,
                    v_short_split: self.h_short_split,
                    max_value: self.max_value,
                },
            ),
            AxisKind::Log => YAxis::Log(
                YLogScale {
                    base: self.base,
                    from: self.from,
                    to: self.to,
                    subscale: self.subscale.clone(),
                },
            ),
        }
    }
}

/// Puts a chart together from a sheet and the choices for its two axes.
pub fn compose(graph_paper: GraphPaper, x: &AxisData, y: &AxisData) -> (graph: Graph<XAxis, YAxis>)
    ensures
        graph.graph_paper == graph_paper,
        x.makes_x(graph.x_scale),
        y.makes_y(graph.y_scale),
{
    Graph { graph_paper, x_scale: x.x_scale(), y_scale: y.y_scale() }
}

} // verus!
