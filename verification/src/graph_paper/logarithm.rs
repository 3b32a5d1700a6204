use vstd::prelude::*;
use vstd::string::*;
use vstd::arithmetic::div_mod::*;
use crate::graph_paper::{GraphPaper, XScale, YScale};
use crate::math::fixed::{clamp, floor_div, lemma_product_fits, lemma_quotient_is_nearer_zero, lemma_ratio_ends, lemma_ratio_is_monotone, ratio, saturate, UNIT};
use crate::text::texts;

verus! {

/// The `k`-th power of a fixed-point base: one, multiplied `k` times by the
/// base, each product rounded down to a fixed-point number.
pub open spec fn power(base: int, k: nat) -> int
    decreases k,
{
    if k == 0 {
        UNIT as int
    } else {
        (power(base, (k - 1) as nat) * base) / (UNIT as int)
    }
}

/// The value that stands at exponent `i` of a logarithmic axis: a power of
/// the base, or for a negative exponent the reciprocal of one.
pub open spec fn power_label(base: int, i: int) -> int {
    if i >= 0 {
        power(base, i as nat)
    } else {
        (UNIT * UNIT) / power(base, (-i) as nat)
    }
}

/// The largest magnitude among the exponents of an axis from `from` to `to`.
pub open spec fn reach(from: i32, to: i32) -> nat {
    let below: nat = if from < 0 {
        (-from) as nat
    } else {
        0
    };
    let above: nat = if to > 0 {
        to as nat
    } else {
        0
    };
    if below > above {
        below
    } else {
        above
    }
}

/// How many minor ticks a decade carries: one for each whole number from two
/// up to, but not including, the base.
pub open spec fn sub_count(base: int) -> int {
    (base - 1) / (UNIT as int) - 1
}

/// The parameters of a logarithmic axis are in order: the base is larger
/// than one, the exponents do not run backwards, every power of the base
/// on the axis can be represented, there is one offset for each minor tick
/// of a decade, each within the decade, and the ticks can be counted.
pub open spec fn log_wf(base: i64, from: i32, to: i32, subscale: Seq<i64>) -> bool {
    &&& base > UNIT
    &&& from <= to
    &&& power(base as int, reach(from, to)) <= i64::MAX
    &&& subscale.len() == sub_count(base as int)
    &&& forall|k: int| 0 <= k < subscale.len() ==> 0 <= #[trigger] subscale[k] <= UNIT
    &&& (to - from + 1) * (subscale.len() + 2) <= isize::MAX
}

/// How far from the start of a logarithmic axis the exponent `e` lies, on an
/// axis drawn `extent` long: in proportion to the exponents the axis spans.
/// An axis of a single exponent has no length to share out.
pub open spec fn log_offset(extent: int, from: i32, to: i32, e: int) -> int {
    if from == to {
        0
    } else {
        ratio(e - from * UNIT, extent, (to - from) * UNIT)
    }
}

/// Where a logarithmic axis places the exponent `e` along its own
/// direction: across from the left edge of the frame, or up from its lower
/// edge.
pub open spec fn log_position(
    graph_paper: &GraphPaper,
    horizontal: bool,
    from: i32,
    to: i32,
    e: int,
) -> int {
    if horizontal {
        clamp(graph_paper.margin + log_offset(graph_paper.width(), from, to, e))
    } else {
        clamp(
            graph_paper.size.y - graph_paper.margin - log_offset(graph_paper.height(), from, to, e),
        )
    }
}

/// The minor ticks of the decade that starts at exponent `i`: short strokes
/// at the offsets that `subscale` gives.
pub open spec fn sub_marks(
    graph_paper: &GraphPaper,
    horizontal: bool,
    from: i32,
    to: i32,
    subscale: Seq<i64>,
    i: int,
) -> Seq<Seq<char>> {
    Seq::new(
        subscale.len(),
        |k: int|
            graph_paper.tick_line(
                horizontal,
                log_position(graph_paper, horizontal, from, to, i * UNIT + subscale[k]),
                graph_paper.short_split_length,
            ),
    )
}

/// What is drawn for exponent `i`: the long stroke of its major tick, the
/// label of that tick and, unless the axis ends here, the minor ticks of the
/// decade that follows.
pub open spec fn decade_marks(
    graph_paper: &GraphPaper,
    horizontal: bool,
    base: i64,
    from: i32,
    to: i32,
    subscale: Seq<i64>,
    i: int,
) -> Seq<Seq<char>> {
    let at = log_position(graph_paper, horizontal, from, to, i * UNIT);
    let major = seq![
        graph_paper.tick_line(horizontal, at, graph_paper.great_split_length),
        graph_paper.tick_text(horizontal, at, power_label(base as int, i)),
    ];
    if i < to {
        major + sub_marks(graph_paper, horizontal, from, to, subscale, i)
    } else {
        major
    }
}

/// What is drawn for the first `n` exponents of the axis.
pub open spec fn log_marks_upto(
    graph_paper: &GraphPaper,
    horizontal: bool,
    base: i64,
    from: i32,
    to: i32,
    subscale: Seq<i64>,
    n: nat,
) -> Seq<Seq<char>>
    decreases n,
{
    if n == 0 {
        Seq::empty()
    } else {
        log_marks_upto(graph_paper, horizontal, base, from, to, subscale, (n - 1) as nat)
            + decade_marks(graph_paper, horizontal, base, from, to, subscale, from + n - 1)
    }
}

/// All ticks of a logarithmic axis, exponent by exponent from `from` to `to`.
pub open spec fn log_marks(
    graph_paper: &GraphPaper,
    horizontal: bool,
    base: i64,
    from: i32,
    to: i32,
    subscale: Seq<i64>,
) -> Seq<Seq<char>> {
    log_marks_upto(graph_paper, horizontal, base, from, to, subscale, (to - from + 1) as nat)
}

/// A logarithmic axis of more than one exponent places its first exponent
/// on the edge of the frame where the axis starts and its last exponent on
/// the opposite edge: left and right for the horizontal axis, bottom and
/// top for the vertical one.
pub proof fn lemma_log_ends(graph_paper: &GraphPaper, horizontal: bool, from: i32, to: i32)
    requires
        graph_paper.wf(),
        from < to,
    ensures
        log_position(graph_paper, horizontal, from, to, from * UNIT) == if horizontal {
            graph_paper.margin as int
        } else {
            graph_paper.size.y - graph_paper.margin
        },
        log_position(graph_paper, horizontal, from, to, to * UNIT) == if horizontal {
            graph_paper.size.x - graph_paper.margin
        } else {
            graph_paper.margin as int
        },
{
    let span = (to - from) * UNIT;
    assert(to * UNIT - from * UNIT == span) by (nonlinear_arith)
        requires
            span == (to - from) * UNIT,
    ;
    lemma_ratio_ends(graph_paper.width(), span);
    lemma_ratio_ends(graph_paper.height(), span);
}

/// The first `n` exponents of an axis that has more than `n` of them draw
/// two elements each for the major tick and its label, and one for each
/// minor tick of the decade that follows.
pub proof fn lemma_log_marks_upto_count(
    graph_paper: &GraphPaper,
    horizontal: bool,
    base: i64,
    from: i32,
    to: i32,
    subscale: Seq<i64>,
    n: nat,
)
    requires
        n <= to - from,
    ensures
        log_marks_upto(graph_paper, horizontal, base, from, to, subscale, n).len() == n * (2
            + subscale.len()),
    decreases n,
{
    if n > 0 {
        lemma_log_marks_upto_count(graph_paper, horizontal, base, from, to, subscale, (n - 1) as nat);
        let i = from + n - 1;
        let decade = decade_marks(graph_paper, horizontal, base, from, to, subscale, i);
        assert(i < to);
        assert(sub_marks(graph_paper, horizontal, from, to, subscale, i).len() == subscale.len());
        assert(decade.len() == 2 + subscale.len());
        let each = 2 + subscale.len();
        assert(n * each == (n - 1) * each + each) by (nonlinear_arith);
        assert(log_marks_upto(graph_paper, horizontal, base, from, to, subscale, n).len() == (n - 1)
            * each + each);
    } else {
        assert(0 * (2 + subscale.len()) == 0) by (nonlinear_arith);
    }
}

/// A logarithmic axis draws a major tick and a label for each of its
/// exponents, and between each two neighbouring exponents one minor tick for
/// each offset of the subscale.
pub proof fn lemma_log_mark_count(
    graph_paper: &GraphPaper,
    horizontal: bool,
    base: i64,
    from: i32,
    to: i32,
    subscale: Seq<i64>,
)
    requires
        from <= to,
    ensures
        log_marks(graph_paper, horizontal, base, from, to, subscale).len() == 2 * (to - from + 1)
            + (to - from) * subscale.len(),
{
    let n = (to - from) as nat;
    lemma_log_marks_upto_count(graph_paper, horizontal, base, from, to, subscale, n);
    assert(log_marks(graph_paper, horizontal, base, from, to, subscale) == log_marks_upto(
        graph_paper,
        horizontal,
        base,
        from,
        to,
        subscale,
        n,
    ) + decade_marks(graph_paper, horizontal, base, from, to, subscale, to as int));
    assert(n * (2 + subscale.len()) + 2 == 2 * (n + 1) + n * subscale.len()) by (nonlinear_arith);
}

/// Computes where a logarithmic axis from `from` to `to` places the
/// exponent `e`.
pub fn to_value(graph_paper: &GraphPaper, horizontal: bool, from: i32, to: i32, e: i64) -> (at: i64)
    requires
        graph_paper.wf(),
        from <= to,
    ensures
        at == log_position(graph_paper, horizontal, from, to, e as int),
{
    let extent: i64 = if horizontal {
        graph_paper.size.x - 2 * graph_paper.margin
    } else {
        graph_paper.size.y - 2 * graph_paper.margin
    };
    let offset: i128 = if from == to {
        0
    } else {
        let along: i128 = e as i128 - (from as i128) * 1_000_000;
        let span: i128 = (to as i128 - from as i128) * 1_000_000;
        proof {
            assert(-0x4100_0000_0000_0000_0000_0000_0000_0000 <= along * extent
                <= 0x4100_0000_0000_0000_0000_0000_0000_0000) by (nonlinear_arith)
                requires
                    -0x8010_0000_0000_0000 <= along <= 0x8010_0000_0000_0000,
                    0 <= extent <= 0x7fff_ffff_ffff_ffff,
            ;
            lemma_quotient_is_nearer_zero(along as int * extent as int, span as int);
        }
        floor_div(along * (extent as i128), span)
    };
    if horizontal {
        saturate(graph_paper.margin as i128 + offset)
    } else {
        saturate(graph_paper.size.y as i128 - graph_paper.margin as i128 - offset)
    }
}

/// The powers of a base that is at least one are at least one and never
/// fall as the exponent grows.
pub proof fn lemma_power_grows(base: int, j: nat, k: nat)
    requires
        base >= UNIT,
        j <= k,
    ensures
        UNIT <= power(base, j) <= power(base, k),
    decreases k,
{
    if k == 0 {
    } else if j == k {
        lemma_power_grows(base, (k - 1) as nat, (k - 1) as nat);
        lemma_power_step(base, (k - 1) as nat);
    } else {
        lemma_power_grows(base, j, (k - 1) as nat);
        lemma_power_step(base, (k - 1) as nat);
    }
}

/// One more multiplication by a base that is at least one does not make a
/// power smaller.
proof fn lemma_power_step(base: int, k: nat)
    requires
        base >= UNIT,
        power(base, k) >= 0,
    ensures
        power(base, k) <= power(base, k + 1),
{
    let p = power(base, k);
    assert(p * UNIT <= p * base) by (nonlinear_arith)
        requires
            p >= 0,
            base >= UNIT,
    ;
    lemma_div_is_ordered(p * UNIT, p * base, UNIT as int);
    lemma_div_multiples_vanish(p, UNIT as int);
    assert(p * UNIT == UNIT * p) by (nonlinear_arith);
}

/// Computes the `k`-th power of the base, if an `i64` can hold it.
pub fn power_of(base: i64, k: u32) -> (p: Option<i64>)
    requires
        base >= UNIT,
    ensures
        match p {
            Some(value) => value == power(base as int, k as nat),
            None => power(base as int, k as nat) > i64::MAX,
        },
{
    let mut p: i64 = 1_000_000;
    let mut j: u32 = 0;
    while j < k
        invariant
            base >= UNIT,
            j <= k,
            p == power(base as int, j as nat),
        decreases k - j,
    {
        proof {
            lemma_power_grows(base as int, j as nat, j as nat);
            lemma_power_grows(base as int, (j + 1) as nat, k as nat);
            lemma_product_fits(p as int, base as int);
        }
        let next: i128 = floor_div((p as i128) * (base as i128), 1_000_000);
        if next > 9223372036854775807i128 {
            return None;
        }
        p = next as i64;
        j += 1;
    }
    Some(p)
}

/// Computes the value that stands at exponent `i`.
pub fn label_of(base: i64, i: i32) -> (label: i64)
    requires
        base >= UNIT,
        power(base as int, reach(i, i)) <= i64::MAX,
    ensures
        label == power_label(base as int, i as int),
{
    if i >= 0 {
        match power_of(base, i as u32) {
            Some(p) => p,
            None => 0,
        }
    } else {
        let k: u32 = (-(i as i64)) as u32;
        proof {
            lemma_power_grows(base as int, k as nat, k as nat);
        }
        match power_of(base, k) {
            Some(p) => {
                proof {
                    assert(UNIT * UNIT == 1_000_000_000_000);
                    lemma_quotient_is_nearer_zero(UNIT * UNIT, p as int);
                }
                (1_000_000_000_000u64 / (p as u64)) as i64
            },
            None => 0,
        }
    }
}

/// Computes the largest magnitude among the exponents of an axis.
pub fn reach_of(from: i32, to: i32) -> (k: u32)
    ensures
        k == reach(from, to),
{
    let below: u32 = if from < 0 {
        (-(from as i64)) as u32
    } else {
        0
    };
    let above: u32 = if to > 0 {
        to as u32
    } else {
        0
    };
    if below > above {
        below
    } else {
        above
    }
}

/// Computes how many minor ticks a decade of an axis to the given base
/// carries; none where the base is not larger than one.
pub fn sub_count_of(base: i64) -> (count: u64)
    ensures
        count == if base > UNIT {
            sub_count(base as int)
        } else {
            0
        },
{
    if base > 1_000_000 {
        ((base - 1) as u64) / 1_000_000 - 1
    } else {
        0
    }
}

/// Tells whether the parameters of a logarithmic axis are in order.
pub fn log_is_wf(base: i64, from: i32, to: i32, subscale: &Vec<i64>) -> (ok: bool)
    ensures
        ok == log_wf(base, from, to, subscale@),
{
    if base <= 1_000_000 || from > to {
        return false;
    }
    if power_of(base, reach_of(from, to)).is_none() {
        return false;
    }
    if subscale.len() as u64 != sub_count_of(base) {
        return false;
    }
    let decades: u128 = (to as i64 - from as i64 + 1) as u128;
    let each: u128 = subscale.len() as u128 + 2;
    assert(decades * each <= 0x1_0000_0000 * 0x1_0000_0000_0000_0001) by (nonlinear_arith)
        requires
            0 <= decades <= 0x1_0000_0000,
            0 <= each <= 0x1_0000_0000_0000_0001,
    ;
    if decades * each > isize::MAX as u128 {
        return false;
    }
    let mut k: usize = 0;
    while k < subscale.len()
        invariant
            k <= subscale.len(),
            forall|n: int| 0 <= n < k ==> 0 <= #[trigger] subscale@[n] <= UNIT,
        decreases subscale.len() - k,
    {
        if subscale[k] < 0 || subscale[k] > 1_000_000 {
            return false;
        }
        k += 1;
    }
    true
}

/// Draws the minor ticks of the decade that starts at exponent `i`.
pub fn get_subscale(
    graph_paper: &GraphPaper,
    horizontal: bool,
    from: i32,
    to: i32,
    subscale: &Vec<i64>,
    i: i32,
) -> (ticks: Vec<String>)
    requires
        graph_paper.wf(),
        from <= to,
        forall|k: int| 0 <= k < subscale@.len() ==> 0 <= #[trigger] subscale@[k] <= UNIT,
    ensures
        texts(ticks@) == sub_marks(graph_paper, horizontal, from, to, subscale@, i as int),
{
    let mut ticks: Vec<String> = Vec::new();
    let mut k: usize = 0;
    while k < subscale.len()
        invariant
            graph_paper.wf(),
            from <= to,
            forall|k: int| 0 <= k < subscale@.len() ==> 0 <= #[trigger] subscale@[k] <= UNIT,
            k <= subscale.len(),
            ticks.len() == k,
            forall|n: int|
                0 <= n < k ==> (#[trigger] ticks@[n])@ == sub_marks(
                    graph_paper,
                    horizontal,
                    from,
                    to,
                    subscale@,
                    i as int,
                )[n],
        decreases subscale.len() - k,
    {
        assert(0 <= subscale@[k as int] <= UNIT);
        let e: i64 = (i as i64) * 1_000_000 + subscale[k];
        let at = to_value(graph_paper, horizontal, from, to, e);
        ticks.push(graph_paper.get_tick_line(horizontal, at, graph_paper.short_split_length));
        k += 1;
    }
    assert(texts(ticks@) =~= sub_marks(graph_paper, horizontal, from, to, subscale@, i as int));
    ticks
}

/// Draws what belongs to exponent `i`: its major tick with the label and,
/// unless the axis ends here, the minor ticks of the decade that follows.
pub fn get_decade(
    from: i32,
    to: i32,
    graph_paper: &GraphPaper,
    base: i64,
    horizontal: bool,
    subscale: &Vec<i64>,
    i: i32,
) -> (ticks: Vec<String>)
    requires
        graph_paper.wf(),
        log_wf(base, from, to, subscale@),
        from <= i <= to,
    ensures
        texts(ticks@) == decade_marks(graph_paper, horizontal, base, from, to, subscale@, i as int),
{
    proof {
        lemma_power_grows(base as int, reach(i, i), reach(from, to));
    }
    let at = to_value(graph_paper, horizontal, from, to, (i as i64) * 1_000_000);
    let mut ticks: Vec<String> = Vec::new();
    ticks.push(graph_paper.get_tick_line(horizontal, at, graph_paper.great_split_length));
    ticks.push(graph_paper.get_tick_text(horizontal, at, label_of(base, i)));
    let ghost major = texts(ticks@);
    if i < to {
        let mut minor = get_subscale(graph_paper, horizontal, from, to, subscale, i);
        let ghost rest = texts(minor@);
        ticks.append(&mut minor);
        assert(texts(ticks@) =~= major + rest);
    }
    assert(major =~= seq![
        graph_paper.tick_line(horizontal, at as int, graph_paper.great_split_length),
        graph_paper.tick_text(horizontal, at as int, power_label(base as int, i as int)),
    ]);
    ticks
}

/// Draws the ticks of a logarithmic axis.
pub fn generate_ticks(
    from: i32,
    to: i32,
    graph_paper: &GraphPaper,
    base: i64,
    horizontal: bool,
    subscale: &Vec<i64>,
) -> (ticks: Vec<String>)
    requires
        graph_paper.wf(),
        log_wf(base, from, to, subscale@),
    ensures
        texts(ticks@) == log_marks(graph_paper, horizontal, base, from, to, subscale@),
{
    let mut ticks: Vec<String> = Vec::new();
    let mut i: i64 = from as i64;
    assert(texts(ticks@) =~= Seq::<Seq<char>>::empty());
    while i <= to as i64
        invariant
            graph_paper.wf(),
            log_wf(base, from, to, subscale@),
            from <= i <= to + 1,
            texts(ticks@) == log_marks_upto(
                graph_paper,
                horizontal,
                base,
                from,
                to,
                subscale@,
                (i - from) as nat,
            ),
        decreases to + 1 - i,
    {
        let ghost before = texts(ticks@);
        let mut decade = get_decade(from, to, graph_paper, base, horizontal, subscale, i as i32);
        let ghost added = texts(decade@);
        ticks.append(&mut decade);
        assert(texts(ticks@) =~= before + added);
        i += 1;
    }
    ticks
}

/// A logarithmic scale for the horizontal axis, from `base` to the power
/// `from` up to `base` to the power `to`.
///
/// The scale is addressed by exponent: the datum handed to it is the
/// logarithm to `base` of the value to place. `subscale` holds, for each
/// whole number from two up to the base, its logarithm to `base`: how far
/// into a decade the minor tick of that number stands.
#[derive(Clone)]
pub struct XLogScale {
    /// The base of the logarithm; larger than one.
    pub base: i64,
    /// The exponent at which the axis starts.
    pub from: i32,
    /// The exponent at which the axis ends.
    pub to: i32,
    /// A number of sub-ticks asked for. The ticks drawn do not depend on it.
    pub tick: u32,
    /// How far into a decade each minor tick stands, in decades.
    pub subscale: Vec<i64>,
}

impl XScale for XLogScale {
    open spec fn wf(&self) -> bool {
        log_wf(self.base, self.from, self.to, self.subscale@)
    }

    open spec fn position(&self, graph_paper: &GraphPaper, x: i64) -> int {
        log_position(graph_paper, true, self.from, self.to, x as int)
    }

    open spec fn marks(&self, graph_paper: &GraphPaper) -> Seq<Seq<char>> {
        log_marks(graph_paper, true, self.base, self.from, self.to, self.subscale@)
    }

    proof fn lemma_position_is_monotone(&self, graph_paper: &GraphPaper, a: i64, b: i64) {
        if self.from < self.to {
            lemma_ratio_is_monotone(
                a - self.from * UNIT,
                b - self.from * UNIT,
                graph_paper.width(),
                (self.to - self.from) * UNIT,
            );
        }
    }

    fn is_wf(&self) -> (ok: bool) {
        log_is_wf(self.base, self.from, self.to, &self.subscale)
    }

    fn get_h_splitten(&self, graph_paper: &GraphPaper) -> (ticks: Vec<String>) {
        generate_ticks(self.from, self.to, graph_paper, self.base, true, &self.subscale)
    }

    fn to_scaled_x(&self, graph_paper: &GraphPaper, x: i64) -> (at: i64) {
        to_value(graph_paper, true, self.from, self.to, x)
    }
}

/// A logarithmic scale for the vertical axis, addressed by exponent as the
/// horizontal one is.
#[derive(Clone)]
pub struct YLogScale {
    /// The base of the logarithm; larger than one.
    pub base: i64,
    /// The exponent at which the axis starts.
    pub from: i32,
    /// The exponent at which the axis ends.
    pub to: i32,
    /// How far into a decade each minor tick stands, in decades.
    pub subscale: Vec<i64>,
}

impl YScale for YLogScale {
    open spec fn wf(&self) -> bool {
        log_wf(self.base, self.from, self.to, self.subscale@)
    }

    open spec fn position(&self, graph_paper: &GraphPaper, y: i64) -> int {
        log_position(graph_paper, false, self.from, self.to, y as int)
    }

    open spec fn marks(&self, graph_paper: &GraphPaper) -> Seq<Seq<char>> {
        log_marks(graph_paper, false, self.base, self.from, self.to, self.subscale@)
    }

    proof fn lemma_position_is_monotone(&self, graph_paper: &GraphPaper, a: i64, b: i64) {
        if self.from < self.to {
            lemma_ratio_is_monotone(
                a - self.from * UNIT,
                b - self.from * UNIT,
                graph_paper.height(),
                (self.to - self.from) * UNIT,
            );
        }
    }

    fn is_wf(&self) -> (ok: bool) {
        log_is_wf(self.base, self.from, self.to, &self.subscale)
    }

    fn get_v_splitten(&self, graph_paper: &GraphPaper) -> (ticks: Vec<String>) {
        generate_ticks(self.from, self.to, graph_paper, self.base, false, &self.subscale)
    }

    fn to_scaled_y(&self, graph_paper: &GraphPaper, y: i64) -> (at: i64) {
        to_value(graph_paper, false, self.from, self.to, y)
    }
}

} // verus!
