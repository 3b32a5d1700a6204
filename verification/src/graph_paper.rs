use vstd::prelude::*;
use vstd::string::*;
use crate::math::Vec2;
use crate::math::decimal::{decimal, digits, push_decimal, push_digits, to_decimal};
use crate::math::fixed::{clamp, saturate};
use crate::text::{join, joined, prefixed, texts};

pub mod linear;
pub mod logarithm;

pub use self::linear::{XLinearScale, YLinearScale};
pub use self::logarithm::{XLogScale, YLogScale};

verus! {

/// The radius of the marker drawn for a plotted point: ten units.
pub const P_RADIUS: i64 = 10_000_000;

/// The width of a sheet in the proportions of A4, ten units to the millimetre.
pub const A4_WIDTH: i64 = 2_970_000_000;

/// The height of that sheet.
pub const A4_HEIGHT: i64 = 2_100_000_000;

/// The default chart size: a sheet in the proportions of A4, lying on its side.
pub fn a4() -> (size: Vec2)
    ensures
        size == (Vec2 { x: A4_WIDTH, y: A4_HEIGHT }),
{
    Vec2 { x: A4_WIDTH, y: A4_HEIGHT }
}

/// Where text sits relative to the height of its anchor point.
#[derive(Clone)]
pub enum VerticalAnchor {
    Top,
    Centre,
    Bottom,
}

/// Where text sits to the left or right of its anchor point.
#[derive(Clone)]
pub enum HorizontalAnchor {
    Start,
    Centre,
    End,
}

impl VerticalAnchor {
    /// The value of `dominant-baseline` that places text this way.
    pub open spec fn keyword(self) -> Seq<char> {
        match self {
            VerticalAnchor::Top => "hanging"@,
            VerticalAnchor::Centre => "middle"@,
            VerticalAnchor::Bottom => "auto"@,
        }
    }

    /// The keyword as a string.
    pub fn name(&self) -> (s: &'static str)
        ensures
            s@ == self.keyword(),
    {
        match self {
            VerticalAnchor::Top => "hanging",
            VerticalAnchor::Centre => "middle",
            VerticalAnchor::Bottom => "auto",
        }
    }
}

impl HorizontalAnchor {
    /// The value of `text-anchor` that places text this way.
    pub open spec fn keyword(self) -> Seq<char> {
        match self {
            HorizontalAnchor::Start => "start"@,
            HorizontalAnchor::Centre => "center"@,
            HorizontalAnchor::End => "end"@,
        }
    }

    /// The keyword as a string.
    pub fn name(&self) -> (s: &'static str)
        ensures
            s@ == self.keyword(),
    {
        match self {
            HorizontalAnchor::Start => "start",
            HorizontalAnchor::Centre => "center",
            HorizontalAnchor::End => "end",
        }
    }
}

/// How a piece of text is set: its size in points and where it sits
/// relative to its anchor point.
#[derive(Clone)]
pub struct TextSetting {
    pub font_size: u32,
    pub v_anchor: Option<VerticalAnchor>,
    pub h_anchor: Option<HorizontalAnchor>,
}

impl TextSetting {
    /// The attribute that sets the font size, in points.
    pub open spec fn font_attribute(&self) -> Seq<char> {
        "font-size=\""@ + digits(self.font_size as nat) + "pt\""@
    }

    /// The attribute that places the text relative to the anchor's height.
    pub open spec fn baseline_attribute(anchor: VerticalAnchor) -> Seq<char> {
        "dominant-baseline=\""@ + anchor.keyword() + "\""@
    }

    /// The attribute that places the text to the left or right of the anchor.
    pub open spec fn anchor_attribute(anchor: HorizontalAnchor) -> Seq<char> {
        "text-anchor=\""@ + anchor.keyword() + "\""@
    }

    /// The attributes that a `text` element carries for this setting: the
    /// font size always, then one for each anchor that is set.
    pub open spec fn attributes(&self) -> Seq<Seq<char>> {
        let font = seq![self.font_attribute()];
        let vertical = match self.v_anchor {
            Some(a) => seq![Self::baseline_attribute(a)],
            None => Seq::empty(),
        };
        let horizontal = match self.h_anchor {
            Some(a) => seq![Self::anchor_attribute(a)],
            None => Seq::empty(),
        };
        font + vertical + horizontal
    }

    /// Writes the setting as the attributes of a `text` element.
    pub fn serialise(&self) -> (setting: Vec<String>)
        ensures
            texts(setting@) == self.attributes(),
    {
        let mut setting: Vec<String> = Vec::new();
        let mut font = String::from_str("font-size=\"");
        push_digits(&mut font, self.font_size as u64);
        font.append("pt\"");
        setting.push(font);
        if let Some(a) = &self.v_anchor {
            let mut baseline = String::from_str("dominant-baseline=\"");
            baseline.append(a.name());
            baseline.append("\"");
            setting.push(baseline);
        }
        if let Some(a) = &self.h_anchor {
            let mut anchor = String::from_str("text-anchor=\"");
            anchor.append(a.name());
            anchor.append("\"");
            setting.push(anchor);
        }
        assert(texts(setting@) =~= self.attributes());
        setting
    }
}

/// How the title is set: twenty points, resting on its anchor and centred on it.
pub open spec fn title_setting() -> TextSetting {
    TextSetting {
        font_size: 20,
        v_anchor: Some(VerticalAnchor::Bottom),
        h_anchor: Some(HorizontalAnchor::Centre),
    }
}

/// How the labels of the horizontal axis are set: hanging from the tick,
/// starting at it.
pub open spec fn x_setting() -> TextSetting {
    TextSetting {
        font_size: 20,
        v_anchor: Some(VerticalAnchor::Top),
        h_anchor: Some(HorizontalAnchor::Start),
    }
}

/// How the labels of the vertical axis are set: resting on the tick, ending at it.
pub open spec fn y_setting() -> TextSetting {
    TextSetting {
        font_size: 20,
        v_anchor: Some(VerticalAnchor::Bottom),
        h_anchor: Some(HorizontalAnchor::End),
    }
}

/// The setting of the labels of one axis.
pub open spec fn scale_setting(horizontal: bool) -> TextSetting {
    if horizontal {
        x_setting()
    } else {
        y_setting()
    }
}

/// Computes the setting of the labels of one axis.
pub fn scale_text_setting(horizontal: bool) -> (setting: TextSetting)
    ensures
        setting == scale_setting(horizontal),
{
    if horizontal {
        TextSetting {
            font_size: 20,
            v_anchor: Some(VerticalAnchor::Top),
            h_anchor: Some(HorizontalAnchor::Start),
        }
    } else {
        TextSetting {
            font_size: 20,
            v_anchor: Some(VerticalAnchor::Bottom),
            h_anchor: Some(HorizontalAnchor::End),
        }
    }
}

/// A `rect` element: an outline without fill.
pub open spec fn rect_markup(width: int, height: int, x: int, y: int, stroke: int) -> Seq<char> {
    "<rect width=\""@ + decimal(width) + "\" height=\""@ + decimal(height)
        + "\" fill=\"none\" opacity=\"1\" stroke=\"black\" x=\""@ + decimal(x) + "\" y=\""@
        + decimal(y) + "\" stroke-width=\""@ + decimal(stroke) + "\" />"@
}

/// A `line` element from one point to another.
pub open spec fn line_markup(from: Vec2, to: Vec2, stroke: int) -> Seq<char> {
    "<line stroke=\"black\" x1=\""@ + decimal(from.x as int) + "\" y1=\""@ + decimal(from.y as int)
        + "\" x2=\""@ + decimal(to.x as int) + "\" y2=\""@ + decimal(to.y as int)
        + "\" stroke-width=\""@ + decimal(stroke) + "\" />"@
}

/// The attributes of a `text` element as they stand in its opening tag.
pub open spec fn attribute_list(attributes: Option<Seq<Seq<char>>>) -> Seq<char> {
    match attributes {
        Some(list) => joined(list, " "@),
        None => Seq::empty(),
    }
}

/// A `text` element at an anchor point. The text is embedded as it is.
pub open spec fn text_markup(anchor: Vec2, text: Seq<char>, attributes: Option<Seq<Seq<char>>>) -> Seq<
    char,
> {
    "<text x=\""@ + decimal(anchor.x as int) + "\" y=\""@ + decimal(anchor.y as int) + "\" "@
        + attribute_list(attributes) + ">"@ + text + "</text>"@
}

/// The marker of a plotted point: a `circle` element of fixed radius.
pub open spec fn circle_markup(centre: Vec2) -> Seq<char> {
    "<circle r=\""@ + decimal(P_RADIUS as int) + "\" cx=\""@ + decimal(centre.x as int)
        + "\" cy=\""@ + decimal(centre.y as int) + "\" />"@
}

/// The whole drawing: a root element that carries the sheet's width and
/// height, and inside it the elements in order, one to a line.
pub open spec fn document(size: Vec2, elements: Seq<Seq<char>>) -> Seq<char> {
    "<svg xmlns=\"http://www.w3.org/2000/svg\" width=\""@ + decimal(size.x as int)
        + "\" height=\""@ + decimal(size.y as int) + "\">\n"@ + joined(
        prefixed("\t"@, elements),
        "\n"@,
    ) + "\n</svg>"@
}

/// The opening tag of the root element of a drawing on a sheet of the
/// given size.
pub open spec fn root_tag(size: Vec2) -> Seq<char> {
    "<svg xmlns=\"http://www.w3.org/2000/svg\" width=\""@ + decimal(size.x as int)
        + "\" height=\""@ + decimal(size.y as int) + "\">"@
}

/// Every document opens with a root element whose width and height are
/// those of the sheet, as written.
pub proof fn lemma_document_root(size: Vec2, elements: Seq<Seq<char>>)
    ensures
        root_tag(size).is_prefix_of(document(size, elements)),
{
    reveal_strlit("\">\n");
    reveal_strlit("\">");
    let head = "<svg xmlns=\"http://www.w3.org/2000/svg\" width=\""@ + decimal(size.x as int)
        + "\" height=\""@ + decimal(size.y as int);
    let rest = joined(prefixed("\t"@, elements), "\n"@) + "\n</svg>"@;
    assert("\">\n"@ =~= "\">"@ + seq!['\n']);
    assert(document(size, elements) =~= root_tag(size) + (seq!['\n'] + rest));
}

/// A drawing under construction: the size of the sheet and the elements
/// added so far, in the order in which they will be drawn.
#[derive(Clone)]
pub struct SVGHandle {
    pub size: Vec2,
    pub elements: Vec<String>,
}

impl SVGHandle {
    /// Writes the drawing as a document.
    pub fn serialise(&self) -> (s: String)
        ensures
            s@ == document(self.size, texts(self.elements@)),
    {
        let mut lines: Vec<String> = Vec::new();
        let mut i: usize = 0;
        while i < self.elements.len()
            invariant
                i <= self.elements.len(),
                lines.len() == i,
                forall|k: int| 0 <= k < i ==> (#[trigger] lines@[k])@ == "\t"@ + self.elements@[k]@,
            decreases self.elements.len() - i,
        {
            let mut line = String::from_str("\t");
            line.append(self.elements[i].as_str());
            lines.push(line);
            i += 1;
        }
        assert(texts(lines@) =~= prefixed("\t"@, texts(self.elements@)));
        let mut s = String::from_str("<svg xmlns=\"http://www.w3.org/2000/svg\" width=\"");
        push_decimal(&mut s, self.size.x);
        s.append("\" height=\"");
        push_decimal(&mut s, self.size.y);
        s.append("\">\n");
        let body = join(&lines, "\n");
        s.append(body.as_str());
        s.append("\n</svg>");
        assert(s@ =~= document(self.size, texts(self.elements@)));
        s
    }

    /// Adds one element at the end of the drawing.
    pub fn add_element(&mut self, element: String)
        ensures
            final(self).size == old(self).size,
            final(self).elements@ == old(self).elements@.push(element),
    {
        self.elements.push(element);
    }

    /// Adds several elements, in their order, at the end of the drawing.
    pub fn add_elements(&mut self, elements: Vec<String>)
        ensures
            final(self).size == old(self).size,
            final(self).elements@ == old(self).elements@ + elements@,
    {
        let mut rest = elements;
        self.elements.append(&mut rest);
    }
}

/// The sheet on which a chart is drawn: its title, size and margin, the
/// points to plot, and the widths and lengths of the strokes.
#[derive(Clone)]
pub struct GraphPaper {
    /// The title of the chart.
    pub name: String,
    /// The distance of the frame from the edges of the sheet.
    pub margin: i64,
    /// The width and the height of the sheet.
    pub size: Vec2,
    /// The points to plot, in plotting order. Each coordinate is what the
    /// scale of its axis is addressed by: the value itself on a linear
    /// axis, its logarithm on a logarithmic one.
    pub points: Vec<Vec2>,
    /// The width of every stroke.
    pub stroke_width: i64,
    /// The length of the stroke of a major tick.
    pub great_split_length: i64,
    /// The length of the stroke of a minor tick.
    pub short_split_length: i64,
}

/// A scale for the horizontal axis: it places a datum on the sheet and
/// draws the axis's ticks.
pub trait XScale {
    /// The parameters of the scale are in order.
    spec fn wf(&self) -> bool;

    /// The chart coordinate at which the scale places `x`.
    spec fn position(&self, graph_paper: &GraphPaper, x: i64) -> int;

    /// The ticks of the axis as elements of the drawing, in drawing order.
    spec fn marks(&self, graph_paper: &GraphPaper) -> Seq<Seq<char>>;

    /// A horizontal scale never places a larger datum to the left of a
    /// smaller one.
    proof fn lemma_position_is_monotone(&self, graph_paper: &GraphPaper, a: i64, b: i64)
        requires
            self.wf(),
            graph_paper.wf(),
            a <= b,
        ensures
            self.position(graph_paper, a) <= self.position(graph_paper, b),
    ;

    /// Tells whether the parameters of the scale are in order.
    fn is_wf(&self) -> (ok: bool)
        ensures
            ok == self.wf(),
    ;

    /// Draws the ticks of the axis.
    fn get_h_splitten(&self, graph_paper: &GraphPaper) -> (ticks: Vec<String>)
        requires
            self.wf(),
            graph_paper.wf(),
        ensures
            texts(ticks@) == self.marks(graph_paper),
    ;

    /// Computes the chart coordinate at which the scale places `x`.
    fn to_scaled_x(&self, graph_paper: &GraphPaper, x: i64) -> (at: i64)
        requires
            self.wf(),
            graph_paper.wf(),
        ensures
            at == self.position(graph_paper, x),
    ;
}

/// A scale for the vertical axis. Chart coordinates grow downwards, so a
/// larger datum is placed at a smaller coordinate.
pub trait YScale {
    /// The parameters of the scale are in order.
    spec fn wf(&self) -> bool;

    /// The chart coordinate at which the scale places `y`.
    spec fn position(&self, graph_paper: &GraphPaper, y: i64) -> int;

    /// The ticks of the axis as elements of the drawing, in drawing order.
    spec fn marks(&self, graph_paper: &GraphPaper) -> Seq<Seq<char>>;

    /// A vertical scale never places a larger datum below a smaller one.
    proof fn lemma_position_is_monotone(&self, graph_paper: &GraphPaper, a: i64, b: i64)
        requires
            self.wf(),
            graph_paper.wf(),
            a <= b,
        ensures
            self.position(graph_paper, a) >= self.position(graph_paper, b),
    ;

    /// Tells whether the parameters of the scale are in order.
    fn is_wf(&self) -> (ok: bool)
        ensures
            ok == self.wf(),
    ;

    /// Draws the ticks of the axis.
    fn get_v_splitten(&self, graph_paper: &GraphPaper) -> (ticks: Vec<String>)
        requires
            self.wf(),
            graph_paper.wf(),
        ensures
            texts(ticks@) == self.marks(graph_paper),
    ;

    /// Computes the chart coordinate at which the scale places `y`.
    fn to_scaled_y(&self, graph_paper: &GraphPaper, y: i64) -> (at: i64)
        requires
            self.wf(),
            graph_paper.wf(),
        ensures
            at == self.position(graph_paper, y),
    ;
}

impl GraphPaper {
    /// The margin is not negative and leaves, in both directions, an area
    /// of positive extent to draw in.
    pub open spec fn wf(&self) -> bool {
        &&& 0 <= self.margin
        &&& 2 * self.margin < self.size.x
        &&& 2 * self.margin < self.size.y
    }

    /// The width of the area inside the margins.
    pub open spec fn width(&self) -> int {
        self.size.x - 2 * self.margin
    }

    /// The height of the area inside the margins.
    pub open spec fn height(&self) -> int {
        self.size.y - 2 * self.margin
    }

    /// The frame of the chart: a rectangle inset by the margin on all sides.
    pub open spec fn frame(&self) -> Seq<char> {
        rect_markup(
            self.width(),
            self.height(),
            self.margin as int,
            self.margin as int,
            self.stroke_width as int,
        )
    }

    /// Where the title is anchored: half-way across the sheet, at its full height.
    pub open spec fn title_anchor(&self) -> Vec2 {
        Vec2 { x: (self.size.x / 2) as i64, y: self.size.y }
    }

    /// The title of the chart, centred on its anchor.
    pub open spec fn title(&self) -> Seq<char> {
        text_markup(self.title_anchor(), self.name@, Some(title_setting().attributes()))
    }

    /// Where a tick starts: on the lower edge of the frame for the
    /// horizontal axis, on its left edge for the vertical one.
    pub open spec fn tick_start(&self, horizontal: bool, at: int) -> Vec2 {
        if horizontal {
            Vec2 { x: at as i64, y: (self.size.y - self.margin) as i64 }
        } else {
            Vec2 { x: self.margin, y: at as i64 }
        }
    }

    /// Where a tick of the given length ends: it points into the frame.
    pub open spec fn tick_end(horizontal: bool, from: Vec2, length: i64) -> Vec2 {
        if horizontal {
            Vec2 { x: from.x, y: clamp(from.y - length) as i64 }
        } else {
            Vec2 { x: clamp(from.x + length) as i64, y: from.y }
        }
    }

    /// The stroke of a tick, from its start into the frame.
    pub open spec fn tick_line(&self, horizontal: bool, at: int, length: i64) -> Seq<char> {
        let from = self.tick_start(horizontal, at);
        line_markup(from, Self::tick_end(horizontal, from, length), self.stroke_width as int)
    }

    /// The label of a tick, anchored where the tick starts.
    pub open spec fn tick_text(&self, horizontal: bool, at: int, label: int) -> Seq<char> {
        text_markup(
            self.tick_start(horizontal, at),
            decimal(label),
            Some(scale_setting(horizontal).attributes()),
        )
    }

    /// Computes where a tick starts.
    pub fn get_tick_start(&self, horizontal: bool, at: i64) -> (from: Vec2)
        requires
            self.wf(),
        ensures
            from == self.tick_start(horizontal, at as int),
    {
        if horizontal {
            Vec2 { x: at, y: self.size.y - self.margin }
        } else {
            Vec2 { x: self.margin, y: at }
        }
    }

    /// Computes where a tick of the given length ends.
    pub fn get_tick_end(horizontal: bool, from: Vec2, length: i64) -> (to: Vec2)
        ensures
            to == Self::tick_end(horizontal, from, length),
    {
        if horizontal {
            Vec2 { x: from.x, y: saturate(from.y as i128 - length as i128) }
        } else {
            Vec2 { x: saturate(from.x as i128 + length as i128), y: from.y }
        }
    }

    /// Draws the stroke of a tick.
    pub fn get_tick_line(&self, horizontal: bool, at: i64, length: i64) -> (s: String)
        requires
            self.wf(),
        ensures
            s@ == self.tick_line(horizontal, at as int, length),
    {
        let from = self.get_tick_start(horizontal, at);
        self.get_line(from, Self::get_tick_end(horizontal, from, length))
    }

    /// Draws the label of a tick.
    pub fn get_tick_text(&self, horizontal: bool, at: i64, label: i64) -> (s: String)
        requires
            self.wf(),
        ensures
            s@ == self.tick_text(horizontal, at as int, label as int),
    {
        let from = self.get_tick_start(horizontal, at);
        Self::get_text(
            from,
            to_decimal(label),
            Some(scale_text_setting(horizontal).serialise()),
        )
    }

    /// The markers of the points, each where the two scales place it.
    pub open spec fn plotted<X: XScale, Y: YScale>(&self, x_scale: &X, y_scale: &Y) -> Seq<
        Seq<char>,
    > {
        Seq::new(
            self.points@.len(),
            |i: int|
                circle_markup(
                    Vec2 {
                        x: x_scale.position(self, self.points@[i].x) as i64,
                        y: y_scale.position(self, self.points@[i].y) as i64,
                    },
                ),
        )
    }

    /// What is drawn whatever the scales' ticks: the frame, the title and
    /// the markers of the points, in this order.
    pub open spec fn paper<X: XScale, Y: YScale>(&self, x_scale: &X, y_scale: &Y) -> Seq<Seq<char>> {
        seq![self.frame(), self.title()] + self.plotted(x_scale, y_scale)
    }

    /// Tells whether the sheet has an area to draw in.
    pub fn is_wf(&self) -> (ok: bool)
        ensures
            ok == self.wf(),
    {
        let twice: i128 = 2 * (self.margin as i128);
        0 <= self.margin && twice < self.size.x as i128 && twice < self.size.y as i128
    }

    /// Draws the frame.
    pub fn get_margin(&self) -> (s: String)
        requires
            self.wf(),
        ensures
            s@ == self.frame(),
    {
        let mut s = String::from_str("<rect width=\"");
        push_decimal(&mut s, self.size.x - 2 * self.margin);
        s.append("\" height=\"");
        push_decimal(&mut s, self.size.y - 2 * self.margin);
        s.append("\" fill=\"none\" opacity=\"1\" stroke=\"black\" x=\"");
        push_decimal(&mut s, self.margin);
        s.append("\" y=\"");
        push_decimal(&mut s, self.margin);
        s.append("\" stroke-width=\"");
        push_decimal(&mut s, self.stroke_width);
        s.append("\" />");
        assert(s@ =~= self.frame());
        s
    }

    /// Draws a line from one point to another, in the sheet's stroke width.
    pub fn get_line(&self, from: Vec2, to: Vec2) -> (s: String)
        ensures
            s@ == line_markup(from, to, self.stroke_width as int),
    {
        let mut s = String::from_str("<line stroke=\"black\" x1=\"");
        push_decimal(&mut s, from.x);
        s.append("\" y1=\"");
        push_decimal(&mut s, from.y);
        s.append("\" x2=\"");
        push_decimal(&mut s, to.x);
        s.append("\" y2=\"");
        push_decimal(&mut s, to.y);
        s.append("\" stroke-width=\"");
        push_decimal(&mut s, self.stroke_width);
        s.append("\" />");
        assert(s@ =~= line_markup(from, to, self.stroke_width as int));
        s
    }

    /// Draws text at an anchor point, with the given attributes if any.
    pub fn get_text(anchor: Vec2, text: String, extra_property: Option<Vec<String>>) -> (s: String)
        ensures
            s@ == text_markup(
                anchor,
                text@,
                match extra_property {
                    Some(list) => Some(texts(list@)),
                    None => None,
                },
            ),
    {
        let mut s = String::from_str("<text x=\"");
        push_decimal(&mut s, anchor.x);
        s.append("\" y=\"");
        push_decimal(&mut s, anchor.y);
        s.append("\" ");
        if let Some(list) = &extra_property {
            let attributes = join(list, " ");
            s.append(attributes.as_str());
        }
        s.append(">");
        s.append(text.as_str());
        s.append("</text>");
        assert(s@ =~= text_markup(
            anchor,
            text@,
            match extra_property {
                Some(list) => Some(texts(list@)),
                None => None,
            },
        ));
        s
    }

    /// Draws the marker of a point that stands at `point` on the sheet.
    pub fn to_plot(&self, point: &Vec2) -> (s: String)
        ensures
            s@ == circle_markup(*point),
    {
        let mut s = String::from_str("<circle r=\"");
        push_decimal(&mut s, P_RADIUS);
        s.append("\" cx=\"");
        push_decimal(&mut s, point.x);
        s.append("\" cy=\"");
        push_decimal(&mut s, point.y);
        s.append("\" />");
        assert(s@ =~= circle_markup(*point));
        s
    }

    /// Draws the title.
    pub fn get_title(&self) -> (s: String)
        requires
            self.wf(),
        ensures
            s@ == self.title(),
    {
        let anchor = Vec2 { x: ((self.size.x as u64) / 2) as i64, y: self.size.y };
        let setting = TextSetting {
            font_size: 20,
            v_anchor: Some(VerticalAnchor::Bottom),
            h_anchor: Some(HorizontalAnchor::Centre),
        };
        Self::get_text(anchor, self.name.clone(), Some(setting.serialise()))
    }

    /// Starts the drawing of a chart: the frame, the title, and a marker
    /// for each point where the two scales place it.
    pub fn get_paper<X: XScale, Y: YScale>(&self, x_scale: &X, y_scale: &Y) -> (handle: SVGHandle)
        requires
            self.wf(),
            x_scale.wf(),
            y_scale.wf(),
        ensures
            handle.size == self.size,
            texts(handle.elements@) == self.paper(x_scale, y_scale),
    {
        let mut handle = SVGHandle { size: self.size, elements: Vec::new() };
        handle.add_element(self.get_margin());
        handle.add_element(self.get_title());
        let mut i: usize = 0;
        while i < self.points.len()
            invariant
                self.wf(),
                x_scale.wf(),
                y_scale.wf(),
                i <= self.points.len(),
                handle.size == self.size,
                handle.elements.len() == 2 + i,
                texts(handle.elements@) == self.paper(x_scale, y_scale).take(2 + i),
            decreases self.points.len() - i,
        {
            let ghost before = texts(handle.elements@);
            let p = self.points[i];
            let at = Vec2 {
                x: x_scale.to_scaled_x(self, p.x),
                y: y_scale.to_scaled_y(self, p.y),
            };
            handle.add_element(self.to_plot(&at));
            assert(texts(handle.elements@) =~= before.push(self.plotted(x_scale, y_scale)[i as int]));
            assert(texts(handle.elements@) =~= self.paper(x_scale, y_scale).take(3 + i));
            i += 1;
        }
        assert(self.paper(x_scale, y_scale).take(2 + i) =~= self.paper(x_scale, y_scale));
        handle
    }
}

/// A chart with a linear scale on both axes.
pub type LinearGraph = Graph<XLinearScale, YLinearScale>;

/// A chart with a logarithmic horizontal and a linear vertical scale.
pub type SemiLogGraph = Graph<XLogScale, YLinearScale>;

/// What can be wrong with the configuration of a chart.
#[derive(Clone, Copy, Debug, PartialEq, Eq, Structural)]
pub enum ConfigError {
    /// The margins leave no area to draw in.
    Sheet,
    /// The parameters of the horizontal scale are not in order.
    HorizontalScale,
    /// The parameters of the vertical scale are not in order.
    VerticalScale,
}

impl ConfigError {
    /// What the error says to the user.
    pub open spec fn text(self) -> Seq<char> {
        match self {
            ConfigError::Sheet => "The margins leave no area to draw in."@,
            ConfigError::HorizontalScale => "The horizontal scale is not valid."@,
            ConfigError::VerticalScale => "The vertical scale is not valid."@,
        }
    }

    /// Writes what the error says to the user.
    pub fn message(&self) -> (s: String)
        ensures
            s@ == self.text(),
    {
        match self {
            ConfigError::Sheet => String::from_str("The margins leave no area to draw in."),
            ConfigError::HorizontalScale => String::from_str("The horizontal scale is not valid."),
            ConfigError::VerticalScale => String::from_str("The vertical scale is not valid."),
        }
    }
}

/// A chart: a sheet with its points, and a scale for each axis.
pub struct Graph<X: XScale, Y: YScale> {
    pub graph_paper: GraphPaper,
    pub x_scale: X,
    pub y_scale: Y,
}

impl<X: XScale, Y: YScale> Graph<X, Y> {
    /// The sheet and both scales are in order.
    pub open spec fn wf(&self) -> bool {
        &&& self.graph_paper.wf()
        &&& self.x_scale.wf()
        &&& self.y_scale.wf()
    }

    /// Everything the chart draws, in drawing order: the frame, the title,
    /// the points, the ticks of the vertical axis, the ticks of the
    /// horizontal axis.
    pub open spec fn drawing(&self) -> Seq<Seq<char>> {
        self.graph_paper.paper(&self.x_scale, &self.y_scale) + self.y_scale.marks(&self.graph_paper)
            + self.x_scale.marks(&self.graph_paper)
    }

    /// Tells whether the sheet and both scales are in order.
    pub fn is_wf(&self) -> (ok: bool)
        ensures
            ok == self.wf(),
    {
        self.graph_paper.is_wf() && self.x_scale.is_wf() && self.y_scale.is_wf()
    }

    /// The elements of the chart, one string each, in drawing order.
    pub fn fragments(&self) -> (elements: Vec<String>)
        requires
            self.wf(),
        ensures
            texts(elements@) == self.drawing(),
    {
        let mut handle = self.graph_paper.get_paper(&self.x_scale, &self.y_scale);
        let ghost paper = texts(handle.elements@);
        let vertical = self.y_scale.get_v_splitten(&self.graph_paper);
        let horizontal = self.x_scale.get_h_splitten(&self.graph_paper);
        handle.add_elements(vertical);
        handle.add_elements(horizontal);
        assert(texts(handle.elements@) =~= paper + texts(vertical@) + texts(horizontal@));
        handle.elements
    }

    /// The chart as a document.
    pub fn serialise(&self) -> (s: String)
        requires
            self.wf(),
        ensures
            s@ == document(self.graph_paper.size, self.drawing()),
    {
        let handle = SVGHandle { size: self.graph_paper.size, elements: self.fragments() };
        handle.serialise()
    }

    /// What is wrong with the chart's configuration, if anything: the sheet
    /// is looked at first, then the horizontal scale, then the vertical one.
    pub open spec fn fault(&self) -> Option<ConfigError> {
        if !self.graph_paper.wf() {
            Some(ConfigError::Sheet)
        } else if !self.x_scale.wf() {
            Some(ConfigError::HorizontalScale)
        } else if !self.y_scale.wf() {
            Some(ConfigError::VerticalScale)
        } else {
            None
        }
    }

    /// Finds what is wrong with the chart's configuration, if anything.
    pub fn validate(&self) -> (r: Result<(), ConfigError>)
        ensures
            match r {
                Ok(_) => self.wf() && self.fault() is None,
                Err(e) => !self.wf() && self.fault() == Some(e),
            },
    {
        if !self.graph_paper.is_wf() {
            Err(ConfigError::Sheet)
        } else if !self.x_scale.is_wf() {
            Err(ConfigError::HorizontalScale)
        } else if !self.y_scale.is_wf() {
            Err(ConfigError::VerticalScale)
        } else {
            Ok(())
        }
    }

    /// The chart as a document, or what is wrong with its configuration.
    pub fn try_serialise(&self) -> (r: Result<String, ConfigError>)
        ensures
            match r {
                Ok(s) => self.wf() && s@ == document(self.graph_paper.size, self.drawing()),
                Err(e) => !self.wf() && self.fault() == Some(e),
            },
    {
        match self.validate() {
            Ok(_) => Ok(self.serialise()),
            Err(e) => Err(e),
        }
    }

    /// A chart draws one frame, one title, one marker for each point, and
    /// the ticks of its two axes; nothing else.
    pub proof fn lemma_fragment_count(&self)
        ensures
            self.drawing().len() == 1 + 1 + self.graph_paper.points@.len() + self.x_scale.marks(
                &self.graph_paper,
            ).len() + self.y_scale.marks(&self.graph_paper).len(),
    {
    }
}

} // verus!
