use monet::axis::{compose, get_decimal_subscale, AxisData, AxisKind, XAxis, YAxis};
use monet::graph_paper::{
    a4, ConfigError, Graph, GraphPaper, HorizontalAnchor, LinearGraph, SVGHandle, SemiLogGraph,
    TextSetting, VerticalAnchor, XLinearScale,
    XLogScale, XScale, YLinearScale, YLogScale, YScale, A4_HEIGHT, A4_WIDTH,
};
use monet::math::fixed::UNIT;
use monet::math::Vec2;

fn small_sheet(points: Vec<Vec2>) -> GraphPaper {
    GraphPaper {
        name: String::from("t"),
        margin: 10 * UNIT,
        size: Vec2::vec2(120 * UNIT, 70 * UNIT),
        points,
        stroke_width: UNIT,
        great_split_length: 4 * UNIT,
        short_split_length: 2 * UNIT,
    }
}

#[test]
fn the_default_sheet_is_in_the_proportions_of_a4() {
    assert_eq!(a4(), Vec2::vec2(2970 * UNIT, 2100 * UNIT));
    assert_eq!((A4_WIDTH, A4_HEIGHT), (2970 * UNIT, 2100 * UNIT));
}

#[test]
fn text_settings_are_written_as_attributes() {
    let setting = TextSetting {
        font_size: 20,
        v_anchor: Some(VerticalAnchor::Top),
        h_anchor: Some(HorizontalAnchor::Start),
    };
    assert_eq!(
        setting.serialise(),
        vec!["font-size=\"20pt\"", "dominant-baseline=\"hanging\"", "text-anchor=\"start\""]
    );
    let setting = TextSetting {
        font_size: 7,
        v_anchor: Some(VerticalAnchor::Centre),
        h_anchor: Some(HorizontalAnchor::Centre),
    };
    assert_eq!(
        setting.serialise(),
        vec!["font-size=\"7pt\"", "dominant-baseline=\"middle\"", "text-anchor=\"center\""]
    );
    let setting = TextSetting {
        font_size: 4_294_967_295,
        v_anchor: Some(VerticalAnchor::Bottom),
        h_anchor: Some(HorizontalAnchor::End),
    };
    assert_eq!(
        setting.serialise(),
        vec!["font-size=\"4294967295pt\"", "dominant-baseline=\"auto\"", "text-anchor=\"end\""]
    );
}

#[test]
fn anchors_that_are_not_set_are_left_out() {
    let setting = TextSetting { font_size: 0, v_anchor: None, h_anchor: None };
    assert_eq!(setting.serialise(), vec!["font-size=\"0pt\""]);
    let setting = TextSetting { font_size: 12, v_anchor: None, h_anchor: Some(HorizontalAnchor::End) };
    assert_eq!(setting.serialise(), vec!["font-size=\"12pt\"", "text-anchor=\"end\""]);
    let setting = TextSetting { font_size: 12, v_anchor: Some(VerticalAnchor::Top), h_anchor: None };
    assert_eq!(setting.serialise(), vec!["font-size=\"12pt\"", "dominant-baseline=\"hanging\""]);
}

#[test]
fn the_frame_is_inset_by_the_margin() {
    let paper = small_sheet(Vec::new());
    assert_eq!(
        paper.get_margin(),
        "<rect width=\"100\" height=\"50\" fill=\"none\" opacity=\"1\" stroke=\"black\" x=\"10\" y=\"10\" stroke-width=\"1\" />"
    );
}

#[test]
fn the_title_is_anchored_at_half_width_and_full_height() {
    let paper = small_sheet(Vec::new());
    assert_eq!(
        paper.get_title(),
        "<text x=\"60\" y=\"70\" font-size=\"20pt\" dominant-baseline=\"auto\" text-anchor=\"center\">t</text>"
    );
}

#[test]
fn text_is_embedded_as_it_is() {
    let s = GraphPaper::get_text(Vec2::vec2(1_500_000, -2 * UNIT), String::from("a<b & c"), None);
    assert_eq!(s, "<text x=\"1.5\" y=\"-2\" >a<b & c</text>");
    let s = GraphPaper::get_text(
        Vec2::vec2(0, 0),
        String::from("x"),
        Some(vec![String::from("a=\"1\""), String::from("b=\"2\"")]),
    );
    assert_eq!(s, "<text x=\"0\" y=\"0\" a=\"1\" b=\"2\">x</text>");
    let s = GraphPaper::get_text(Vec2::vec2(0, 0), String::new(), Some(Vec::new()));
    assert_eq!(s, "<text x=\"0\" y=\"0\" ></text>");
}

#[test]
fn a_point_is_marked_by_a_circle_of_radius_ten() {
    let paper = small_sheet(Vec::new());
    assert_eq!(
        paper.to_plot(&Vec2::vec2(12_500_000, 40 * UNIT)),
        "<circle r=\"10\" cx=\"12.5\" cy=\"40\" />"
    );
}

#[test]
fn a_line_carries_the_stroke_width_of_the_sheet() {
    let paper = small_sheet(Vec::new());
    assert_eq!(
        paper.get_line(Vec2::vec2(0, UNIT), Vec2::vec2(2 * UNIT, 3 * UNIT)),
        "<line stroke=\"black\" x1=\"0\" y1=\"1\" x2=\"2\" y2=\"3\" stroke-width=\"1\" />"
    );
}

#[test]
fn ticks_point_into_the_frame() {
    assert_eq!(
        GraphPaper::get_tick_end(true, Vec2::vec2(5, 60), 4),
        Vec2::vec2(5, 56)
    );
    assert_eq!(
        GraphPaper::get_tick_end(false, Vec2::vec2(10, 20), 4),
        Vec2::vec2(14, 20)
    );
    assert_eq!(
        GraphPaper::get_tick_end(true, Vec2::vec2(0, i64::MIN), 1),
        Vec2::vec2(0, i64::MIN)
    );
    assert_eq!(
        GraphPaper::get_tick_end(false, Vec2::vec2(i64::MAX, 0), 1),
        Vec2::vec2(i64::MAX, 0)
    );
    let paper = small_sheet(Vec::new());
    assert_eq!(paper.get_tick_start(true, 33), Vec2::vec2(33, 60 * UNIT));
    assert_eq!(paper.get_tick_start(false, 33), Vec2::vec2(10 * UNIT, 33));
}

#[test]
fn a_sheet_needs_an_area_to_draw_in() {
    assert!(small_sheet(Vec::new()).is_wf());
    let mut paper = small_sheet(Vec::new());
    paper.margin = -1;
    assert!(!paper.is_wf());
    paper.margin = 35 * UNIT;
    assert!(!paper.is_wf());
    paper.margin = 35 * UNIT - 1;
    assert!(paper.is_wf());
    paper.margin = 0;
    assert!(paper.is_wf());
    paper.size = Vec2::vec2(0, 10);
    assert!(!paper.is_wf());
    paper.size = Vec2::vec2(i64::MAX, i64::MAX);
    paper.margin = i64::MAX / 2;
    assert!(paper.is_wf());
    paper.margin = i64::MAX / 2 + 1;
    assert!(!paper.is_wf());
}

#[test]
fn the_document_wraps_the_elements_in_order() {
    let handle = SVGHandle {
        size: Vec2::vec2(120 * UNIT, 70_500_000),
        elements: vec![String::from("<a />"), String::from("<b />")],
    };
    assert_eq!(
        handle.serialise(),
        "<svg xmlns=\"http://www.w3.org/2000/svg\" width=\"120\" height=\"70.5\">\n\t<a />\n\t<b />\n</svg>"
    );
    let empty = SVGHandle { size: Vec2::vec2(UNIT, UNIT), elements: Vec::new() };
    assert_eq!(
        empty.serialise(),
        "<svg xmlns=\"http://www.w3.org/2000/svg\" width=\"1\" height=\"1\">\n\n</svg>"
    );
}

#[test]
fn elements_are_added_at_the_end() {
    let mut handle = SVGHandle { size: Vec2::vec2(UNIT, UNIT), elements: Vec::new() };
    handle.add_element(String::from("a"));
    handle.add_elements(vec![String::from("b"), String::from("c")]);
    handle.add_element(String::from("d"));
    handle.add_elements(Vec::new());
    assert_eq!(handle.elements, vec!["a", "b", "c", "d"]);
    assert_eq!(handle.size, Vec2::vec2(UNIT, UNIT));
}

#[test]
fn serialization_shape() {
    let points = vec![Vec2::vec2(0, 0), Vec2::vec2(5 * UNIT, 2 * UNIT), Vec2::vec2(10 * UNIT, 4 * UNIT)];
    let graph = Graph {
        graph_paper: small_sheet(points),
        x_scale: XLinearScale { h_great_split: 2, h_short_split: 3, max_value: 10 * UNIT },
        y_scale: YLinearScale { v_great_split: 2, v_short_split: 2, max_value: 4 * UNIT },
    };
    let horizontal = graph.x_scale.get_h_splitten(&graph.graph_paper);
    let vertical = graph.y_scale.get_v_splitten(&graph.graph_paper);
    let fragments = graph.fragments();
    assert_eq!(fragments.len(), 1 + 1 + 3 + horizontal.len() + vertical.len());
    assert_eq!(fragments.len(), 1 + 1 + 3 + 7 + 5);
    assert!(fragments[0].starts_with("<rect "));
    assert!(fragments[1].starts_with("<text "));
    assert_eq!(fragments[2], "<circle r=\"10\" cx=\"10\" cy=\"60\" />");
    assert_eq!(fragments[3], "<circle r=\"10\" cx=\"60\" cy=\"35\" />");
    assert_eq!(fragments[4], "<circle r=\"10\" cx=\"110\" cy=\"10\" />");
    assert_eq!(&fragments[5..10], &vertical[..]);
    assert_eq!(&fragments[10..], &horizontal[..]);
    let document = graph.serialise();
    assert!(document
        .starts_with("<svg xmlns=\"http://www.w3.org/2000/svg\" width=\"120\" height=\"70\">\n\t<rect "));
    assert!(document.ends_with("\n</svg>"));
    let body: Vec<String> = fragments.iter().map(|f| format!("\t{}", f)).collect();
    assert_eq!(
        document,
        format!(
            "<svg xmlns=\"http://www.w3.org/2000/svg\" width=\"120\" height=\"70\">\n{}\n</svg>",
            body.join("\n")
        )
    );
}

#[test]
fn a_chart_without_points_still_has_its_frame_title_and_ticks() {
    let graph = Graph {
        graph_paper: small_sheet(Vec::new()),
        x_scale: XLinearScale { h_great_split: 1, h_short_split: 1, max_value: 1 },
        y_scale: YLinearScale { v_great_split: 1, v_short_split: 1, max_value: 1 },
    };
    assert_eq!(graph.fragments().len(), 2 + 2 + 2);
}

#[test]
fn a_chart_that_is_not_in_order_is_not_drawn() {
    let mut graph = Graph {
        graph_paper: small_sheet(Vec::new()),
        x_scale: XLinearScale { h_great_split: 2, h_short_split: 3, max_value: 10 * UNIT },
        y_scale: YLinearScale { v_great_split: 2, v_short_split: 2, max_value: 4 * UNIT },
    };
    assert!(graph.is_wf());
    assert_eq!(graph.validate(), Ok(()));
    assert_eq!(graph.try_serialise(), Ok(graph.serialise()));
    graph.x_scale.max_value = 0;
    assert!(!graph.is_wf());
    assert_eq!(graph.validate(), Err(ConfigError::HorizontalScale));
    assert_eq!(graph.try_serialise(), Err(ConfigError::HorizontalScale));
    graph.y_scale.v_great_split = 0;
    assert_eq!(graph.try_serialise(), Err(ConfigError::HorizontalScale));
    graph.x_scale.max_value = 1;
    assert_eq!(graph.validate(), Err(ConfigError::VerticalScale));
    assert_eq!(graph.try_serialise(), Err(ConfigError::VerticalScale));
    graph.graph_paper.margin = 60 * UNIT;
    assert_eq!(graph.try_serialise(), Err(ConfigError::Sheet));
    graph.y_scale.v_great_split = 1;
    assert_eq!(graph.validate(), Err(ConfigError::Sheet));
    graph.graph_paper.margin = 0;
    assert!(graph.try_serialise().is_ok());
}

#[test]
fn configuration_errors_say_what_is_wrong() {
    assert_eq!(ConfigError::Sheet.message(), "The margins leave no area to draw in.");
    assert_eq!(ConfigError::HorizontalScale.message(), "The horizontal scale is not valid.");
    assert_eq!(ConfigError::VerticalScale.message(), "The vertical scale is not valid.");
}

#[test]
fn a_linear_axis_needs_divisions_and_a_positive_range() {
    assert!(XLinearScale { h_great_split: 1, h_short_split: 1, max_value: 1 }.is_wf());
    assert!(!XLinearScale { h_great_split: 0, h_short_split: 1, max_value: 1 }.is_wf());
    assert!(!XLinearScale { h_great_split: 1, h_short_split: 0, max_value: 1 }.is_wf());
    assert!(!XLinearScale { h_great_split: 1, h_short_split: 1, max_value: 0 }.is_wf());
    assert!(!YLinearScale { v_great_split: 1, v_short_split: 1, max_value: -5 }.is_wf());
    assert!(YLinearScale { v_great_split: 65_536, v_short_split: 65_536, max_value: 1 }.is_wf());
    assert!(!YLinearScale { v_great_split: 4_294_967_295, v_short_split: 4_294_967_295, max_value: 1 }
        .is_wf());
}

#[test]
fn a_semi_log_chart() {
    let points = vec![Vec2::vec2(0, 2 * UNIT), Vec2::vec2(301_030, 3 * UNIT)];
    let graph = Graph {
        graph_paper: small_sheet(points),
        x_scale: XLogScale { base: 10 * UNIT, from: -1, to: 1, tick: 0, subscale: get_decimal_subscale() },
        y_scale: YLinearScale { v_great_split: 2, v_short_split: 2, max_value: 4 * UNIT },
    };
    assert!(graph.is_wf());
    let fragments = graph.fragments();
    assert_eq!(fragments.len(), 2 + 2 + 5 + (3 * 2 + 2 * 8));
    assert_eq!(fragments[2], "<circle r=\"10\" cx=\"60\" cy=\"35\" />");
    assert_eq!(fragments[3], "<circle r=\"10\" cx=\"75.0515\" cy=\"22.5\" />");
}

#[test]
fn a_log_log_chart() {
    let graph = Graph {
        graph_paper: small_sheet(vec![Vec2::vec2(0, 0)]),
        x_scale: XLogScale { base: 2 * UNIT, from: 0, to: 4, tick: 0, subscale: Vec::new() },
        y_scale: YLogScale { base: 3 * UNIT, from: -1, to: 1, subscale: vec![630_930] },
    };
    assert!(graph.is_wf());
    let fragments = graph.fragments();
    assert_eq!(fragments.len(), 2 + 1 + (3 * 2 + 2) + 5 * 2);
    assert_eq!(fragments[2], "<circle r=\"10\" cx=\"10\" cy=\"35\" />");
    assert!(fragments[4].ends_with(">0.333333</text>"));
    assert!(fragments[fragments.len() - 1].ends_with(">16</text>"));
}

#[test]
fn the_default_axis_is_linear() {
    let data = AxisData::default();
    assert_eq!(data.axis_kind, AxisKind::Linear);
    assert_eq!((data.h_great_split, data.h_short_split, data.max_value), (10, 5, 10 * UNIT));
    assert_eq!((data.base, data.from, data.to, data.tick), (10 * UNIT, -1, 2, 10));
    assert_eq!(
        data.subscale,
        vec![301_030, 477_121, 602_060, 698_970, 778_151, 845_098, 903_090, 954_243]
    );
    assert_eq!(data.subscale, get_decimal_subscale());
}

#[test]
fn an_axis_is_made_of_the_chosen_kind() {
    let mut data = AxisData::default();
    match data.x_scale() {
        XAxis::Linear(scale) => {
            assert_eq!((scale.h_great_split, scale.h_short_split, scale.max_value), (10, 5, 10 * UNIT));
        }
        XAxis::Log(_) => panic!("a linear axis was chosen"),
    }
    match data.y_scale() {
        YAxis::Linear(scale) => {
            assert_eq!((scale.v_great_split, scale.v_short_split, scale.max_value), (10, 5, 10 * UNIT));
        }
        YAxis::Log(_) => panic!("a linear axis was chosen"),
    }
    data.axis_kind = AxisKind::Log;
    match data.x_scale() {
        XAxis::Log(scale) => {
            assert_eq!((scale.base, scale.from, scale.to, scale.tick), (10 * UNIT, -1, 2, 10));
            assert_eq!(scale.subscale, get_decimal_subscale());
        }
        XAxis::Linear(_) => panic!("a logarithmic axis was chosen"),
    }
    match data.y_scale() {
        YAxis::Log(scale) => {
            assert_eq!((scale.base, scale.from, scale.to), (10 * UNIT, -1, 2));
            assert_eq!(scale.subscale, get_decimal_subscale());
        }
        YAxis::Linear(_) => panic!("a logarithmic axis was chosen"),
    }
}

#[test]
fn a_composed_chart_draws_what_its_scales_draw() {
    let x = AxisData::default();
    let mut y = AxisData::default();
    y.axis_kind = AxisKind::Log;
    let graph = compose(small_sheet(vec![Vec2::vec2(5 * UNIT, 0)]), &x, &y);
    assert!(graph.is_wf());
    assert!(graph.x_scale.is_wf() && graph.y_scale.is_wf());
    let linear = XLinearScale { h_great_split: 10, h_short_split: 5, max_value: 10 * UNIT };
    let log = YLogScale { base: 10 * UNIT, from: -1, to: 2, subscale: get_decimal_subscale() };
    let paper = small_sheet(Vec::new());
    assert_eq!(graph.x_scale.get_h_splitten(&paper), linear.get_h_splitten(&paper));
    assert_eq!(graph.y_scale.get_v_splitten(&paper), log.get_v_splitten(&paper));
    assert_eq!(graph.x_scale.to_scaled_x(&paper, 3 * UNIT), linear.to_scaled_x(&paper, 3 * UNIT));
    assert_eq!(graph.y_scale.to_scaled_y(&paper, 500_000), log.to_scaled_y(&paper, 500_000));
    let fragments = graph.fragments();
    assert_eq!(fragments.len(), 2 + 1 + 51 + 32);
    assert_eq!(fragments[2], "<circle r=\"10\" cx=\"60\" cy=\"43.333334\" />");
}

#[test]
fn charts_of_fixed_kinds_are_charts() {
    let linear: LinearGraph = Graph {
        graph_paper: small_sheet(Vec::new()),
        x_scale: XLinearScale { h_great_split: 1, h_short_split: 2, max_value: UNIT },
        y_scale: YLinearScale { v_great_split: 1, v_short_split: 1, max_value: UNIT },
    };
    assert_eq!(linear.fragments().len(), 2 + 3 + 2);
    let semi_log: SemiLogGraph = Graph {
        graph_paper: small_sheet(Vec::new()),
        x_scale: XLogScale { base: 10 * UNIT, from: 0, to: 1, tick: 0, subscale: get_decimal_subscale() },
        y_scale: YLinearScale { v_great_split: 1, v_short_split: 1, max_value: UNIT },
    };
    assert_eq!(semi_log.fragments().len(), 2 + 2 + (2 * 2 + 8));
    assert!(semi_log.serialise().starts_with("<svg "));
}
