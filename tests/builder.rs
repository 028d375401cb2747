use faust_jit::dict::parse_metadata_dict;
use faust_jit::dsp_type::DspType;
use faust_jit::label::decode_label;
use faust_jit::layout::{BoxLayout, ButtonLayout, NumDisplayLayout, NumParamLayout, WidgetDeclType};
use faust_jit::metadata::{NumDisplayStyle, NumParamStyle, WidgetScale};
use faust_jit::widgets::{DspWidget, DspWidgetsBuilder, StructureError, WidgetDecl};

fn decl(typ: WidgetDeclType, zone: usize) -> WidgetDecl {
    WidgetDecl { typ, zone, init: 0, min: 0, max: 0, step: 0 }
}

fn slider(zone: usize) -> WidgetDecl {
    WidgetDecl {
        typ: WidgetDeclType::HorizontalSlider,
        zone,
        init: 0.0f32.to_bits(),
        min: 0.0f32.to_bits(),
        max: 1.0f32.to_bits(),
        step: 0.01f32.to_bits(),
    }
}

fn build(b: DspWidgetsBuilder) -> Result<Vec<DspWidget>, StructureError> {
    let mut ws = Vec::new();
    b.build_widgets(&mut ws)?;
    Ok(ws)
}

fn choice_value(c: &[(String, String)], k: &str) -> Option<f32> {
    c.iter().find(|(l, _)| l == k).map(|(_, v)| v.parse::<f32>().unwrap())
}

#[test]
fn end_to_end_single_slider_with_unit() {
    let mut b = DspWidgetsBuilder::new();
    b.declare_metadata(0xA0, "unit", "dB");
    b.declare_widget(b"Main", decl(WidgetDeclType::HorizontalBox, 0));
    b.declare_widget(b"Gain", slider(0xA0));
    b.declare_widget(b"", decl(WidgetDeclType::CloseBox, 0));
    let ws = build(b).unwrap();
    assert_eq!(ws.len(), 1);
    match &ws[0] {
        DspWidget::Box { layout, label, inner } => {
            assert_eq!(*layout, BoxLayout::Horizontal);
            assert_eq!(label, "Main");
            assert_eq!(inner.len(), 1);
            match &inner[0] {
                DspWidget::NumParam { layout, style, label, zone, init, min, max, step, metadata } => {
                    assert_eq!(*layout, NumParamLayout::HorizontalSlider);
                    assert!(matches!(style, NumParamStyle::Regular));
                    assert_eq!(label, "Gain");
                    assert_eq!(*zone, 0xA0);
                    assert_eq!(f32::from_bits(*init), 0.0);
                    assert_eq!(f32::from_bits(*min), 0.0);
                    assert_eq!(f32::from_bits(*max), 1.0);
                    assert_eq!(f32::from_bits(*step), 0.01);
                    assert_eq!(metadata.unit.as_deref(), Some("dB"));
                    assert!(matches!(metadata.scale, WidgetScale::Lin));
                    assert!(!metadata.hidden);
                    assert_eq!(metadata.tooltip, None);
                }
                other => panic!("unexpected widget {:?}", other),
            }
        }
        other => panic!("unexpected widget {:?}", other),
    }
}

#[test]
fn nested_tree_mirrors_declaration_order() {
    let mut b = DspWidgetsBuilder::new();
    b.declare_widget(b"Top", decl(WidgetDeclType::VerticalBox, 0));
    b.declare_widget(b"Tabs", decl(WidgetDeclType::TabBox, 0));
    b.declare_widget(b"Go", decl(WidgetDeclType::Button, 1));
    b.declare_widget(b"", decl(WidgetDeclType::CloseBox, 0));
    b.declare_widget(b"Level", decl(WidgetDeclType::VerticalBargraph, 2));
    b.declare_widget(b"On", decl(WidgetDeclType::CheckButton, 3));
    b.declare_widget(b"", decl(WidgetDeclType::CloseBox, 0));
    b.declare_widget(b"Freq", decl(WidgetDeclType::NumEntry, 4));
    let ws = build(b).unwrap();
    assert_eq!(ws.len(), 2);
    assert_eq!(ws[0].label(), "Top");
    assert_eq!(ws[1].label(), "Freq");
    match &ws[0] {
        DspWidget::Box { layout, inner, .. } => {
            assert_eq!(*layout, BoxLayout::Vertical);
            let labels: Vec<&str> = inner.iter().map(|w| w.label()).collect();
            assert_eq!(labels, vec!["Tabs", "Level", "On"]);
            match &inner[0] {
                DspWidget::Box { layout, inner, .. } => {
                    assert_eq!(*layout, BoxLayout::Tab { selected: 0 });
                    assert_eq!(inner.len(), 1);
                    assert!(matches!(
                        &inner[0],
                        DspWidget::Button { layout: ButtonLayout::Held, zone: 1, hidden: false, .. }
                    ));
                }
                other => panic!("unexpected widget {:?}", other),
            }
            assert!(matches!(
                &inner[1],
                DspWidget::NumDisplay {
                    layout: NumDisplayLayout::Vertical,
                    style: NumDisplayStyle::Regular,
                    zone: 2,
                    ..
                }
            ));
            assert!(matches!(
                &inner[2],
                DspWidget::Button { layout: ButtonLayout::Checkbox, zone: 3, .. }
            ));
        }
        other => panic!("unexpected widget {:?}", other),
    }
    assert!(matches!(&ws[1], DspWidget::NumParam { layout: NumParamLayout::NumEntry, zone: 4, .. }));
}

#[test]
fn empty_stream_builds_empty_tree() {
    let ws = build(DspWidgetsBuilder::new()).unwrap();
    assert!(ws.is_empty());
}

#[test]
fn build_appends_after_existing_widgets() {
    let mut b = DspWidgetsBuilder::new();
    b.declare_widget(b"A", decl(WidgetDeclType::Button, 1));
    let mut first = DspWidgetsBuilder::new();
    first.declare_widget(b"Z", decl(WidgetDeclType::Button, 9));
    let mut ws = Vec::new();
    first.build_widgets(&mut ws).unwrap();
    b.build_widgets(&mut ws).unwrap();
    let labels: Vec<&str> = ws.iter().map(|w| w.label()).collect();
    assert_eq!(labels, vec!["Z", "A"]);
}

#[test]
fn unmatched_close_fails() {
    let mut b = DspWidgetsBuilder::new();
    b.declare_widget(b"G", decl(WidgetDeclType::HorizontalBox, 0));
    b.declare_widget(b"", decl(WidgetDeclType::CloseBox, 0));
    b.declare_widget(b"", decl(WidgetDeclType::CloseBox, 0));
    let mut ws = Vec::new();
    assert_eq!(b.build_widgets(&mut ws), Err(StructureError));
    assert!(ws.is_empty());
}

#[test]
fn leading_close_fails() {
    let mut b = DspWidgetsBuilder::new();
    b.declare_widget(b"", decl(WidgetDeclType::CloseBox, 0));
    b.declare_widget(b"X", decl(WidgetDeclType::Button, 1));
    assert_eq!(build(b).unwrap_err(), StructureError);
}

#[test]
fn unmatched_open_fails() {
    let mut b = DspWidgetsBuilder::new();
    b.declare_widget(b"G", decl(WidgetDeclType::HorizontalBox, 0));
    b.declare_widget(b"H", decl(WidgetDeclType::VerticalBox, 0));
    b.declare_widget(b"", decl(WidgetDeclType::CloseBox, 0));
    b.declare_widget(b"X", decl(WidgetDeclType::Button, 1));
    assert_eq!(build(b).unwrap_err(), StructureError);
}

#[test]
fn latest_style_wins() {
    let mut b = DspWidgetsBuilder::new();
    b.declare_metadata(7, "style", "knob");
    b.declare_metadata(7, "style", "menu{'a':0;'b':1}");
    b.declare_widget(b"Sel", slider(7));
    let ws = build(b).unwrap();
    match &ws[0] {
        DspWidget::NumParam { style: NumParamStyle::Menu(c), .. } => {
            assert_eq!(c.len(), 2);
            assert_eq!(choice_value(c, "a"), Some(0.0));
            assert_eq!(choice_value(c, "b"), Some(1.0));
        }
        other => panic!("unexpected widget {:?}", other),
    }
}

#[test]
fn latest_of_each_kind_wins() {
    let mut b = DspWidgetsBuilder::new();
    b.declare_metadata(5, "unit", "Hz");
    b.declare_metadata(5, "scale", "log");
    b.declare_metadata(5, "unit", "kHz");
    b.declare_metadata(5, "hidden", "1");
    b.declare_metadata(5, "tooltip", "first");
    b.declare_metadata(5, "hidden", "0");
    b.declare_metadata(5, "tooltip", "second");
    b.declare_metadata(6, "unit", "other cell");
    b.declare_widget(b"F", slider(5));
    let ws = build(b).unwrap();
    match &ws[0] {
        DspWidget::NumParam { metadata, .. } => {
            assert_eq!(metadata.unit.as_deref(), Some("kHz"));
            assert!(matches!(metadata.scale, WidgetScale::Log));
            assert!(!metadata.hidden);
            assert_eq!(metadata.tooltip.as_deref(), Some("second"));
        }
        other => panic!("unexpected widget {:?}", other),
    }
}

#[test]
fn metadata_after_latest_of_other_kind_keeps_earlier() {
    let mut b = DspWidgetsBuilder::new();
    b.declare_metadata(5, "style", "radio{'x':2}");
    b.declare_metadata(5, "scale", "exp");
    b.declare_widget(b"F", decl(WidgetDeclType::VerticalSlider, 5));
    let ws = build(b).unwrap();
    match &ws[0] {
        DspWidget::NumParam { style: NumParamStyle::Radio(c), metadata, layout, .. } => {
            assert_eq!(*layout, NumParamLayout::VerticalSlider);
            assert_eq!(c.len(), 1);
            assert_eq!(choice_value(c, "x"), Some(2.0));
            assert!(matches!(metadata.scale, WidgetScale::Exp));
        }
        other => panic!("unexpected widget {:?}", other),
    }
}

#[test]
fn display_style_on_slider_is_ignored() {
    let mut b = DspWidgetsBuilder::new();
    b.declare_metadata(3, "style", "led");
    b.declare_widget(b"S", slider(3));
    let ws = build(b).unwrap();
    assert!(matches!(&ws[0], DspWidget::NumParam { style: NumParamStyle::Regular, .. }));
}

#[test]
fn param_style_on_bargraph_is_ignored() {
    let mut b = DspWidgetsBuilder::new();
    b.declare_metadata(3, "style", "knob");
    b.declare_widget(b"B", decl(WidgetDeclType::HorizontalBargraph, 3));
    let ws = build(b).unwrap();
    assert!(matches!(
        &ws[0],
        DspWidget::NumDisplay { style: NumDisplayStyle::Regular, layout: NumDisplayLayout::Horizontal, .. }
    ));
}

#[test]
fn display_styles_apply_to_bargraphs() {
    let mut b = DspWidgetsBuilder::new();
    b.declare_metadata(3, "style", "led");
    b.declare_metadata(4, "style", " numerical ");
    b.declare_widget(b"B", decl(WidgetDeclType::HorizontalBargraph, 3));
    b.declare_widget(b"C", decl(WidgetDeclType::VerticalBargraph, 4));
    let ws = build(b).unwrap();
    assert!(matches!(&ws[0], DspWidget::NumDisplay { style: NumDisplayStyle::Led, .. }));
    assert!(matches!(&ws[1], DspWidget::NumDisplay { style: NumDisplayStyle::Numerical, .. }));
}

#[test]
fn button_gets_hidden_and_tooltip() {
    let mut b = DspWidgetsBuilder::new();
    b.declare_metadata(8, " hidden ", " 1 ");
    b.declare_metadata(8, "tooltip", "  press me ");
    b.declare_widget(b"P", decl(WidgetDeclType::Button, 8));
    let ws = build(b).unwrap();
    match &ws[0] {
        DspWidget::Button { hidden, tooltip, .. } => {
            assert!(*hidden);
            assert_eq!(tooltip.as_deref(), Some("press me"));
        }
        other => panic!("unexpected widget {:?}", other),
    }
}

#[test]
fn same_cell_shared_by_two_declarations() {
    let mut b = DspWidgetsBuilder::new();
    b.declare_metadata(2, "unit", "ms");
    b.declare_widget(b"A", slider(2));
    b.declare_widget(b"B", decl(WidgetDeclType::HorizontalBargraph, 2));
    let ws = build(b).unwrap();
    for w in &ws {
        match w {
            DspWidget::NumParam { metadata, .. } | DspWidget::NumDisplay { metadata, .. } => {
                assert_eq!(metadata.unit.as_deref(), Some("ms"));
            }
            other => panic!("unexpected widget {:?}", other),
        }
    }
}

#[test]
fn malformed_metadata_is_dropped() {
    let mut b = DspWidgetsBuilder::new();
    b.declare_metadata(1, "style", "knob");
    b.declare_metadata(1, "style", "menu{'only':5");
    b.declare_metadata(1, "scale", "cubic");
    b.declare_metadata(1, "hidden", "yes");
    b.declare_metadata(1, "color", "red");
    b.declare_metadata(1, "style", "fancy");
    b.declare_widget(b"S", slider(1));
    let ws = build(b).unwrap();
    match &ws[0] {
        DspWidget::NumParam { style, metadata, .. } => {
            assert!(matches!(style, NumParamStyle::Knob));
            assert!(matches!(metadata.scale, WidgetScale::Lin));
            assert!(!metadata.hidden);
        }
        other => panic!("unexpected widget {:?}", other),
    }
}

#[test]
fn malformed_dictionary_leaves_default_style() {
    let mut b = DspWidgetsBuilder::new();
    b.declare_metadata(1, "style", "menu{'only':5");
    b.declare_metadata(2, "style", "radio{'x':abc}");
    b.declare_widget(b"S", slider(1));
    b.declare_widget(b"T", slider(2));
    let ws = build(b).unwrap();
    assert!(matches!(&ws[0], DspWidget::NumParam { style: NumParamStyle::Regular, .. }));
    assert!(matches!(&ws[1], DspWidget::NumParam { style: NumParamStyle::Regular, .. }));
}

#[test]
fn dictionary_two_entries() {
    let c = parse_metadata_dict("{'lo':0;'hi':1}").unwrap();
    assert_eq!(c.len(), 2);
    assert_eq!(choice_value(&c, "lo"), Some(0.0));
    assert_eq!(choice_value(&c, "hi"), Some(1.0));
}

#[test]
fn dictionary_with_spaces_and_numbers() {
    let c = parse_metadata_dict("  { 'a b' : -1.5 ; 'c':2e3;'d': .25 } ").unwrap();
    assert_eq!(c.len(), 3);
    assert_eq!(choice_value(&c, "a b"), Some(-1.5));
    assert_eq!(choice_value(&c, "c"), Some(2000.0));
    assert_eq!(choice_value(&c, "d"), Some(0.25));
}

#[test]
fn dictionary_duplicate_label_last_wins() {
    let c = parse_metadata_dict("{'a':1;'b':2;'a':3}").unwrap();
    assert_eq!(c.len(), 2);
    assert_eq!(choice_value(&c, "a"), Some(3.0));
    assert_eq!(choice_value(&c, "b"), Some(2.0));
}

#[test]
fn dictionary_missing_brace_fails() {
    assert!(parse_metadata_dict("{'only':5").is_err());
}

#[test]
fn dictionary_non_numeric_value_fails() {
    assert!(parse_metadata_dict("{'x':abc}").is_err());
}

#[test]
fn dictionary_other_malformations_fail() {
    assert!(parse_metadata_dict("'a':1}").is_err());
    assert!(parse_metadata_dict("{'a'1}").is_err());
    assert!(parse_metadata_dict("{'a':1:2}").is_err());
    assert!(parse_metadata_dict("{a:1}").is_err());
    assert!(parse_metadata_dict("{'a':1;}").is_err());
    assert!(parse_metadata_dict("{}").is_err());
    assert!(parse_metadata_dict("{'a':1.2.3}").is_err());
    assert!(parse_metadata_dict("{'a':.}").is_err());
    assert!(parse_metadata_dict("{'a':1e}").is_err());
    assert!(parse_metadata_dict("").is_err());
}

#[test]
fn utf8_label_kept() {
    assert_eq!(decode_label("Fréquence".as_bytes()), "Fréquence");
}

#[test]
fn empty_label_marker_becomes_empty() {
    assert_eq!(decode_label(b"0x00"), "");
    assert_eq!(decode_label(b"0x001"), "0x001");
}

#[test]
fn invalid_utf8_label_is_stable_placeholder() {
    let bytes: &[u8] = &[0xff, 0xfe, 0x41];
    let a = decode_label(bytes);
    let b = decode_label(bytes);
    assert!(!a.is_empty());
    assert!(a.chars().all(|c| c.is_ascii_digit()));
    assert_eq!(a, b);
    assert_ne!(decode_label(&[0xff, 0x00]), decode_label(&[0xff, 0x01]));
}

#[test]
fn invalid_utf8_label_in_tree() {
    let mut b = DspWidgetsBuilder::new();
    b.declare_widget(&[0xc3, 0x28], decl(WidgetDeclType::Button, 1));
    let mut c = DspWidgetsBuilder::new();
    c.declare_widget(&[0xc3, 0x28], decl(WidgetDeclType::Button, 1));
    let w1 = build(b).unwrap();
    let w2 = build(c).unwrap();
    assert!(!w1[0].label().is_empty());
    assert_eq!(w1[0].label(), w2[0].label());
}

#[test]
fn dsp_type_from_voice_count() {
    assert_eq!(DspType::from_nvoices(-1), DspType::AutoDetect);
    assert_eq!(DspType::from_nvoices(0), DspType::Effect);
    assert_eq!(DspType::from_nvoices(1), DspType::Instrument);
    assert_eq!(DspType::from_nvoices(32), DspType::Instrument);
}

#[test]
fn layouts_from_declaration_kinds() {
    assert_eq!(BoxLayout::from_decl_type(WidgetDeclType::TabBox), BoxLayout::Tab { selected: 0 });
    assert_eq!(BoxLayout::from_decl_type(WidgetDeclType::HorizontalBox), BoxLayout::Horizontal);
    assert_eq!(BoxLayout::from_decl_type(WidgetDeclType::VerticalBox), BoxLayout::Vertical);
    assert_eq!(ButtonLayout::from_decl_type(WidgetDeclType::Button), ButtonLayout::Held);
    assert_eq!(ButtonLayout::from_decl_type(WidgetDeclType::CheckButton), ButtonLayout::Checkbox);
    assert_eq!(NumParamLayout::from_decl_type(WidgetDeclType::NumEntry), NumParamLayout::NumEntry);
    assert_eq!(
        NumParamLayout::from_decl_type(WidgetDeclType::HorizontalSlider),
        NumParamLayout::HorizontalSlider
    );
    assert_eq!(
        NumParamLayout::from_decl_type(WidgetDeclType::VerticalSlider),
        NumParamLayout::VerticalSlider
    );
    assert_eq!(
        NumDisplayLayout::from_decl_type(WidgetDeclType::HorizontalBargraph),
        NumDisplayLayout::Horizontal
    );
    assert_eq!(
        NumDisplayLayout::from_decl_type(WidgetDeclType::VerticalBargraph),
        NumDisplayLayout::Vertical
    );
}

#[test]
fn voice_count_follows_selected_type() {
    assert_eq!(DspType::AutoDetect.selected_nvoices(DspType::Instrument, 8), -1);
    assert_eq!(DspType::Effect.selected_nvoices(DspType::AutoDetect, -1), 0);
    assert_eq!(DspType::Instrument.selected_nvoices(DspType::Effect, 0), 1);
    assert_eq!(DspType::Instrument.selected_nvoices(DspType::Instrument, 12), 12);
}

#[test]
fn metadata_recorded_after_declaration_applies() {
    let mut b = DspWidgetsBuilder::new();
    b.declare_widget(b"Late", slider(11));
    b.declare_metadata(11, "style", "knob");
    b.declare_metadata(11, "unit", "%");
    let ws = build(b).unwrap();
    match &ws[0] {
        DspWidget::NumParam { style, metadata, .. } => {
            assert!(matches!(style, NumParamStyle::Knob));
            assert_eq!(metadata.unit.as_deref(), Some("%"));
        }
        other => panic!("unexpected widget {:?}", other),
    }
}

#[test]
fn later_display_style_keeps_earlier_param_style() {
    let mut b = DspWidgetsBuilder::new();
    b.declare_metadata(4, "style", "knob");
    b.declare_metadata(4, "style", "led");
    b.declare_widget(b"S", slider(4));
    b.declare_widget(b"B", decl(WidgetDeclType::HorizontalBargraph, 4));
    let ws = build(b).unwrap();
    assert!(matches!(&ws[0], DspWidget::NumParam { style: NumParamStyle::Knob, .. }));
    assert!(matches!(&ws[1], DspWidget::NumDisplay { style: NumDisplayStyle::Led, .. }));
}

#[test]
fn later_param_style_keeps_earlier_display_style() {
    let mut b = DspWidgetsBuilder::new();
    b.declare_metadata(4, "style", "numerical");
    b.declare_metadata(4, "style", "radio{'a':1}");
    b.declare_widget(b"B", decl(WidgetDeclType::VerticalBargraph, 4));
    let ws = build(b).unwrap();
    assert!(matches!(&ws[0], DspWidget::NumDisplay { style: NumDisplayStyle::Numerical, .. }));
}

#[test]
fn placeholder_digits_are_decimal_of_hash() {
    let a = decode_label(&[0x80]);
    assert!(!a.starts_with('0') || a == "0");
    assert_eq!(a.parse::<u64>().unwrap().to_string(), a);
}
