//! Checks of single font binaries, run on small fonts built here with write-fonts.
use fontations::read::{FontRef, TableProvider};
use fontations::types::{Fixed, NameId, Tag};
use fontations::write::from_obj::ToOwnedTable;
use fontations::write::tables::fvar::{AxisInstanceArrays, Fvar, VariationAxisRecord};
use fontations::write::tables::head::Head;
use fontations::write::tables::hhea::Hhea;
use fontations::write::tables::maxp::Maxp;
use fontations::write::tables::name::{Name, NameRecord};
use fontations::write::tables::os2::{Os2, SelectionFlags};
use fontations::write::tables::post::Post;
use fontations::write::tables::stat::{AxisRecord, AxisValue, AxisValueTableFlags, Stat};
use fontations::write::FontBuilder;
use fontspector::check::{Check, TestableType};
use fontspector::codetesting::{
    assert_messages_contain, assert_pass, assert_results_contain, assert_skip, run_check,
    run_check_with_config, test_able,
};
use fontspector::config::{ConfigValue, Context};
use fontspector::gf_fonts::fix_no_oblique_bit;
use fontspector::opentype::{caret_readings, caret_slope_verdict, fix_os2_version_fsselection, CaretReadings};
use fontspector::status::StatusCode;
use fontspector::testable::Testable;

/// What a test font is made of.
struct Spec {
    os2: Os2,
    hhea: Hhea,
    names: Vec<(u16, &'static str)>,
    axes: Vec<(&'static [u8; 4], f64, f64, f64, u16)>,
    stat: Option<Stat>,
}

fn name_table(names: &[(u16, &'static str)]) -> Name {
    let mut records: Vec<NameRecord> = names
        .iter()
        .map(|(id, s)| NameRecord::new(3, 1, 1033, NameId::new(*id), s.to_string().into()))
        .collect();
    records.sort();
    Name::new(records)
}

fn build(spec: &Spec) -> Vec<u8> {
    let mut b = FontBuilder::new();
    let head = Head { units_per_em: 1000, ..Default::default() };
    b.add_table(&head).unwrap();
    b.add_table(&Maxp::new(1)).unwrap();
    b.add_table(&spec.hhea).unwrap();
    b.add_table(&spec.os2).unwrap();
    b.add_table(&name_table(&spec.names)).unwrap();
    b.add_table(&Post::default()).unwrap();
    if !spec.axes.is_empty() {
        let axes = spec
            .axes
            .iter()
            .enumerate()
            .map(|(i, (tag, min, default, max, flags))| {
                VariationAxisRecord::new(
                    Tag::new(tag),
                    Fixed::from_f64(*min),
                    Fixed::from_f64(*default),
                    Fixed::from_f64(*max),
                    *flags,
                    NameId::new(256 + i as u16),
                )
            })
            .collect();
        b.add_table(&Fvar::new(AxisInstanceArrays::new(axes, vec![]))).unwrap();
    }
    if let Some(stat) = &spec.stat {
        b.add_table(stat).unwrap();
    }
    b.build()
}

/// An OS/2 table of version 4 with sane vertical metrics.
fn base_os2() -> Os2 {
    Os2 {
        us_weight_class: 400,
        us_width_class: 5,
        fs_type: 0,
        fs_selection: SelectionFlags::REGULAR,
        s_typo_ascender: 800,
        s_typo_descender: -200,
        s_typo_line_gap: 0,
        us_win_ascent: 1000,
        us_win_descent: 300,
        ach_vend_id: Tag::new(b"NONE"),
        ul_code_page_range_1: Some(1),
        ul_code_page_range_2: Some(0),
        sx_height: Some(500),
        s_cap_height: Some(700),
        us_default_char: Some(0),
        us_break_char: Some(32),
        us_max_context: Some(2),
        ..Default::default()
    }
}

fn base_hhea() -> Hhea {
    Hhea {
        ascender: 1000.into(),
        descender: (-300).into(),
        line_gap: 0.into(),
        caret_slope_rise: 1,
        ..Default::default()
    }
}

/// A static font like Mada Regular: no fvar and no STAT table.
fn mada() -> Testable {
    let spec = Spec {
        os2: base_os2(),
        hhea: base_hhea(),
        names: vec![
            (1, "Mada"),
            (2, "Regular"),
            (3, "1.000;NONE;Mada-Regular"),
            (4, "Mada Regular"),
            (5, "Version 1.000"),
            (6, "Mada-Regular"),
        ],
        axes: vec![],
        stat: None,
    };
    test_able("mada/Mada-Regular.ttf", build(&spec))
}

/// A variable font like Inter, with weight and slant axes and a STAT table without duplicates.
fn inter() -> Testable {
    let elidable = AxisValueTableFlags::ELIDABLE_AXIS_VALUE_NAME;
    let stat = Stat::new(
        vec![
            AxisRecord::new(Tag::new(b"wght"), NameId::new(256), 0),
            AxisRecord::new(Tag::new(b"slnt"), NameId::new(257), 1),
        ],
        vec![
            AxisValue::format_1(0, elidable, NameId::new(258), Fixed::from_f64(400.0)),
            AxisValue::format_1(0, AxisValueTableFlags::empty(), NameId::new(259), Fixed::from_f64(700.0)),
            AxisValue::format_1(1, elidable, NameId::new(258), Fixed::from_f64(0.0)),
        ],
        NameId::new(2),
    );
    let spec = Spec {
        os2: base_os2(),
        hhea: base_hhea(),
        names: vec![
            (1, "Inter"),
            (2, "Regular"),
            (3, "4.000;RSMS;Inter-Regular"),
            (4, "Inter Regular"),
            (5, "Version 4.000"),
            (6, "Inter-Regular"),
            (25, "Inter"),
            (256, "Weight"),
            (257, "Slant"),
            (258, "Regular"),
            (259, "Bold"),
        ],
        axes: vec![(b"wght", 100.0, 400.0, 900.0, 0), (b"slnt", -10.0, 0.0, 0.0, 0)],
        stat: Some(stat),
    };
    test_able("varfont/inter/Inter[slnt,wght].ttf", build(&spec))
}

/// A variable font like League Gothic, with a width axis.
fn league_gothic() -> Testable {
    let stat = Stat::new(
        vec![AxisRecord::new(Tag::new(b"wdth"), NameId::new(256), 0)],
        vec![
            AxisValue::format_1(0, AxisValueTableFlags::ELIDABLE_AXIS_VALUE_NAME, NameId::new(257), Fixed::from_f64(100.0)),
            AxisValue::format_1(0, AxisValueTableFlags::empty(), NameId::new(258), Fixed::from_f64(75.0)),
        ],
        NameId::new(2),
    );
    let spec = Spec {
        os2: base_os2(),
        hhea: base_hhea(),
        names: vec![(1, "League Gothic"), (2, "Regular"), (256, "Width"), (257, "Normal"), (258, "Condensed")],
        axes: vec![(b"wdth", 75.0, 100.0, 100.0, 0)],
        stat: Some(stat),
    };
    test_able("leaguegothic-vf/LeagueGothic[wdth].ttf", build(&spec))
}

/// A static font like Montserrat, with fsType 0 (installable embedding).
fn montserrat(path: &str) -> Testable {
    let spec = Spec {
        os2: base_os2(),
        hhea: base_hhea(),
        names: vec![(1, "Montserrat"), (2, "Regular")],
        axes: vec![],
        stat: None,
    };
    test_able(path, build(&spec))
}

/// Rebuilds a font with its OS/2 table bytes changed, the other tables copied as they are.
fn patch_os2(contents: &[u8], patch: impl Fn(&mut Vec<u8>)) -> Vec<u8> {
    let f = FontRef::new(contents).unwrap();
    let os2_tag = Tag::new(b"OS/2");
    let mut os2_bytes = f.table_data(os2_tag).unwrap().as_ref().to_vec();
    patch(&mut os2_bytes);
    let mut builder = FontBuilder::new();
    builder.add_raw(os2_tag, os2_bytes);
    for record in f.table_directory.table_records() {
        let tag = record.tag.get();
        if tag != os2_tag {
            if let Some(data) = f.table_data(tag) {
                builder.add_raw(tag, data.as_ref().to_vec());
            }
        }
    }
    builder.build()
}

/// Sets bits of fsSelection (bytes 62 and 63 of OS/2).
fn set_fs_selection_bits(bytes: &mut Vec<u8>, bits: u16) {
    let fs_sel = u16::from_be_bytes([bytes[62], bytes[63]]) | bits;
    bytes[62] = (fs_sel >> 8) as u8;
    bytes[63] = (fs_sel & 0xFF) as u8;
}

/// Rebuilds Inter with its fvar axes changed.
fn inter_with_axes(change: impl Fn(&mut VariationAxisRecord)) -> Testable {
    let mut testable = inter();
    let f = FontRef::new(&testable.contents).unwrap();
    let mut fvar: Fvar = f.fvar().unwrap().to_owned_table();
    for axis in &mut fvar.axis_instance_arrays.axes {
        if axis.axis_tag == Tag::new(b"wght") {
            change(axis);
        }
    }
    let new_bytes = FontBuilder::new().add_table(&fvar).unwrap().copy_missing_tables(f).build();
    testable.contents = new_bytes;
    testable
}

fn object(entries: Vec<(&str, ConfigValue)>) -> ConfigValue {
    ConfigValue::Object(entries.into_iter().map(|(k, v)| (k.to_string(), v)).collect())
}

fn names(items: &[&str]) -> ConfigValue {
    ConfigValue::Array(items.iter().map(|s| ConfigValue::Str(s.to_string())).collect())
}

// opsz_not_elided

#[test]
fn opsz_not_elided_test_skip_no_stat() {
    let results = run_check(Check::OpszNotElided, mada());
    assert!(assert_skip(&results));
}

#[test]
fn test_skip_no_opsz() {
    let results = run_check(Check::OpszNotElided, inter());
    assert!(assert_skip(&results));
}

#[test]
fn test_pass_league_gothic() {
    let results = run_check(Check::OpszNotElided, league_gothic());
    let result = results.as_ref().unwrap();
    let worst = result.worst_status();
    assert!(worst == StatusCode::Pass || worst == StatusCode::Skip);
}

#[test]
fn opsz_elidable_value_warns() {
    let stat = Stat::new(
        vec![AxisRecord::new(Tag::new(b"opsz"), NameId::new(256), 0)],
        vec![AxisValue::format_1(0, AxisValueTableFlags::ELIDABLE_AXIS_VALUE_NAME, NameId::new(257), Fixed::from_f64(14.0))],
        NameId::new(2),
    );
    let spec = Spec {
        os2: base_os2(),
        hhea: base_hhea(),
        names: vec![(1, "Opsz Sans"), (2, "Regular"), (256, "Optical size"), (257, "Text")],
        axes: vec![(b"opsz", 8.0, 14.0, 144.0, 0)],
        stat: Some(stat),
    };
    let results = run_check(Check::OpszNotElided, test_able("OpszSans[opsz].ttf", build(&spec)));
    assert!(assert_results_contain(&results, StatusCode::Warn, Some("elidable-opsz".to_string())));
    assert!(assert_messages_contain(&results, "STAT table 'opsz' axis value '14' is marked as elidable."));
}

// no_vf_in_name

#[test]
fn test_pass_normal_name() {
    let results = run_check(Check::NoVfInName, mada());
    assert!(assert_pass(&results));
}

#[test]
fn vf_in_family_name_fails() {
    let spec = Spec { os2: base_os2(), hhea: base_hhea(), names: vec![(1, "Mada VF"), (2, "Regular")], axes: vec![], stat: None };
    let results = run_check(Check::NoVfInName, test_able("MadaVF.ttf", build(&spec)));
    assert!(assert_results_contain(&results, StatusCode::Fail, Some("vf-in-family-name".to_string())));
}

// no_oblique_bit

#[test]
fn test_pass_no_oblique() {
    let results = run_check(Check::NoObliqueBit, mada());
    assert!(assert_pass(&results));
}

#[test]
fn test_fail_oblique_bit_set() {
    let mut testable = mada();
    testable.contents = patch_os2(&testable.contents, |b| set_fs_selection_bits(b, 0x0200));
    let results = run_check(Check::NoObliqueBit, testable);
    assert!(assert_results_contain(&results, StatusCode::Fail, Some("oblique-bit-set".to_string())));
}

#[test]
fn test_hotfix_clears_oblique_bit() {
    let mut testable = mada();
    testable.contents = patch_os2(&testable.contents, |b| set_fs_selection_bits(b, 0x0200));
    assert_eq!(fix_no_oblique_bit(&mut testable).unwrap(), true);
    let results = run_check(Check::NoObliqueBit, testable);
    assert!(assert_pass(&results));
}

#[test]
fn hotfix_rebuilds_even_without_oblique_bit() {
    let mut testable = mada();
    assert_eq!(fix_no_oblique_bit(&mut testable).unwrap(), true);
    let results = run_check(Check::NoObliqueBit, testable);
    assert!(assert_pass(&results));
}

// parametric_axes_hidden

#[test]
fn test_skip_static_font() {
    let results = run_check(Check::ParametricAxesHidden, mada());
    assert!(assert_skip(&results));
}

#[test]
fn test_pass_no_parametric_axes() {
    let results = run_check(Check::ParametricAxesHidden, inter());
    assert!(assert_pass(&results));
}

#[test]
fn parametric_axis_shown_fails() {
    let spec = Spec {
        os2: base_os2(),
        hhea: base_hhea(),
        names: vec![(1, "Param"), (2, "Regular")],
        axes: vec![(b"wght", 100.0, 400.0, 900.0, 0), (b"XOPQ", 20.0, 80.0, 150.0, 0)],
        stat: None,
    };
    let results = run_check(Check::ParametricAxesHidden, test_able("Param[XOPQ,wght].ttf", build(&spec)));
    assert!(assert_results_contain(&results, StatusCode::Fail, Some("parametric-not-hidden".to_string())));
    assert!(assert_messages_contain(
        &results,
        "Parametric axis 'XOPQ' (Thick Stroke) does not have the HIDDEN_AXIS flag set.",
    ));
}

// monotype/fstype

#[test]
fn test_fstype_pass() {
    let testable = montserrat("montserrat/Montserrat-Regular.ttf");
    let config = vec![("monotype/fstype".to_string(), object(vec![("fstype_value", ConfigValue::UInt(0))]))];
    let results = run_check_with_config(Check::Fstype, TestableType::Single(&testable), config);
    assert!(assert_pass(&results));
}

#[test]
fn test_fstype_fail() {
    let testable = montserrat("montserrat/Montserrat-Regular.ttf");
    let config = vec![("monotype/fstype".to_string(), object(vec![("fstype_value", ConfigValue::UInt(4))]))];
    let results = run_check_with_config(Check::Fstype, TestableType::Single(&testable), config);
    assert!(assert_results_contain(&results, StatusCode::Fail, Some("fstype".to_string())));
    assert!(assert_messages_contain(
        &results,
        "OS/2 fsType must be set to Print & Preview (4), found Installable Embedding (0) instead.",
    ));
}

// monotype/vertical_metrics_sane

#[test]
fn test_vertical_metrics_sane_pass() {
    let results = run_check(Check::VerticalMetricsSane, montserrat("montserrat/Montserrat-Black.ttf"));
    assert!(assert_pass(&results));
}

#[test]
fn test_vertical_metrics_sane_fail() {
    let new_hhea = Hhea { ascender: 1000.into(), descender: (-200).into(), line_gap: 0.into(), ..Default::default() };
    let new_os2 = Os2 {
        us_win_ascent: 1000,
        us_win_descent: 200,
        s_typo_ascender: 1000,
        s_typo_descender: -200,
        s_typo_line_gap: 0,
        ..Default::default()
    };
    let cases: Vec<(Hhea, Os2, &str)> = vec![
        (new_hhea.clone(), Os2 { us_win_descent: 0, ..new_os2.clone() }, "bad-os2-win-descent"),
        (new_hhea.clone(), Os2 { us_win_ascent: 0, ..new_os2.clone() }, "bad-os2-win-ascent"),
        (new_hhea.clone(), Os2 { s_typo_ascender: 0, ..new_os2.clone() }, "bad-os2-typo-ascender"),
        (new_hhea.clone(), Os2 { s_typo_descender: 0, ..new_os2.clone() }, "bad-os2-typo-descender"),
        (new_hhea.clone(), Os2 { s_typo_line_gap: -200, ..new_os2.clone() }, "bad-os2-typo-linegap"),
        (Hhea { line_gap: (-200).into(), ..new_hhea.clone() }, new_os2.clone(), "bad-hhea-linegap"),
        (Hhea { ascender: 0.into(), ..new_hhea.clone() }, new_os2.clone(), "bad-hhea-ascent"),
        (Hhea { descender: 0.into(), ..new_hhea.clone() }, new_os2.clone(), "bad-hhea-descent"),
    ];
    for (hhea, os2, expected_code) in cases {
        let mut font_builder = FontBuilder::new();
        font_builder.add_table(&Maxp::default()).unwrap();
        font_builder.add_table(&Head::default()).unwrap();
        font_builder.add_table(&hhea).unwrap();
        font_builder.add_table(&os2).unwrap();
        let testable = Testable::new_with_contents("demo.otf", font_builder.build());
        let results = run_check(Check::VerticalMetricsSane, testable);
        assert!(assert_results_contain(&results, StatusCode::Fail, Some(expected_code.to_string())));
    }
}

/// A font with only maxp, OS/2 (with the given weight and width classes) and name tables.
fn styled_font(weight: u16, width: u16, family: &str, style: &str) -> Testable {
    let mut font_builder = FontBuilder::new();
    font_builder.add_table(&Maxp::default()).unwrap();
    let os2 = Os2 { us_weight_class: weight, us_width_class: width, ..Default::default() };
    font_builder.add_table(&os2).unwrap();
    let mut records = vec![
        NameRecord::new(3, 1, 1033, NameId::new(16), family.to_string().into()),
        NameRecord::new(3, 1, 1033, NameId::new(17), style.to_string().into()),
    ];
    records.sort();
    font_builder.add_table(&Name::new(records)).unwrap();
    Testable::new_with_contents("demo.otf", font_builder.build())
}

fn first_message(r: Result<Vec<fontspector::status::Status>, fontspector::status::CheckError>) -> Option<String> {
    r.unwrap().into_iter().next().unwrap().message
}

// monotype/weightclass

#[test]
fn test_weightclass() {
    let css = "CSS only supports one of the following OS/2 weight class values '100, 200, 300, 400, 500, 600, 700, 800, 900'. If the font family has more than 9 weights, this does not work for any weight.";
    let spec_msg = |v: u16| format!("OS/2 usWeightClass {v} does not match specifications. We expect: Hairline 50, Thin 100, ExtraLight 200, Light 300, Regular 400, Medium 500, SemiBold 600, Bold 700, ExtraBold 800, Black 900, ExtraBlack 950.");
    let mismatch = |v: u16, pref: &str, got: &str| format!("For OS/2 usWeightClass {v} we expect '{pref}', but got '{got}'. Either usWeightClass is wrong or style name. Please investigate.");
    let weight_tests: Vec<(u16, &str, Option<String>)> = vec![
        (1100, "DarkBlack", Some("OS/2 usWeightClass 1100 is outside the expected range of 1-1000.".to_string())),
        (50, "Hairline", Some(css.to_string())),
        (400, "Hairline", Some(mismatch(400, "Regular", "Hairline"))),
        (950, "XBlack", Some(css.to_string())),
        (400, "XBlack", Some(mismatch(400, "Regular", "XBlack"))),
        (400, "Regular", None),
        (333, "Regular", Some(spec_msg(333))),
        (900, "Condensed Black", None),
        (600, "XXCond SemiBold Italic", None),
        (500, "XXCond SemiBold Italic", Some(mismatch(500, "Medium", "XXCond SemiBold Italic"))),
        (100, "Whatever Thin", None),
        (200, "ExtraLight", None),
        (200, "XLight", None),
        (300, "Light", None),
        (300, "XLight", Some(mismatch(300, "Light", "XLight"))),
        (600, "SemiBold", None),
        (600, "DemiBold", Some(mismatch(600, "SemiBold", "DemiBold"))),
        (700, "Bold", None),
        (700, "XBold", Some(mismatch(700, "Bold", "XBold"))),
        (800, "XBold", None),
        (800, "Black", Some(mismatch(800, "ExtraBold", "Black"))),
        (900, "Black", None),
        (1000, "Black", Some(spec_msg(1000))),
        (400, "Italic", None),
        (350, "SemiLight", Some(css.to_string())),
        (350, "SemiLight Italic", Some(css.to_string())),
        (400, "Cond Italic", None),
        (400, "Cond Regular Italic", None),
        (900, "Blk Italic", None),
        (900, "Heavy", Some("For OS/2 usWeightClass 900 we expect Black, but got 'Heavy'.".to_string())),
        (400, "Blk Italic", Some(mismatch(400, "Regular", "Blk Italic"))),
        (800, "UltraBold", Some(mismatch(800, "ExtraBold", "UltraBold"))),
    ];
    for (weight_class_value, style_name, expected_result) in weight_tests {
        let testable = styled_font(weight_class_value, 5, "A Family Name", style_name);
        let result = first_message(fontspector::monotype::weightclass(&testable, &Context::new()));
        assert_eq!(result, expected_result, "{weight_class_value} {style_name}");
    }
}

// monotype/widthclass

fn widthclass_context(entries: Vec<(&str, ConfigValue)>) -> Context {
    let mut context = Context::new();
    context.configuration = vec![("monotype/widthclass".to_string(), object(entries))];
    context
}

#[test]
fn test_widthclass_invalid_config() {
    let testable = styled_font(400, 1, "A Family Name", "CustomWidthXXCondensed Hairline");
    let context = widthclass_context(vec![
        ("1", names(&["CustomWidthXXCondensed"])),
        ("2", names(&["XCond", "XCondensed"])),
    ]);
    let result = first_message(fontspector::monotype::widthclass(&testable, &context));
    assert_eq!(result, Some("Missing key '3' in local configuration for monotype/widthclass.".to_string()));
}

#[test]
fn test_widthclass_config() {
    let width_tests: Vec<(u16, &str, &str, Option<String>)> = vec![
        (1, "A Family Name", "CustomWidthXXCondensed Hairline", None),
        (8, "A Family Name", "XWide Hairline", Some("For OS/2 usWidthClass 8 we expect [\"CustomWide\"], but got 'A Family Name XWide Hairline'.".to_string())),
        (9, "A Family Name", "ExtraExtraWide Hairline", None),
    ];
    for (width_class_value, family_name, style_name, expected_result) in width_tests {
        let testable = styled_font(400, width_class_value, family_name, style_name);
        let context = widthclass_context(vec![
            ("1", names(&["CustomWidthXXCondensed"])),
            ("2", names(&["XCond", "XCondensed"])),
            ("3", names(&["Cond", "Condensed"])),
            ("4", names(&["SemiCond", "SemiCondensed"])),
            ("5", names(&["Normal"])),
            ("6", names(&["SemiWide"])),
            ("7", names(&["Wide"])),
            ("8", names(&["CustomWide"])),
            ("9", names(&["ExtraExtraWide"])),
        ]);
        let result = first_message(fontspector::monotype::widthclass(&testable, &context));
        assert_eq!(result, expected_result, "{width_class_value} {style_name}");
    }
}

#[test]
fn test_widthclass() {
    let width_tests: Vec<(u16, &str, &str, Option<&str>)> = vec![
        (5, "A Family Name", "Hairline", None),
        (5, "A Family Name", "Cond Regular", Some("For OS/2 usWidthClass 5 we expect [\"Normal\"], but got 'A Family Name Cond Regular'. Either usWidthClass is wrong or style name. Please investigate.")),
        (3, "A Family Name", "Condensed Black", None),
        (6, "A Family Name", "Semi-Wide SemiBold Italic", Some("For OS/2 usWidthClass 6 we expect [\"SemiExtended\", \"SemiExt\", \"SmExt\"], but got 'A Family Name Semi-Wide SemiBold Italic'.")),
        (7, "A Family Name", "Semi-Wide SemiBold Italic", Some("For OS/2 usWidthClass 7 we expect [\"Extended\", \"Ext\"], but got 'A Family Name Semi-Wide SemiBold Italic'. Either usWidthClass is wrong or style name. Please investigate.")),
        (5, "A Family Name", "Whatever Thin", None),
        (5, "A Family Name", "ExtraLight", None),
        (5, "A Family Name", "XLight", None),
        (5, "A Family Name", "Light", None),
        (5, "A Family Name", "XBlack", None),
        (5, "A Family Name", "Italic", None),
        (5, "A Family Name", "SemiLight", None),
        (5, "A Family Name", "SemiLight Italic", None),
        (3, "A Family Name", "Cond Italic", None),
        (3, "A Family Name", "Cond Regular Italic", None),
        (4, "A Family Name", "Cond Regular Italic", Some("For OS/2 usWidthClass 4 we expect [\"SemiCondensed\", \"SemiCond\", \"SmCond\", \"SmCn\"], but got 'A Family Name Cond Regular Italic'. Either usWidthClass is wrong or style name. Please investigate.")),
        (10, "A Family Name", "XXWide", Some("OS/2 usWidthClass 10 is not in the range allowed by the OpenType spec (1-9).")),
        (3, "A Family Name Cond", "Bold", None),
        (7, "A Family Name Wide", "Bold", Some("For OS/2 usWidthClass 7 we expect [\"Extended\", \"Ext\"], but got 'A Family Name Wide Bold'.")),
        (1, "A Family Name", "ExtraCompressed Bold", None),
        (2, "A Family Name", "Compressed Bold", None),
        (3, "A Family Name", "Condensed Bold", None),
        (4, "A Family Name", "SemiCondensed Bold", None),
        (5, "A Family Name", "Bold", None),
        (6, "A Family Name", "SemiExtended Bold", None),
        (7, "A Family Name", "Extended Bold", None),
        (8, "A Family Name", "Wide Bold", None),
        (9, "A Family Name", "ExtraWide Bold", None),
        (1, "A Family Name", "XCm Bold", None),
        (1, "A Family Name", "XComp Bold", None),
        (1, "A Family Name", "ExtraComp Bold", None),
        (2, "A Family Name", "Comp Bold", None),
        (2, "A Family Name", "Cm Bold", None),
        (3, "A Family Name", "Cn Bold", None),
        (4, "A Family Name", "SmCond Bold", None),
        (4, "A Family Name", "SmCn Bold", None),
        (6, "A Family Name", "SemiExt Bold", None),
        (6, "A Family Name", "SmExt Bold", None),
        (7, "A Family Name", "Ext Bold", None),
        (8, "A Family Name", "Wd Bold", None),
        (9, "A Family Name", "XtraWd Bold", None),
        (9, "A Family Name", "XWd Bold", None),
    ];
    for (width_class_value, family_name, style_name, expected_result) in width_tests {
        let testable = styled_font(400, width_class_value, family_name, style_name);
        let result = first_message(fontspector::monotype::widthclass(&testable, &Context::new()));
        assert_eq!(result, expected_result.map(|s| s.to_string()), "{width_class_value} {style_name}");
    }
}

// opentype/STAT/no_duplicate_axis_values

#[test]
fn no_duplicate_axis_values_test_skip_no_stat() {
    let results = run_check(Check::NoDuplicateAxisValues, mada());
    assert!(assert_skip(&results));
}

#[test]
fn test_pass_inter_variable() {
    let results = run_check(Check::NoDuplicateAxisValues, inter());
    assert!(assert_pass(&results));
}

#[test]
fn test_fail_duplicate_axis_values() {
    let mut testable = inter();
    let f = FontRef::new(&testable.contents).unwrap();
    let stat = Stat::new(
        vec![AxisRecord::new(Tag::new(b"wght"), NameId::new(256), 0)],
        vec![
            AxisValue::format_1(0, AxisValueTableFlags::empty(), NameId::new(257), Fixed::from_f64(400.0)),
            AxisValue::format_1(0, AxisValueTableFlags::empty(), NameId::new(258), Fixed::from_f64(400.0)),
        ],
        NameId::new(259),
    );
    let new_bytes = FontBuilder::new().add_table(&stat).unwrap().copy_missing_tables(f).build();
    testable.contents = new_bytes;
    let results = run_check(Check::NoDuplicateAxisValues, testable);
    assert!(assert_results_contain(&results, StatusCode::Fail, Some("duplicate-axis-value".to_string())));
}

// opentype/fvar/valid_default

#[test]
fn valid_default_test_inter_passes() {
    let results = run_check(Check::ValidDefault, inter());
    assert!(assert_pass(&results));
}

#[test]
fn valid_default_test_skip_static() {
    let results = run_check(Check::ValidDefault, mada());
    assert!(assert_skip(&results));
}

#[test]
fn test_default_below_min() {
    let testable = inter_with_axes(|axis| axis.default_value = Fixed::from_f64(50.0));
    let results = run_check(Check::ValidDefault, testable);
    assert!(assert_results_contain(&results, StatusCode::Fail, Some("invalid-default".to_string())));
    assert!(assert_messages_contain(&results, "The default value (50) for the 'wght' axis is outside the range [100, 900]."));
}

#[test]
fn test_default_above_max() {
    let testable = inter_with_axes(|axis| axis.default_value = Fixed::from_f64(1100.0));
    let results = run_check(Check::ValidDefault, testable);
    assert!(assert_results_contain(&results, StatusCode::Fail, Some("invalid-default".to_string())));
}

// opentype/fvar/valid_range

#[test]
fn valid_range_test_inter_passes() {
    let results = run_check(Check::ValidRange, inter());
    assert!(assert_pass(&results));
}

#[test]
fn valid_range_test_skip_static() {
    let results = run_check(Check::ValidRange, mada());
    assert!(assert_skip(&results));
}

#[test]
fn test_max_equals_min() {
    let testable = inter_with_axes(|axis| axis.max_value = axis.min_value);
    let results = run_check(Check::ValidRange, testable);
    assert!(assert_results_contain(&results, StatusCode::Fail, Some("invalid-range".to_string())));
}

#[test]
fn test_max_less_than_min() {
    let testable = inter_with_axes(|axis| {
        let temp = axis.min_value;
        axis.min_value = axis.max_value;
        axis.max_value = temp;
    });
    let results = run_check(Check::ValidRange, testable);
    assert!(assert_results_contain(&results, StatusCode::Fail, Some("invalid-range".to_string())));
}

// opentype/os2_version_fsselection

#[test]
fn test_pass_normal_font() {
    let results = run_check(Check::Os2VersionFsselection, mada());
    assert!(assert_pass(&results));
}

#[test]
fn test_warn_v4_flag_in_old_os2() {
    let mut testable = mada();
    testable.contents = patch_os2(&testable.contents, |b| {
        b[0] = 0x00;
        b[1] = 0x03;
        set_fs_selection_bits(b, 0x0080);
    });
    let results = run_check(Check::Os2VersionFsselection, testable);
    assert!(assert_results_contain(&results, StatusCode::Warn, Some("v4-flag-in-old-os2".to_string())));
    assert!(assert_messages_contain(&results, "OS/2 version is 3, but fsSelection USE_TYPO_METRICS (bit 7) is set."));
}

#[test]
fn os2_version_fix_then_check_passes() {
    let mut testable = mada();
    testable.contents = patch_os2(&testable.contents, |b| {
        b[0] = 0x00;
        b[1] = 0x03;
        set_fs_selection_bits(b, 0x0380);
    });
    assert_eq!(fix_os2_version_fsselection(&mut testable).unwrap(), true);
    let os2 = FontRef::new(&testable.contents).unwrap().os2().unwrap();
    // write-fonts writes a table with the fields of version 3 as version 4.
    assert_eq!(os2.version(), 4);
    assert_eq!(os2.fs_selection().bits() & 0x0380, 0);
    let results = run_check(Check::Os2VersionFsselection, testable);
    assert!(assert_pass(&results));
}

// the error a check gives for a file that is not a font

#[test]
fn not_a_font_is_an_error() {
    let results = run_check(Check::ValidDefault, test_able("broken.ttf", b"not a font".to_vec()));
    assert!(assert_results_contain(&results, StatusCode::Error, None));
    assert!(assert_messages_contain(&results, "The file could not be read as a font"));
}

#[test]
fn check_does_not_apply_to_other_files() {
    let results = run_check(Check::ValidDefault, test_able("README.md", b"hello".to_vec()));
    assert!(results.is_none());
}

#[test]
fn caret_readings_of_upright_font() {
    let r = caret_readings(&mada()).unwrap();
    assert_eq!(r, CaretReadings { rise: 1, run: 0, upem: 1000, italic_angle: 0 });
}

#[test]
fn caret_readings_of_non_font() {
    let t = test_able("README.md", b"hello".to_vec());
    assert!(caret_readings(&t).is_err());
}

#[test]
fn caret_slope_zero_rise_fails() {
    let c = CaretReadings { rise: 0, run: 0, upem: 1000, italic_angle: 0 };
    let r = caret_slope_verdict(&c, 0, false);
    assert_eq!(r.len(), 1);
    assert_eq!(r[0].severity, StatusCode::Fail);
    assert_eq!(r[0].code.as_deref(), Some("zero-rise"));
}

#[test]
fn caret_slope_mismatch_warns_with_expected_values() {
    let c = CaretReadings { rise: 1, run: 0, upem: 1000, italic_angle: -12 * 65536 };
    let r = caret_slope_verdict(&c, 213, true);
    assert_eq!(r.len(), 1);
    assert_eq!(r[0].severity, StatusCode::Warn);
    assert_eq!(r[0].code.as_deref(), Some("mismatch"));
    assert_eq!(
        r[0].message.as_deref(),
        Some("hhea.caretSlopeRise and hhea.caretSlopeRun do not match with post.italicAngle.\n                Got caretSlopeRise: 1, caretSlopeRun: 0, expected caretSlopeRise: 1000, caretSlopeRun: 213")
    );
}

#[test]
fn caret_slope_matching_passes() {
    let c = CaretReadings { rise: 1, run: 0, upem: 1000, italic_angle: 0 };
    let r = caret_slope_verdict(&c, 0, false);
    assert_eq!(r.len(), 1);
    assert_eq!(r[0].severity, StatusCode::Pass);
}
