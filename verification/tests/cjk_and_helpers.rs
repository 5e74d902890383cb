//! CJK metric regressions, the font-editing helpers for tests, and custom parameters.
use fontations::read::{FontRef, TableProvider};
use fontations::skrifa::MetadataProvider;
use fontations::types::{GlyphId, NameId};
use fontations::write::tables::cmap::Cmap;
use fontations::write::tables::head::Head;
use fontations::write::tables::hhea::Hhea;
use fontations::write::tables::maxp::Maxp;
use fontations::write::tables::name::{Name, NameRecord};
use fontations::write::tables::os2::Os2;
use fontations::write::tables::post::Post;
use fontations::write::FontBuilder;
use fontspector::cjk::{cjk_ascent_check, cjk_fs_selection_check, cjk_line_gap_check, 
    cjk_metric_regressions, cjk_vertical_metrics_regressions, regressions_precheck, scale_to_upm, style,
    vertical_metrics, VerticalMetrics,
};
use fontspector::codetesting::{remap_glyph, set_name_entry};
use fontspector::config::Context;
use fontspector::font::{best_familyname, best_subfamilyname};
use fontspector::source::{find_or_add_cp, CustomParameter};
use fontspector::status::{CheckError, StatusCode};
use fontspector::testable::Testable;

/// A font mapping 200 CJK ideographs, with the given unitsPerEm and metrics.
fn cjk_font(path: &str, upm: u16, ascender: i16, descender: i16) -> Testable {
    let mut b = FontBuilder::new();
    b.add_table(&Head { units_per_em: upm, ..Default::default() }).unwrap();
    b.add_table(&Maxp::new(201)).unwrap();
    let os2 = Os2 {
        s_typo_ascender: ascender,
        s_typo_descender: descender,
        s_typo_line_gap: 0,
        us_win_ascent: ascender as u16,
        us_win_descent: (-descender) as u16,
        ..Default::default()
    };
    b.add_table(&os2).unwrap();
    let hhea = Hhea { ascender: ascender.into(), descender: descender.into(), line_gap: 0.into(), ..Default::default() };
    b.add_table(&hhea).unwrap();
    let mappings = (0..200u32).map(|i| (char::from_u32(0x4E00 + i).unwrap(), GlyphId::new(i + 1)));
    b.add_table(&Cmap::from_mappings(mappings).unwrap()).unwrap();
    let mut records = vec![
        NameRecord::new(3, 1, 1033, NameId::new(1), "Noto Sans JP".to_string().into()),
        NameRecord::new(3, 1, 1033, NameId::new(2), "Regular".to_string().into()),
    ];
    records.sort();
    b.add_table(&Name::new(records)).unwrap();
    Testable::new_with_contents(path, b.build())
}

fn metrics(upm: u16, a: i16, d: i16) -> VerticalMetrics {
    VerticalMetrics {
        upm,
        os2_typo_ascender: a,
        os2_typo_descender: d,
        os2_typo_linegap: 0,
        os2_win_ascent: a as u16,
        os2_win_descent: (-d) as u16,
        hhea_ascent: a,
        hhea_descent: d,
        hhea_linegap: 0,
    }
}

#[test]
fn styles_come_from_file_names() {
    assert_eq!(style("fonts/NotoSansJP-Regular.ttf"), Some("Regular".to_string()));
    assert_eq!(style("NotoSansJP-Bold.otf"), Some("Bold".to_string()));
    assert_eq!(style("Plain.ttf"), Some("Plain".to_string()));
}

#[test]
fn scaling_rounds_half_away_from_zero() {
    let m = metrics(1000, 880, -120);
    let s = scale_to_upm(&m, 2048);
    assert_eq!(s.upm, 2048);
    assert_eq!(s.os2_typo_ascender, 1802); // 1802.24
    assert_eq!(s.os2_typo_descender, -246); // -245.76
    let half = scale_to_upm(&metrics(4, 1, -1), 2); // 0.5 and -0.5
    assert_eq!(half.os2_typo_ascender, 1);
    assert_eq!(half.os2_typo_descender, -1);
    let big = scale_to_upm(&metrics(1, 30000, -30000), 2);
    assert_eq!(big.os2_typo_ascender, i16::MAX);
    assert_eq!(big.os2_typo_descender, i16::MIN);
}

#[test]
fn regressions_name_each_differing_metric() {
    let local = metrics(1000, 880, -120);
    let mut remote = metrics(1000, 880, -120);
    assert!(cjk_metric_regressions(&local, &remote).is_empty());
    remote.os2_typo_ascender = 900;
    remote.hhea_linegap = 10;
    let r = cjk_metric_regressions(&local, &remote);
    assert_eq!(r.len(), 2);
    assert_eq!(r[0].message, Some("OS/2 sTypoAscender is 880 when it should be 900".to_string()));
    assert_eq!(r[1].message, Some("hhea lineGap is 0 when it should be 10".to_string()));
    assert_eq!(r[1].code, Some("cjk-metric-regression".to_string()));
}

#[test]
fn regressions_check_compares_with_the_served_family() {
    let local = cjk_font("NotoSansJP-Regular.ttf", 1000, 880, -120);
    let remote = vec![
        cjk_font("NotoSansJP-Bold.ttf", 2000, 1800, -200),
        cjk_font("NotoSansJP-Regular.ttf", 2000, 1760, -300),
    ];
    let ctx = Context::new();
    assert!(regressions_precheck(&local, &ctx).is_ok());
    assert_eq!(best_familyname(&local.contents), Some("Noto Sans JP".to_string()));
    let r = cjk_vertical_metrics_regressions(&local, &ctx, &Ok(true), &Ok(remote)).unwrap();
    let messages: Vec<String> = r.iter().filter_map(|s| s.message.clone()).collect();
    assert_eq!(messages, vec![
        "OS/2 sTypoDescender is -120 when it should be -150".to_string(),
        "OS/2 usWinDescent is 120 when it should be 150".to_string(),
        "hhea descent is -120 when it should be -150".to_string(),
    ]);
    let same = vec![cjk_font("NotoSansJP-Regular.ttf", 1000, 880, -120)];
    let r = cjk_vertical_metrics_regressions(&local, &ctx, &Ok(true), &Ok(same)).unwrap();
    assert_eq!(r.len(), 1);
    assert_eq!(r[0].severity, StatusCode::Pass);
}

#[test]
fn regressions_check_skips_and_errors() {
    let ctx = Context::new();
    let bold = cjk_font("NotoSansJP-Bold.ttf", 1000, 880, -120);
    assert!(matches!(regressions_precheck(&bold, &ctx), Err(CheckError::Skip { code, .. }) if code == "not-regular"));
    let regular = cjk_font("NotoSansJP-Regular.ttf", 1000, 880, -120);
    let mut offline = Context::new();
    offline.skip_network = true;
    assert!(matches!(regressions_precheck(&regular, &offline), Err(CheckError::Skip { code, .. }) if code == "network-disabled"));
    let r = cjk_vertical_metrics_regressions(&regular, &ctx, &Ok(false), &Ok(vec![]));
    assert!(matches!(r, Err(CheckError::Skip { code, .. }) if code == "not-listed-on-google-fonts"));
    let r = cjk_vertical_metrics_regressions(&regular, &ctx, &Ok(true), &Err("timed out".to_string()));
    assert!(matches!(r, Err(CheckError::General(m)) if m == "Could not get remote style: timed out"));
    let r = cjk_vertical_metrics_regressions(&regular, &ctx, &Ok(true), &Ok(vec![bold]));
    assert!(matches!(r, Err(CheckError::General(m)) if m == "Could not find remote Regular style"));
    let latin = Testable::new_with_contents("Latin-Regular.ttf", {
        let mut b = FontBuilder::new();
        b.add_table(&Head::default()).unwrap();
        b.build()
    });
    assert!(matches!(regressions_precheck(&latin, &ctx), Err(CheckError::Skip { code, .. }) if code == "not-cjk-font"));
}

#[test]
fn vertical_metrics_are_read_from_the_tables() {
    let f = cjk_font("A-Regular.ttf", 1000, 880, -120);
    assert_eq!(vertical_metrics(&f.contents).unwrap(), metrics(1000, 880, -120));
    assert!(matches!(vertical_metrics(b"nope"), Err(CheckError::General(m)) if m == "the head table could not be read"));
}

// editing fonts for tests

#[test]
fn set_name_entry_replaces_the_records_of_a_name_id() {
    let mut t = cjk_font("A-Regular.ttf", 1000, 880, -120);
    set_name_entry(&mut t, 3, 1, 1033, 2, "Bold".to_string()).unwrap();
    assert_eq!(best_subfamilyname(&t.contents), Some("Bold".to_string()));
    let f = FontRef::new(&t.contents).unwrap();
    assert_eq!(f.name().unwrap().name_record().len(), 2);
    // The new record goes last; write-fonts refuses a name table whose records are out of order.
    let before = t.contents.clone();
    assert!(matches!(
        set_name_entry(&mut t, 3, 1, 1033, 1, "Other Family".to_string()),
        Err(CheckError::General(m)) if m == "the font could not be rebuilt"
    ));
    assert_eq!(t.contents, before);
    let mut not_a_font = Testable::new_with_contents("x.ttf", vec![1, 2, 3]);
    assert!(set_name_entry(&mut not_a_font, 3, 1, 1033, 1, "X".to_string()).is_err());
    assert_eq!(not_a_font.contents, vec![1, 2, 3]);
}

#[test]
fn remap_glyph_maps_a_code_point_to_a_named_glyph() {
    let mut b = FontBuilder::new();
    b.add_table(&Head { units_per_em: 1000, ..Default::default() }).unwrap();
    b.add_table(&Maxp::new(3)).unwrap();
    b.add_table(&Cmap::from_mappings(vec![('A', GlyphId::new(1)), ('B', GlyphId::new(2))]).unwrap()).unwrap();
    b.add_table(&Post::new_v2([".notdef", "A", "B"])).unwrap();
    let mut t = Testable::new_with_contents("x.ttf", b.build());
    remap_glyph(&mut t, 'A' as u32, "B").unwrap();
    let f = FontRef::new(&t.contents).unwrap();
    assert_eq!(f.charmap().map('A'), Some(GlyphId::new(2)));
    assert_eq!(f.charmap().map('B'), Some(GlyphId::new(2)));
    let before = t.contents.clone();
    let r = remap_glyph(&mut t, 'C' as u32, "nosuchglyph");
    assert!(matches!(r, Err(CheckError::General(m)) if m == "No glyph named 'nosuchglyph' in font"));
    assert_eq!(t.contents, before);
}

// custom parameters of sources

#[test]
fn custom_parameters_are_set_or_added() {
    let mut cps = vec![CustomParameter { name: "Axes".to_string(), value: 1, disabled: true }];
    assert_eq!(find_or_add_cp(&mut cps, "Axes", 1).unwrap(), false);
    assert_eq!(find_or_add_cp(&mut cps, "Axes", 2).unwrap(), true);
    assert_eq!(cps[0].value, 2);
    assert!(cps[0].disabled);
    assert_eq!(find_or_add_cp(&mut cps, "Masters", 7).unwrap(), true);
    assert_eq!(cps.len(), 2);
    assert_eq!(cps[1].name, "Masters");
    assert!(!cps[1].disabled);
}

#[test]
fn cjk_integer_metric_checks() {
    assert_eq!(cjk_fs_selection_check(0x80).len(), 0);
    let r = cjk_fs_selection_check(0x40);
    assert_eq!(r[0].code.as_deref(), Some("bad-fselection-bit7"));
    let m = VerticalMetrics {
        upm: 1000,
        os2_typo_ascender: 880,
        os2_typo_descender: -120,
        os2_typo_linegap: 10,
        os2_win_ascent: 1000,
        os2_win_descent: 200,
        hhea_ascent: 880,
        hhea_descent: 120,
        hhea_linegap: 0,
    };
    let g = cjk_line_gap_check(&m);
    assert_eq!(g.len(), 1);
    assert_eq!(g[0].message.as_deref(), Some("OS/2.sTypoLineGap is 10; it should be 0"));
    assert_eq!(cjk_ascent_check(&m).len(), 0);
    let m2 = VerticalMetrics { hhea_ascent: 900, hhea_descent: -130, ..m };
    let a = cjk_ascent_check(&m2);
    assert_eq!(a.len(), 2);
    assert_eq!(a[0].code.as_deref(), Some("ascent-mismatch"));
    assert_eq!(a[1].code.as_deref(), Some("descent-mismatch"));
}

#[test]
fn whitespace_matches_std() {
    for n in 0u32..0x3100 {
        if let Some(c) = char::from_u32(n) {
            assert_eq!(fontspector::text::is_whitespace(c), c.is_whitespace(), "U+{n:04X}");
        }
    }
}

#[test]
fn default_baselines_by_script() {
    let tag = |t: &[u8; 4]| u32::from_be_bytes(*t);
    assert_eq!(fontspector::cjk::expected_default_baseline(tag(b"hani")), tag(b"ideo"));
    assert_eq!(fontspector::cjk::expected_default_baseline(tag(b"DFLT")), tag(b"ideo"));
    assert_eq!(fontspector::cjk::expected_default_baseline(tag(b"latn")), tag(b"romn"));
}

#[test]
fn cjk_missing_base_and_vertical_tables() {
    let s = fontspector::cjk::missing_base_status(true);
    assert_eq!(s.message.as_deref(), Some("A BASE table with correct icfb/icft/ideo/romn baselines should be present"));
    let s = fontspector::cjk::missing_base_status(false);
    assert_eq!(s.message.as_deref(), Some("A BASE table with correct icfb/icft/ideo/romn and idtp baselines should be present"));
    let t = fontspector::testable::Testable::new_with_contents("a.ttf", vec![0, 1, 0, 0]);
    let r = fontspector::cjk::cjk_vertical_table_check(&t);
    assert_eq!(r.len(), 2);
    assert_eq!(r[0].code.as_deref(), Some("missing-vmtx-table"));
}

#[test]
fn cjk_precheck_refuses_non_fonts_and_reports_network_errors() {
    let ctx = fontspector::config::Context::new();
    let t = fontspector::testable::Testable::new_with_contents("a.ttf", vec![1, 2, 3]);
    let listed: Result<bool, String> = Err("offline".to_string());
    assert!(fontspector::cjk::cjk_metrics_precheck(&t, &ctx, &listed).is_err());
}
