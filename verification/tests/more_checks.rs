//! Further checks of font binaries: typo metrics, vendor ID, advance widths, fvar and name
//! table details.
use fontations::types::{Fixed, NameId, Tag};
use fontations::write::tables::fvar::{AxisInstanceArrays, Fvar, VariationAxisRecord};
use fontations::write::tables::head::Head;
use fontations::write::tables::hhea::Hhea;
use fontations::write::tables::hmtx::{Hmtx, LongMetric};
use fontations::write::tables::maxp::Maxp;
use fontations::write::tables::name::{Name, NameRecord};
use fontations::write::tables::os2::{Os2, SelectionFlags};
use fontations::write::FontBuilder;
use fontspector::check::{Check, TestableType};
use fontspector::codetesting::{
    assert_messages_contain, assert_pass, assert_results_contain, assert_skip, run_check,
    run_check_with_config,
};
use fontspector::config::ConfigValue;
use fontspector::gf_fonts::fix_use_typo_metrics;
use fontspector::hotfix::apply_hotfixes;
use fontspector::status::StatusCode;
use fontspector::testable::Testable;

/// A font with head, maxp, OS/2, hhea and name tables, and optionally hmtx and fvar tables.
fn font(os2: Os2, hhea: Hhea, names: &[(u16, &str)], advances: &[u16], wght: Option<(f64, f64, f64)>) -> Vec<u8> {
    let mut b = FontBuilder::new();
    b.add_table(&Head { units_per_em: 1000, ..Default::default() }).unwrap();
    b.add_table(&Maxp::new(advances.len().max(1) as u16)).unwrap();
    b.add_table(&os2).unwrap();
    b.add_table(&Hhea { number_of_h_metrics: advances.len() as u16, ..hhea }).unwrap();
    let mut records: Vec<NameRecord> = names
        .iter()
        .map(|(id, s)| NameRecord::new(3, 1, 1033, NameId::new(*id), s.to_string().into()))
        .collect();
    records.sort();
    b.add_table(&Name::new(records)).unwrap();
    if !advances.is_empty() {
        let metrics = advances.iter().map(|a| LongMetric::new(*a, 0)).collect();
        b.add_table(&Hmtx::new(metrics, vec![])).unwrap();
    }
    if let Some((min, default, max)) = wght {
        let axis = VariationAxisRecord::new(
            Tag::new(b"wght"),
            Fixed::from_f64(min),
            Fixed::from_f64(default),
            Fixed::from_f64(max),
            0,
            NameId::new(256),
        );
        b.add_table(&Fvar::new(AxisInstanceArrays::new(vec![axis], vec![]))).unwrap();
    }
    b.build()
}

fn plain_font(os2: Os2) -> Vec<u8> {
    font(os2, Hhea::default(), &[(1, "Plain"), (2, "Regular")], &[], None)
}

// googlefonts/use_typo_metrics

#[test]
fn typo_metrics_bit_missing_fails_and_the_hotfix_sets_it() {
    let mut t = Testable::new_with_contents("Plain-Regular.ttf", plain_font(Os2::default()));
    let results = run_check(Check::UseTypoMetrics, Testable::new_with_contents("Plain-Regular.ttf", t.contents.clone()));
    assert!(assert_results_contain(&results, StatusCode::Fail, Some("missing-os2-fsselection-bit7".to_string())));
    assert_eq!(fix_use_typo_metrics(&mut t).unwrap(), true);
    assert!(assert_pass(&run_check(Check::UseTypoMetrics, t)));
}

#[test]
fn hotfixes_by_identifier_fix_the_font() {
    let mut t = Testable::new_with_contents("Plain-Regular.ttf", plain_font(Os2::default()));
    let ids = vec!["googlefonts/use_typo_metrics".to_string()];
    assert_eq!(apply_hotfixes(&mut t, &ids).unwrap(), true);
    assert!(assert_pass(&run_check(Check::UseTypoMetrics, t)));
}

// opentype/vendor_id

#[test]
fn vendor_id_is_compared_with_the_configuration() {
    let os2 = Os2 { ach_vend_id: Tag::new(b"ABCD"), ..Default::default() };
    let t = Testable::new_with_contents("Plain-Regular.ttf", plain_font(os2));
    let results = run_check(Check::VendorId, Testable::new_with_contents("Plain-Regular.ttf", t.contents.clone()));
    assert!(assert_skip(&results));
    let config = |v: &str| {
        vec![(
            "opentype/vendor_id".to_string(),
            ConfigValue::Object(vec![("vendor_id".to_string(), ConfigValue::Str(v.to_string()))]),
        )]
    };
    let results = run_check_with_config(Check::VendorId, TestableType::Single(&t), config("ABCD"));
    assert!(assert_pass(&results));
    let results = run_check_with_config(Check::VendorId, TestableType::Single(&t), config("WXYZ"));
    assert!(assert_results_contain(&results, StatusCode::Fail, Some("bad-vendor-id".to_string())));
    assert!(assert_messages_contain(&results, "OS/2 achVendID value 'ABCD' does not match configuration value 'WXYZ'"));
}

// opentype/maxadvancewidth

#[test]
fn max_advance_width_must_match_hmtx() {
    let good = font(Os2::default(), Hhea { advance_width_max: 600.into(), ..Default::default() }, &[(1, "A")], &[500, 600], None);
    assert!(assert_pass(&run_check(Check::Maxadvancewidth, Testable::new_with_contents("A.ttf", good))));
    let bad = font(Os2::default(), Hhea { advance_width_max: 700.into(), ..Default::default() }, &[(1, "A")], &[500, 600], None);
    let results = run_check(Check::Maxadvancewidth, Testable::new_with_contents("A.ttf", bad));
    assert!(assert_results_contain(&results, StatusCode::Fail, Some("mismatch".to_string())));
    assert!(assert_messages_contain(&results, "AdvanceWidthMax mismatch: expected 600 from hmtx; got 700 for hhea"));
}

// opentype/weight_class_fvar

#[test]
fn weight_class_must_match_the_fvar_default() {
    let names: &[(u16, &str)] = &[(1, "V"), (2, "Regular")];
    let good = font(Os2 { us_weight_class: 400, ..Default::default() }, Hhea::default(), names, &[], Some((100.0, 400.0, 900.0)));
    assert!(assert_pass(&run_check(Check::WeightClassFvar, Testable::new_with_contents("V[wght].ttf", good))));
    let bad = font(Os2 { us_weight_class: 700, ..Default::default() }, Hhea::default(), names, &[], Some((100.0, 400.0, 900.0)));
    let results = run_check(Check::WeightClassFvar, Testable::new_with_contents("V[wght].ttf", bad));
    assert!(assert_results_contain(&results, StatusCode::Fail, Some("bad-weight-class".to_string())));
    assert!(assert_messages_contain(&results, "OS/2 usWeightClass is 700, but fvar default is 400"));
    let static_font = plain_font(Os2::default());
    assert!(assert_skip(&run_check(Check::WeightClassFvar, Testable::new_with_contents("S.ttf", static_font))));
}

// opentype/fsselection_wws

#[test]
fn wws_bit_without_wws_names_warns() {
    let t = Testable::new_with_contents("P.ttf", plain_font(Os2 { fs_selection: SelectionFlags::REGULAR, ..Default::default() }));
    let results = run_check(Check::FsselectionWws, t);
    assert!(assert_results_contain(&results, StatusCode::Warn, Some("no-wws-without-wws-names".to_string())));
    let wws = plain_font(Os2 { fs_selection: SelectionFlags::REGULAR | SelectionFlags::WWS, ..Default::default() });
    assert!(assert_pass(&run_check(Check::FsselectionWws, Testable::new_with_contents("P.ttf", wws))));
}

// googlefonts/name/version_format

#[test]
fn version_strings_must_follow_the_format() {
    let good = font(Os2::default(), Hhea::default(), &[(1, "A"), (5, "Version 1.002")], &[], None);
    assert!(assert_pass(&run_check(Check::VersionFormat, Testable::new_with_contents("A.ttf", good))));
    let bad = font(Os2::default(), Hhea::default(), &[(1, "A"), (5, "v1.2")], &[], None);
    let results = run_check(Check::VersionFormat, Testable::new_with_contents("A.ttf", bad));
    assert!(assert_results_contain(&results, StatusCode::Fail, Some("bad-version-strings".to_string())));
}

// googlefonts/fvar_instance_ps_names

#[test]
fn fonts_without_instances_skip_the_instance_names_check() {
    let names: &[(u16, &str)] = &[(1, "V"), (2, "Regular")];
    let v = font(Os2::default(), Hhea::default(), names, &[], Some((100.0, 400.0, 900.0)));
    assert!(assert_skip(&run_check(Check::FvarInstancePsNames, Testable::new_with_contents("V[wght].ttf", v))));
}
