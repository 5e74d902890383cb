//! Text helpers, results and reports, registries, hotfixes and font-table surgery.
use fontations::read::{FontRef, TableProvider};
use fontations::types::Tag;
use fontations::write::tables::head::Head;
use fontations::write::tables::maxp::Maxp;
use fontations::write::tables::os2::Os2;
use fontations::write::tables::post::Post;
use fontations::write::FontBuilder;
use fontspector::check::Check;
use fontspector::codetesting::{assert_pass, assert_results_contain, run_check, test_file};
use fontspector::config::{ConfigValue, Context};
use fontspector::fix::MoreInfoReplies;
use fontspector::font::tag_text;
use fontspector::googlefonts::{contains_vf, contains_word_free, seems_like_gf_repo, strip_html_tags};
use fontspector::testable::TestableCollection;
use fontspector::hotfix::apply_hotfixes;
use fontspector::profile::{check_selected, get_registry, run_configuration, GoogleFonts, Monotype, Registry};
use fontspector::reporters::RunResults;
use fontspector::result::CheckResult;
use fontspector::sfnt::{add_table, remove_table};
use fontspector::status::{Status, StatusCode};
use fontspector::testable::Testable;
use fontspector::utils::{bullet_list, close_but_not_on};

// googlefonts/description/no_free_word

#[test]
fn test_no_false_positive_on_freedom() {
    assert!(!contains_word_free("This font offers typographic freedom"));
    assert!(!contains_word_free("A freestyle display font"));
    assert!(!contains_word_free("Carefree design"));
}

#[test]
fn test_detects_free() {
    assert!(contains_word_free("This is a free font"));
    assert!(contains_word_free("Free to use"));
    assert!(contains_word_free("available for free"));
    assert!(contains_word_free("It is FREE"));
}

#[test]
fn test_strip_html() {
    assert_eq!(strip_html_tags("<p>Hello <b>world</b></p>"), "Hello world");
    assert_eq!(strip_html_tags("<a href=\"free\">text</a>"), "text");
}

#[test]
fn stripping_twice_changes_nothing() {
    let once = strip_html_tags("a <b>bold</b> move > <i>here");
    assert_eq!(strip_html_tags(&once), once);
}

#[test]
fn free_word_in_description_warns() {
    let warn = run_check(Check::NoFreeWord, Testable::new_with_contents("article/x.en_us.html", b"<p>A <b>free</b> font</p>".to_vec()));
    assert!(assert_results_contain(&warn, StatusCode::Warn, Some("free-in-description".to_string())));
    let pass = run_check(Check::NoFreeWord, Testable::new_with_contents("article/x.en_us.html", b"<a href=\"free\">text</a>".to_vec()));
    assert!(assert_pass(&pass));
}

// googlefonts/name/no_vf_in_name

#[test]
fn test_contains_vf_standalone() {
    assert!(contains_vf("My Font VF"));
    assert!(contains_vf("VF Font"));
    assert!(contains_vf("VF"));
}

#[test]
fn test_no_false_positives() {
    assert!(!contains_vf("Avfont"));
    assert!(!contains_vf("MyFontVFoo"));
}

// hotfixes

#[test]
fn test_apply_hotfixes_empty() {
    let registry = Registry::new();
    assert!(registry.checks.is_empty());
}

#[test]
fn no_hotfixes_leave_the_font_alone() {
    let mut t = Testable::new_with_contents("a.ttf", vec![1, 2, 3]);
    assert_eq!(apply_hotfixes(&mut t, &vec![]).unwrap(), false);
    assert_eq!(t.contents, vec![1, 2, 3]);
}

#[test]
fn hotfixes_of_unknown_or_fixless_checks_are_passed_over() {
    let mut t = Testable::new_with_contents("a.ttf", vec![1, 2, 3]);
    let ids = vec!["no/such/check".to_string(), "monotype/fstype".to_string()];
    assert_eq!(apply_hotfixes(&mut t, &ids).unwrap(), false);
    assert_eq!(t.contents, vec![1, 2, 3]);
}

// registry and profiles

#[test]
fn registry_holds_every_check_and_the_google_fonts_profile() {
    let r = get_registry();
    assert!(r.profile_registered("googlefonts"));
    assert!(r.checks.contains(&Check::UniqueNames));
    assert!(r.checks.contains(&Check::GlyphCoverage));
    let mut r2 = Registry::new();
    r2.register_check(Check::Fstype);
    r2.register_check(Check::Fstype);
    assert_eq!(r2.checks.len(), 1);
}

#[test]
fn checks_are_selected_by_parts_of_their_identifiers() {
    let none: Vec<String> = vec![];
    let fstype = vec!["fstype".to_string()];
    let monotype = vec!["monotype/".to_string()];
    assert!(check_selected("monotype/fstype", &none, &none));
    assert!(check_selected("monotype/fstype", &fstype, &none));
    assert!(!check_selected("opentype/vendor_id", &fstype, &none));
    assert!(!check_selected("monotype/fstype", &none, &monotype));
    assert!(!check_selected("monotype/fstype", &fstype, &monotype));
}

#[test]
fn check_identifiers_and_titles() {
    assert_eq!(Check::Fstype.id(), "monotype/fstype");
    assert_eq!(Check::UniqueNames.id(), "opentype/family/unique_names");
    assert_eq!(Check::NoObliqueBit.title(), "Ensure the OS/2 OBLIQUE fsSelection bit is not set.");
    assert!(Check::NoObliqueBit.has_hotfix());
    assert!(!Check::Fstype.has_hotfix());
    assert!(Check::UniqueNames.file_type().is_none());
}

// results and reports

fn result(id: &str, file: Option<&str>, section: Option<&str>, codes: &[StatusCode]) -> CheckResult {
    CheckResult {
        check_id: id.to_string(),
        check_name: id.to_string(),
        filename: file.map(|s| s.to_string()),
        section: section.map(|s| s.to_string()),
        subresults: codes
            .iter()
            .map(|c| Status { message: None, severity: *c, code: None, metadata: None })
            .collect(),
        hotfix_result: None,
        sourcefix_result: None,
    }
}

#[test]
fn worst_status_is_the_most_severe() {
    let r = result("x", None, None, &[StatusCode::Info, StatusCode::Fail, StatusCode::Warn]);
    assert_eq!(r.worst_status(), StatusCode::Fail);
    let run = RunResults::from(vec![r, result("y", None, None, &[StatusCode::Error])]);
    assert_eq!(run.worst_status(), StatusCode::Error);
    assert_eq!(RunResults::from(vec![]).worst_status(), StatusCode::Pass);
}

#[test]
fn summary_counts_every_finding() {
    let run = RunResults::from(vec![
        result("a", Some("A.ttf"), Some("S"), &[StatusCode::Pass, StatusCode::Warn]),
        result("b", Some("A.ttf"), Some("S"), &[StatusCode::Warn, StatusCode::Fail]),
    ]);
    assert_eq!(
        run.summary(),
        vec![(StatusCode::Pass, 1), (StatusCode::Warn, 2), (StatusCode::Fail, 1)]
    );
}

#[test]
fn organize_groups_by_file_then_section() {
    let run = RunResults::from(vec![
        result("a", Some("A.ttf"), Some("S1"), &[StatusCode::Pass]),
        result("b", None, None, &[StatusCode::Pass]),
        result("c", Some("A.ttf"), Some("S2"), &[StatusCode::Pass]),
        result("d", Some("A.ttf"), Some("S1"), &[StatusCode::Pass]),
    ]);
    let o = run.organize();
    assert_eq!(o.len(), 2);
    assert_eq!(o[0].0, "A.ttf");
    assert_eq!(o[0].1.len(), 2);
    assert_eq!(o[0].1[0].0, "S1");
    assert_eq!(o[0].1[0].1.len(), 2);
    assert_eq!(o[1].0, "All fonts");
    assert_eq!(o[1].1[0].0, "No section");
}

#[test]
fn bullet_lists_are_cut_after_nine_items() {
    let items: Vec<String> = (1..=11).map(|i| format!("item{i}")).collect();
    let short = bullet_list(&Context::new(), &items);
    assert!(short.starts_with("* item1\n* item2"));
    assert!(short.ends_with("* item9\n... and 2 others"));
    let mut full = Context::new();
    full.full_lists = true;
    assert!(bullet_list(&full, &items).ends_with("* item10\n* item11"));
}

#[test]
fn more_info_replies_keep_the_last_answer() {
    let mut r = MoreInfoReplies::new();
    r.insert("a".to_string(), ConfigValue::Bool(true));
    r.insert("b".to_string(), ConfigValue::UInt(3));
    r.insert("a".to_string(), ConfigValue::Bool(false));
    assert_eq!(r.0.len(), 2);
    assert!(matches!(r.0[0], (ref k, ConfigValue::Bool(false)) if k == "a"));
}

// font-table surgery

fn small_font() -> Vec<u8> {
    let mut b = FontBuilder::new();
    b.add_table(&Head { units_per_em: 1000, ..Default::default() }).unwrap();
    b.add_table(&Maxp::new(1)).unwrap();
    b.add_table(&Os2 { us_weight_class: 700, ..Default::default() }).unwrap();
    b.add_table(&Post::default()).unwrap();
    b.build()
}

#[test]
fn removing_a_table_keeps_the_others() {
    let mut t = Testable::new_with_contents("a.ttf", small_font());
    remove_table(&mut t, b"post");
    let f = FontRef::new(&t.contents).unwrap();
    assert!(f.table_data(Tag::new(b"post")).is_none());
    assert!(f.table_data(Tag::new(b"head")).is_some());
    assert_eq!(f.os2().unwrap().us_weight_class(), 700);
    assert_eq!(f.head().unwrap().units_per_em(), 1000);
}

#[test]
fn adding_a_table_gives_an_empty_one() {
    let mut t = Testable::new_with_contents("a.ttf", small_font());
    add_table(&mut t, b"DSIG");
    let f = FontRef::new(&t.contents).unwrap();
    assert!(f.table_data(Tag::new(b"DSIG")).is_some());
    assert_eq!(f.os2().unwrap().us_weight_class(), 700);
    assert_eq!(f.head().unwrap().units_per_em(), 1000);
}

// tags

#[test]
fn tags_are_written_as_their_four_characters() {
    assert_eq!(tag_text(u32::from_be_bytes(*b"wght")), "wght");
    assert_eq!(tag_text(u32::from_be_bytes(*b"OS/2")), "OS/2");
}

#[test]
fn google_fonts_repository_layout_is_recognised() {
    let in_repo = TestableCollection {
        testables: vec![Testable::new_with_contents("fonts/ofl/familysans/FamilySans-Regular.ttf", vec![])],
        directory: "fonts/ofl/familysans".to_string(),
    };
    assert!(seems_like_gf_repo(&in_repo));
    let elsewhere = TestableCollection {
        testables: vec![Testable::new_with_contents("build/FamilySans-Regular.ttf", vec![])],
        directory: "build".to_string(),
    };
    assert!(!seems_like_gf_repo(&elsewhere));
    let empty = TestableCollection { testables: vec![], directory: "".to_string() };
    assert!(!seems_like_gf_repo(&empty));
}

#[test]
fn close_but_not_on_within_tolerance() {
    assert!(close_but_not_on(100, 102, 2));
    assert!(close_but_not_on(100, 98, 2));
    assert!(!close_but_not_on(100, 100, 2));
    assert!(!close_but_not_on(100, 103, 2));
    assert!(!close_but_not_on(i64::MIN, i64::MAX, 5));
}

#[test]
fn test_files_are_joined_onto_the_resources_directory() {
    assert_eq!(test_file("/w", "mada/Mada-Regular.ttf"), "/w/resources/test/mada/Mada-Regular.ttf");
    assert_eq!(test_file("/w/", "a.ttf"), "/w/resources/test/a.ttf");
    assert_eq!(test_file("/w", "/abs/a.ttf"), "/abs/a.ttf");
}

#[test]
fn google_fonts_registers_file_types_and_default_values() {
    let mut r = Registry::new();
    GoogleFonts.register(&mut r).unwrap();
    let names: Vec<(&str, &str)> = r.filetypes.iter().map(|(n, p)| (n.as_str(), p.as_str())).collect();
    assert_eq!(
        names,
        vec![
            ("MDPB", "METADATA.pb"),
            ("DESC", "*.en_us.html"),
            ("IMAGE", "*.{png,jpg,jpeg,jxl,gif,svg}"),
            ("LICENSE", "{LICENSE,OFL}.txt"),
        ]
    );
    let p = &r.profiles[0];
    assert_eq!(p.defaults[0].0, "file_size");
    assert_eq!(p.defaults[0].1[0].0, "WARN_SIZE");
    assert!(matches!(p.defaults[0].1[0].1, ConfigValue::UInt(1048576)));
    assert!(matches!(p.defaults[0].1[2].1, ConfigValue::UInt(10485760)));
    // registering again fails and leaves the file types as they were
    assert!(GoogleFonts.register(&mut r).is_err());
    assert_eq!(r.filetypes.len(), 4);
}

#[test]
fn monotype_profile_defaults_and_overrides() {
    let mut r = Registry::new();
    Monotype.register(&mut r).unwrap();
    let p = &r.profiles[0];
    assert_eq!(p.defaults[1].0, "universal/required_name_ids");
    match &p.defaults[1].1[0].1 {
        ConfigValue::Array(v) => assert_eq!(v.len(), 18),
        _ => panic!("not a list"),
    }
    assert_eq!(p.overrides[0].0, "valid_glyphnames");
    assert_eq!(p.overrides[0].1[0].code, "found-invalid-names");
    assert_eq!(p.overrides[0].1[0].status, StatusCode::Warn);
}

#[test]
fn removing_an_added_table_matches_removing_it_from_the_original() {
    let mut g = Testable::new_with_contents("a.ttf", small_font());
    add_table(&mut g, b"DSIG");
    remove_table(&mut g, b"DSIG");
    let mut h = Testable::new_with_contents("a.ttf", small_font());
    remove_table(&mut h, b"DSIG");
    assert_eq!(g.contents, h.contents);
}

#[test]
fn run_configuration_puts_user_entries_before_profile_defaults() {
    let r = get_registry();
    let user = vec![("file_size".to_string(), ConfigValue::Object(vec![("WARN_SIZE".to_string(), ConfigValue::UInt(5))]))];
    let c = run_configuration(user, &r.profiles[0]);
    assert_eq!(c.len(), 3);
    assert_eq!(c[0].0, "file_size");
    assert!(matches!(&c[0].1, ConfigValue::Object(e) if matches!(e[0].1, ConfigValue::UInt(5))));
    assert_eq!(c[1].0, "file_size");
    assert_eq!(c[2].0, "googlefonts/family/file_size");
    assert!(matches!(&c[2].1, ConfigValue::Object(e) if e[0].0 == "FATAL_SIZE" && matches!(e[0].1, ConfigValue::UInt(26214400))));
}

#[test]
fn inputs_are_grouped_by_directory_with_articles_folded() {
    let paths: Vec<String> = vec![
        "ofl/mada/Mada-Regular.ttf",
        "ofl/mada/article/ARTICLE.en_us.html",
        "ofl/inter/Inter.ttf",
        "ofl/mada/METADATA.pb",
        "lonely.ttf",
    ]
    .into_iter()
    .map(String::from)
    .collect();
    let g = fontspector::testable::group_paths(&paths);
    assert_eq!(g.len(), 3);
    assert_eq!(g[0].0, "ofl/mada");
    assert_eq!(g[0].1, vec![0, 1, 3]);
    assert_eq!(g[1].0, "ofl/inter");
    assert_eq!(g[1].1, vec![2]);
    assert_eq!(g[2].0, "");
    assert_eq!(g[2].1, vec![4]);
}
