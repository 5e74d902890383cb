//! Checks of families, METADATA.pb files and glyph sets.
use fontations::types::{Fixed, GlyphId, NameId, Tag};
use fontations::write::tables::cmap::Cmap;
use fontations::write::tables::fvar::{AxisInstanceArrays, Fvar, VariationAxisRecord};
use fontations::write::tables::head::Head;
use fontations::write::tables::maxp::Maxp;
use fontations::write::tables::name::{Name, NameRecord};
use fontations::write::tables::os2::Os2;
use fontations::write::tables::post::Post;
use fontations::write::FontBuilder;
use fontspector::check::{Check, TestableType};
use fontspector::codetesting::{
    assert_messages_contain, assert_pass, assert_results_contain, assert_skip, run_check,
    run_check_with_config, test_able,
};
use fontspector::config::Context;
use fontspector::fontwerk::glyph_coverage;
use fontspector::gf_metadata::subsets_correct_with;
use fontspector::status::StatusCode;
use fontspector::testable::{Testable, TestableCollection};
use fontspector::unique_names::unique_names;

/// A font with the given names, and an fvar table with a weight axis when `variable`.
fn named_font(path: &str, names: &[(u16, &str)], variable: bool) -> Testable {
    let mut b = FontBuilder::new();
    b.add_table(&Head { units_per_em: 1000, ..Default::default() }).unwrap();
    b.add_table(&Maxp::new(1)).unwrap();
    b.add_table(&Os2::default()).unwrap();
    let mut records: Vec<NameRecord> = names
        .iter()
        .map(|(id, s)| NameRecord::new(3, 1, 1033, NameId::new(*id), s.to_string().into()))
        .collect();
    records.sort();
    b.add_table(&Name::new(records)).unwrap();
    if variable {
        let axis = VariationAxisRecord::new(
            Tag::new(b"wght"),
            Fixed::from_f64(200.0),
            Fixed::from_f64(400.0),
            Fixed::from_f64(800.0),
            0,
            NameId::new(256),
        );
        b.add_table(&Fvar::new(AxisInstanceArrays::new(vec![axis], vec![]))).unwrap();
    }
    test_able(path, b.build())
}

fn static_font(path: &str, family: &str, style: &str, ps: &str) -> Testable {
    let full = format!("{family} {style}");
    let unique = format!("2.020;ADBO;{ps}");
    named_font(path, &[(1, family), (2, style), (3, &unique), (4, &full), (6, ps)], false)
}

fn collection(testables: Vec<Testable>) -> TestableCollection {
    TestableCollection { testables, directory: "".to_string() }
}

fn source_sans(style: &str) -> Testable {
    let ps = format!("SourceSansPro-{}", style.replace(' ', ""));
    static_font(&format!("source-sans-pro/OTF/{ps}.otf"), "Source Sans Pro", style, &ps)
}

fn cabin(path: &str, family: &str, style: &str, ps: &str) -> Testable {
    static_font(path, family, style, ps)
}

fn ubuntu_mono(path: &str, style: &str, prefix: &str) -> Testable {
    let ps = format!("{prefix}-{style}");
    let unique = format!("1.000;DAMA;{ps}");
    let full = format!("Ubuntu Sans Mono {style}");
    named_font(path, &[(1, "Ubuntu Sans Mono"), (2, style), (3, &unique), (4, &full), (6, &ps), (25, prefix)], true)
}

// opentype/family/unique_names

#[test]
fn test_unique_names_fail() {
    let c = collection(vec![source_sans("Regular"), source_sans("Regular")]);
    let result = run_check_with_config(Check::UniqueNames, TestableType::Collection(&c), vec![]);
    assert!(assert_results_contain(&result, StatusCode::Fail, Some("duplicate-name-id-UNIQUE_ID".to_string())));
}

#[test]
fn test_unique_names_pass() {
    let c = collection(vec![
        source_sans("Regular"),
        source_sans("Bold"),
        source_sans("Italic"),
        source_sans("Bold Italic"),
    ]);
    let result = run_check_with_config(Check::UniqueNames, TestableType::Collection(&c), vec![]);
    assert!(assert_pass(&result));
}

#[test]
fn test_unique_names_cabin_fail() {
    let c = collection(vec![
        cabin("cabin/Cabin-Regular.ttf", "Cabin", "Regular", "Cabin-Regular"),
        cabin("cabin/Cabin-Bold.ttf", "Cabin", "Bold", "Cabin-Bold"),
        cabin("cabin/Cabin-Italic.ttf", "Cabin", "Italic", "Cabin-Italic"),
        cabin("cabin/Cabin-BoldItalic.ttf", "Cabin", "Bold Italic", "Cabin-BoldItalic"),
        cabin("cabin/CabinCondensed-Regular.ttf", "Cabin Condensed", "Regular", "CabinCondensed-Regular"),
        cabin("cabin/CabinCondensed-Bold.ttf", "Cabin Condensed", "Bold", "CabinCondensed-Bold"),
    ]);
    let result = run_check_with_config(Check::UniqueNames, TestableType::Collection(&c), vec![]);
    assert!(assert_results_contain(
        &result,
        StatusCode::Fail,
        Some("duplicate-name-id-TYPOGRAPHIC_SUBFAMILY_NAME".to_string()),
    ));
    assert!(assert_messages_contain(
        &result,
        "The name 'Some(\"Regular\")' is not unique within the family. Found in fonts: cabin/Cabin-Regular.ttf, cabin/CabinCondensed-Regular.ttf",
    ));
}

#[test]
fn test_unique_names_variable_font_pass() {
    let c = collection(vec![
        ubuntu_mono("ubuntusansmono/UbuntuMono[wght].ttf", "Regular", "UbuntuSansMono"),
        ubuntu_mono("ubuntusansmono/UbuntuMono-Italic[wght].ttf", "Italic", "UbuntuSansMonoItalic"),
    ]);
    let result = run_check_with_config(Check::UniqueNames, TestableType::Collection(&c), vec![]);
    assert!(assert_pass(&result));
}

#[test]
fn test_unique_names_variable_font_fail() {
    let c = collection(vec![
        ubuntu_mono("ubuntusansmono/UbuntuMono[wght].ttf", "Regular", "UbuntuSansMono"),
        ubuntu_mono("ubuntusansmono/UbuntuMono[wght].ttf", "Regular", "UbuntuSansMono"),
    ]);
    let result = run_check_with_config(Check::UniqueNames, TestableType::Collection(&c), vec![]);
    assert!(assert_results_contain(
        &result,
        StatusCode::Fail,
        Some("duplicate-name-id-VARIATIONS_POSTSCRIPT_NAME_PREFIX".to_string()),
    ));
}

#[test]
fn unique_names_missing_entry_is_an_error() {
    let c = collection(vec![named_font("NoNames-Regular.ttf", &[(1, "No Names"), (2, "Regular")], false)]);
    let r = unique_names(&c, &Context::new());
    match r {
        Err(fontspector::status::CheckError::General(m)) => {
            assert_eq!(m, "Font NoNames-Regular.ttf is missing a UNIQUE_ID entry")
        }
        _ => panic!("expected an error"),
    }
}

// fontwerk/glyph_coverage

const REQUIRED_CODEPOINTS: [u32; 414] = [
    0x0000, 0x000D, 0x0020, 0x0041, 0x00C1, 0x0102, 0x00C2, 0x00C4, 0x00C0, 0x0100, 0x0104, 0x00C5,
    0x00C3, 0x00C6, 0x0042, 0x0043, 0x0106, 0x010C, 0x00C7, 0x0108, 0x010A, 0x0044, 0x010E, 0x0110,
    0x00D0, 0x0045, 0x00C9, 0x0114, 0x011A, 0x00CA, 0x00CB, 0x0116, 0x00C8, 0x0112, 0x0118, 0x018F,
    0x0046, 0x0047, 0x011E, 0x011C, 0x0122, 0x0120, 0x0048, 0x0126, 0x0124, 0x0049, 0x00CD, 0x012C,
    0x00CE, 0x00CF, 0x0130, 0x00CC, 0x012A, 0x012E, 0x0128, 0x004A, 0x0134, 0x004B, 0x0136, 0x004C,
    0x0139, 0x013D, 0x013B, 0x013F, 0x0141, 0x004D, 0x004E, 0x0143, 0x0147, 0x0145, 0x00D1, 0x014A,
    0x004F, 0x00D3, 0x014E, 0x00D4, 0x00D6, 0x00D2, 0x0150, 0x014C, 0x00D8, 0x00D5, 0x0152, 0x0050,
    0x00DE, 0x0051, 0x0052, 0x0154, 0x0158, 0x0156, 0x0053, 0x015A, 0x0160, 0x015E, 0x015C, 0x0218,
    0x1E9E, 0x0054, 0x0166, 0x0164, 0x0162, 0x021A, 0x0055, 0x00DA, 0x016C, 0x00DB, 0x00DC, 0x00D9,
    0x0170, 0x016A, 0x0172, 0x016E, 0x0168, 0x0056, 0x0057, 0x1E82, 0x0174, 0x1E84, 0x1E80, 0x0058,
    0x0059, 0x00DD, 0x0176, 0x0178, 0x1EF2, 0x005A, 0x0179, 0x017D, 0x017B, 0x0061, 0x00E1, 0x0103,
    0x00E2, 0x00E4, 0x00E0, 0x0101, 0x0105, 0x00E5, 0x00E3, 0x00E6, 0x0062, 0x0063, 0x0107, 0x010D,
    0x00E7, 0x0109, 0x010B, 0x0064, 0x010F, 0x0111, 0x00F0, 0x0065, 0x00E9, 0x0115, 0x011B, 0x00EA,
    0x00EB, 0x0117, 0x00E8, 0x0113, 0x0119, 0x0259, 0x0066, 0x0067, 0x011F, 0x011D, 0x0123, 0x0121,
    0x0068, 0x0127, 0x0125, 0x0069, 0x0131, 0x00ED, 0x012D, 0x00EE, 0x00EF, 0x00EC, 0x012B, 0x012F,
    0x0129, 0x006A, 0x0237, 0x0135, 0x006B, 0x0137, 0x006C, 0x013A, 0x013E, 0x013C, 0x0140, 0x0142,
    0x006D, 0x006E, 0x0144, 0x0148, 0x0146, 0x00F1, 0x014B, 0x006F, 0x00F3, 0x014F, 0x00F4, 0x00F6,
    0x00F2, 0x0151, 0x014D, 0x00F8, 0x00F5, 0x0153, 0x0070, 0x00FE, 0x0071, 0x0072, 0x0155, 0x0159,
    0x0157, 0x0073, 0x015B, 0x0161, 0x015F, 0x015D, 0x0219, 0x00DF, 0x0074, 0x0167, 0x0165, 0x0163,
    0x021B, 0x0075, 0x00FA, 0x016D, 0x00FB, 0x00FC, 0x00F9, 0x0171, 0x016B, 0x0173, 0x016F, 0x0169,
    0x0076, 0x0077, 0x1E83, 0x0175, 0x1E85, 0x1E81, 0x0078, 0x0079, 0x00FD, 0x0177, 0x00FF, 0x1EF3,
    0x007A, 0x017A, 0x017E, 0x017C, 0xFB01, 0xFB02, 0x00AA, 0x00BA, 0x0394, 0x03A9, 0x03BC, 0x03C0,
    0x0030, 0x0031, 0x0032, 0x0033, 0x0034, 0x0035, 0x0036, 0x0037, 0x0038, 0x0039, 0x2044, 0x00BD,
    0x00BC, 0x00BE, 0x00B9, 0x00B2, 0x00B3, 0x00A0, 0x2007, 0x2008, 0x2009, 0x200B, 0xFEFF, 0x2060,
    0x27E8, 0x27E9, 0x002D, 0x2013, 0x2014, 0x2012, 0x2010, 0x2011, 0x005F, 0x0028, 0x0029, 0x007B,
    0x007D, 0x005B, 0x005D, 0x201A, 0x201E, 0x201C, 0x201D, 0x2018, 0x2019, 0x00AB, 0x00BB, 0x2039,
    0x203A, 0x0022, 0x0027, 0x002E, 0x002C, 0x003A, 0x003B, 0x2026, 0x0021, 0x00A1, 0x003F, 0x00BF,
    0x00B7, 0x2022, 0x002A, 0x0023, 0x002F, 0x005C, 0x0192, 0x20BF, 0x00A2, 0x00A4, 0x0024, 0x20AC,
    0x20BA, 0x00A3, 0x00A5, 0x2219, 0x2052, 0x22C5, 0x002B, 0x2212, 0x00D7, 0x00F7, 0x003D, 0x2260,
    0x003E, 0x003C, 0x2265, 0x2264, 0x00B1, 0x2248, 0x007E, 0x00AC, 0x005E, 0x221E, 0x222B, 0x2126,
    0x2206, 0x220F, 0x2211, 0x221A, 0x00B5, 0x2202, 0x0025, 0x2030, 0x25CA, 0x0040, 0x0026, 0x00B6,
    0x00A7, 0x00A9, 0x00AE, 0x2117, 0x2122, 0x00B0, 0x2032, 0x2033, 0x007C, 0x00A6, 0x2020, 0x2113,
    0x2021, 0x212E, 0xFFFD, 0x0308, 0x0307, 0x0300, 0x0301, 0x030B, 0x0302, 0x030C, 0x0306, 0x030A,
    0x0303, 0x0304, 0x0326, 0x0327, 0x0328, 0x00A8, 0x02D9, 0x0060, 0x00B4, 0x02DD, 0x02C6, 0x02C7,
    0x02D8, 0x02DA, 0x02DC, 0x00AF, 0x00B8, 0x02DB,
];

/// The unencoded glyphs a font like Montserrat Regular has, by the names of the glyph set.
const UNENCODED_PRESENT: [&str; 38] = [
    "zero.tf", "one.tf", "two.tf", "three.tf", "four.tf", "five.tf", "six.tf", "seven.tf",
    "eight.tf", "nine.tf", "hyphen.case", "endash.case", "emdash.case", "parenleft.case",
    "parenright.case", "braceleft.case", "braceright.case", "bracketleft.case", "bracketright.case",
    "guillemotleft.case", "guillemotright.case", "guilsinglleft.case", "guilsinglright.case",
    "periodcentered.case", "bullet.case", "slash.case", "backslash.case", "at.case",
    "dieresiscomb.case", "dotaccentcomb.case", "gravecomb.case", "acutecomb.case",
    "hungarumlautcomb.case", "circumflexcomb.case", "caroncomb.case", "brevecomb.case",
    "tildecomb.case", "macroncomb.case",
];

/// A font with a glyph for each given code point, and unencoded glyphs with the given names.
fn glyph_set_font(codepoints: &[u32], unencoded: &[&str]) -> Vec<u8> {
    let mut order: Vec<String> = vec![".notdef".to_string()];
    order.extend(unencoded.iter().map(|s| s.to_string()));
    let first_encoded = order.len();
    let mut mappings = Vec::new();
    for (i, cp) in codepoints.iter().enumerate() {
        order.push(format!("glyph{i}"));
        mappings.push((char::from_u32(*cp).unwrap(), GlyphId::new((first_encoded + i) as u32)));
    }
    let mut b = FontBuilder::new();
    b.add_table(&Head { units_per_em: 1000, ..Default::default() }).unwrap();
    b.add_table(&Maxp::new(order.len() as u16)).unwrap();
    b.add_table(&Cmap::from_mappings(mappings).unwrap()).unwrap();
    b.add_table(&Post::new_v2(order.iter().map(|s| s.as_str()))).unwrap();
    b.build()
}

#[test]
fn test_glyph_coverage() {
    let missing = [0xFEFF, 0x2060, 0x27E8, 0x27E9, 0x2011, 0x20BF, 0x2052, 0x22C5, 0x2117, 0xFFFD];
    let present: Vec<u32> = REQUIRED_CODEPOINTS.iter().copied().filter(|c| !missing.contains(c)).collect();
    let testable = Testable::new_with_contents("demo.ttf", glyph_set_font(&present, &UNENCODED_PRESENT));
    let result = glyph_coverage(&testable, &Context::new()).unwrap().into_iter().next().unwrap();
    let expected_message = "This font is missing required glyphs:\n\n[\"uniFEFF\", \"uni2060\", \"uni27E8\", \"uni27E9\", \"uni2011\", \"uni20BF\", \"uni2052\", \"uni22C5\", \"uni2117\", \"uniFFFD\", \".null\", \"leftanglebracket-math.case\", \"rightanglebracket-math.case\", \"figuredash.case\", \"hyphentwo.case\", \"nonbreakinghyphen.case\", \"colon.case\", \"exclamdown.case\", \"questiondown.case\", \"ringcomb.case\"]";
    assert_eq!(result.message, Some(expected_message.to_string()));
}

#[test]
fn glyph_coverage_alternative_names_count() {
    let mut unencoded: Vec<&str> = UNENCODED_PRESENT.to_vec();
    unencoded.extend([
        ".null", "uni27E8.case", "uni27E9.case", "uni2012.case", "uni2010.case", "uni2011.case",
        "uni003A.case", "uni00A1.case", "uni00BF.case", "ringcomb.case",
    ]);
    let testable = Testable::new_with_contents("full.ttf", glyph_set_font(&REQUIRED_CODEPOINTS, &unencoded));
    let results = run_check(Check::GlyphCoverage, testable);
    assert!(assert_pass(&results));
}

// googlefonts/family/equal_codepoint_coverage

#[test]
fn equal_codepoint_coverage_reports_both_directions() {
    let a = Testable::new_with_contents("Fam-Regular.ttf", glyph_set_font(&[0x41, 0x42, 0x43], &[]));
    let b = Testable::new_with_contents("Fam-Bold.ttf", glyph_set_font(&[0x41, 0x42, 0x44], &[]));
    let c = collection(vec![a, b]);
    let result = run_check_with_config(Check::EqualCodepointCoverage, TestableType::Collection(&c), vec![]);
    assert!(assert_messages_contain(&result, "Font Fam-Regular.ttf has codepoints not present in sibling fonts: U+0043"));
    assert!(assert_messages_contain(&result, "Other fonts have codepoints not present in Fam-Regular.ttf: U+0044"));
}

#[test]
fn equal_codepoint_coverage_skips_single_font() {
    let a = Testable::new_with_contents("Fam-Regular.ttf", glyph_set_font(&[0x41], &[]));
    let c = collection(vec![a]);
    let result = run_check_with_config(Check::EqualCodepointCoverage, TestableType::Collection(&c), vec![]);
    assert!(assert_skip(&result));
}

// METADATA.pb checks

const METADATA: &str = r#"name: "Family Sans"
designer: "Someone"
license: "OFL"
category: "SANS_SERIF"
date_added: "2024-01-01"
fonts {
  name: "Family Sans"
  style: "normal"
  weight: 400
  filename: "FamilySans-Regular.ttf"
  post_script_name: "FamilySans-Regular"
  full_name: "Family Sans Regular"
  copyright: "Copyright 2024 The Family Sans Project Authors"
}
subsets: "latin"
subsets: "menu"
"#;

fn with_license(value: &str) -> Testable {
    let updated = METADATA.replacen("license: \"OFL\"", &format!("license: \"{value}\""), 1);
    Testable::new_with_contents("METADATA.pb", updated.into_bytes())
}

#[test]
fn test_metadata_license_values() {
    assert!(assert_pass(&run_check(Check::License, with_license("APACHE2"))));
    assert!(assert_pass(&run_check(Check::License, with_license("UFL"))));
    assert!(assert_pass(&run_check(Check::License, with_license("OFL"))));
    for bad in ["APACHE", "Apache", "Ufl", "Ofl", "Open Font License"] {
        let results = run_check(Check::License, with_license(bad));
        assert!(assert_results_contain(&results, StatusCode::Fail, Some("bad-license".to_string())));
    }
}

#[test]
fn metadata_that_does_not_parse_is_an_error() {
    let t = Testable::new_with_contents("METADATA.pb", b"name: ".to_vec());
    let results = run_check(Check::License, t);
    assert!(assert_results_contain(&results, StatusCode::Error, None));
    assert!(assert_messages_contain(&results, "Error parsing METADATA.pb: "));
}

#[test]
fn stroke_and_classifications_are_checked() {
    let text = format!("{METADATA}stroke: \"Blobby\"\nclassifications: \"Display\"\nclassifications: \"Fancy\"\n");
    let results = run_check(Check::ValidStrokeAndClassifications, Testable::new_with_contents("METADATA.pb", text.into_bytes()));
    assert!(assert_results_contain(&results, StatusCode::Fail, Some("invalid-stroke".to_string())));
    assert!(assert_messages_contain(&results, "METADATA.pb classifications field contains invalid value 'Fancy'."));
}

#[test]
fn primary_script_and_language_are_checked() {
    let good = format!("{METADATA}primary_script: \"Latn\"\nprimary_language: \"en_Latn\"\n");
    let results = run_check(Check::ValidPrimaryScriptLanguage, Testable::new_with_contents("METADATA.pb", good.into_bytes()));
    assert!(assert_pass(&results));
    let bad = format!("{METADATA}primary_script: \"Qqqq\"\n");
    let results = run_check(Check::ValidPrimaryScriptLanguage, Testable::new_with_contents("METADATA.pb", bad.into_bytes()));
    assert!(assert_results_contain(&results, StatusCode::Fail, Some("invalid-primary-script".to_string())));
}

#[test]
fn subsets_are_checked_against_a_table() {
    let md = Testable::new_with_contents("METADATA.pb", METADATA.as_bytes().to_vec());
    let font = Testable::new_with_contents("FamilySans-Regular.ttf", glyph_set_font(&[0x41, 0x42, 0x43, 0x44], &[]));
    let c = collection(vec![md, font]);
    let table = vec![
        ("latin".to_string(), vec![0x41, 0x42, 0x43, 0x44]),
        ("greek".to_string(), vec![0x391, 0x392]),
        ("cyrillic".to_string(), vec![0x410, 0x41, 0x42]),
    ];
    let latin = vec![0x41, 0x42];
    let r = subsets_correct_with(&c, &table, &latin).unwrap();
    assert_eq!(r.len(), 1);
    assert_eq!(r[0].code, Some("missing-subset".to_string()));
    assert_eq!(
        r[0].message,
        Some("Please add 'cyrillic' to METADATA.pb since more than 50% of its glyphs are supported by this font file.".to_string())
    );
}

#[test]
fn subsets_skip_without_metadata() {
    let font = Testable::new_with_contents("FamilySans-Regular.ttf", glyph_set_font(&[0x41], &[]));
    let c = collection(vec![font]);
    let result = run_check_with_config(Check::SubsetsCorrect, TestableType::Collection(&c), vec![]);
    assert!(assert_skip(&result));
}

// googlefonts/repo/ascii_filenames

#[test]
fn ascii_filenames_flags_others() {
    let c = collection(vec![
        Testable::new_with_contents("fonts/Fam-Regular.ttf", vec![]),
        Testable::new_with_contents("fonts/Fäm-Bold.ttf", vec![]),
    ]);
    let result = run_check_with_config(Check::AsciiFilenames, TestableType::Collection(&c), vec![]);
    assert!(assert_results_contain(&result, StatusCode::Fail, Some("non-ascii-filename".to_string())));
    assert!(assert_messages_contain(&result, "Non-ASCII filename: 'Fäm-Bold.ttf'"));
}
