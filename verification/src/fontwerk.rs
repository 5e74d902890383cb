//! The Fontwerk profile's glyph coverage check.
use vstd::prelude::*;
use crate::config::Context;
use crate::font::{is_font, read_codepoints, read_glyph_names, read_mapped_glyphs, spec_codepoints, spec_glyph_names, spec_is_font, spec_mapped_glyphs};
use crate::monotype::debug_list;
use crate::outcome::{ErrorView, just_one, not_a_font, not_a_font_error, outcome};
use crate::status::{CheckError, Status, StatusCode, StatusView, opt_text, passed, plain};
use crate::testable::Testable;
use crate::text::{hex_padded, push_hex_padded};

verus! {

/// The code points the FW LAT Std glyph set requires.
pub open spec fn required_codepoints() -> Seq<u32> {
    seq![
        0x0000u32, 0x000d, 0x0020, 0x0041, 0x00c1, 0x0102, 0x00c2, 0x00c4, 0x00c0, 0x0100,
        0x0104, 0x00c5, 0x00c3, 0x00c6, 0x0042, 0x0043, 0x0106, 0x010c, 0x00c7, 0x0108,
        0x010a, 0x0044, 0x010e, 0x0110, 0x00d0, 0x0045, 0x00c9, 0x0114, 0x011a, 0x00ca,
        0x00cb, 0x0116, 0x00c8, 0x0112, 0x0118, 0x018f, 0x0046, 0x0047, 0x011e, 0x011c,
        0x0122, 0x0120, 0x0048, 0x0126, 0x0124, 0x0049, 0x00cd, 0x012c, 0x00ce, 0x00cf,
        0x0130, 0x00cc, 0x012a, 0x012e, 0x0128, 0x004a, 0x0134, 0x004b, 0x0136, 0x004c,
        0x0139, 0x013d, 0x013b, 0x013f, 0x0141, 0x004d, 0x004e, 0x0143, 0x0147, 0x0145,
        0x00d1, 0x014a, 0x004f, 0x00d3, 0x014e, 0x00d4, 0x00d6, 0x00d2, 0x0150, 0x014c,
        0x00d8, 0x00d5, 0x0152, 0x0050, 0x00de, 0x0051, 0x0052, 0x0154, 0x0158, 0x0156,
        0x0053, 0x015a, 0x0160, 0x015e, 0x015c, 0x0218, 0x1e9e, 0x0054, 0x0166, 0x0164,
        0x0162, 0x021a, 0x0055, 0x00da, 0x016c, 0x00db, 0x00dc, 0x00d9, 0x0170, 0x016a,
        0x0172, 0x016e, 0x0168, 0x0056, 0x0057, 0x1e82, 0x0174, 0x1e84, 0x1e80, 0x0058,
        0x0059, 0x00dd, 0x0176, 0x0178, 0x1ef2, 0x005a, 0x0179, 0x017d, 0x017b, 0x0061,
        0x00e1, 0x0103, 0x00e2, 0x00e4, 0x00e0, 0x0101, 0x0105, 0x00e5, 0x00e3, 0x00e6,
        0x0062, 0x0063, 0x0107, 0x010d, 0x00e7, 0x0109, 0x010b, 0x0064, 0x010f, 0x0111,
        0x00f0, 0x0065, 0x00e9, 0x0115, 0x011b, 0x00ea, 0x00eb, 0x0117, 0x00e8, 0x0113,
        0x0119, 0x0259, 0x0066, 0x0067, 0x011f, 0x011d, 0x0123, 0x0121, 0x0068, 0x0127,
        0x0125, 0x0069, 0x0131, 0x00ed, 0x012d, 0x00ee, 0x00ef, 0x00ec, 0x012b, 0x012f,
        0x0129, 0x006a, 0x0237, 0x0135, 0x006b, 0x0137, 0x006c, 0x013a, 0x013e, 0x013c,
        0x0140, 0x0142, 0x006d, 0x006e, 0x0144, 0x0148, 0x0146, 0x00f1, 0x014b, 0x006f,
        0x00f3, 0x014f, 0x00f4, 0x00f6, 0x00f2, 0x0151, 0x014d, 0x00f8, 0x00f5, 0x0153,
        0x0070, 0x00fe, 0x0071, 0x0072, 0x0155, 0x0159, 0x0157, 0x0073, 0x015b, 0x0161,
        0x015f, 0x015d, 0x0219, 0x00df, 0x0074, 0x0167, 0x0165, 0x0163, 0x021b, 0x0075,
        0x00fa, 0x016d, 0x00fb, 0x00fc, 0x00f9, 0x0171, 0x016b, 0x0173, 0x016f, 0x0169,
        0x0076, 0x0077, 0x1e83, 0x0175, 0x1e85, 0x1e81, 0x0078, 0x0079, 0x00fd, 0x0177,
        0x00ff, 0x1ef3, 0x007a, 0x017a, 0x017e, 0x017c, 0xfb01, 0xfb02, 0x00aa, 0x00ba,
        0x0394, 0x03a9, 0x03bc, 0x03c0, 0x0030, 0x0031, 0x0032, 0x0033, 0x0034, 0x0035,
        0x0036, 0x0037, 0x0038, 0x0039, 0x2044, 0x00bd, 0x00bc, 0x00be, 0x00b9, 0x00b2,
        0x00b3, 0x00a0, 0x2007, 0x2008, 0x2009, 0x200b, 0xfeff, 0x2060, 0x27e8, 0x27e9,
        0x002d, 0x2013, 0x2014, 0x2012, 0x2010, 0x2011, 0x005f, 0x0028, 0x0029, 0x007b,
        0x007d, 0x005b, 0x005d, 0x201a, 0x201e, 0x201c, 0x201d, 0x2018, 0x2019, 0x00ab,
        0x00bb, 0x2039, 0x203a, 0x0022, 0x0027, 0x002e, 0x002c, 0x003a, 0x003b, 0x2026,
        0x0021, 0x00a1, 0x003f, 0x00bf, 0x00b7, 0x2022, 0x002a, 0x0023, 0x002f, 0x005c,
        0x0192, 0x20bf, 0x00a2, 0x00a4, 0x0024, 0x20ac, 0x20ba, 0x00a3, 0x00a5, 0x2219,
        0x2052, 0x22c5, 0x002b, 0x2212, 0x00d7, 0x00f7, 0x003d, 0x2260, 0x003e, 0x003c,
        0x2265, 0x2264, 0x00b1, 0x2248, 0x007e, 0x00ac, 0x005e, 0x221e, 0x222b, 0x2126,
        0x2206, 0x220f, 0x2211, 0x221a, 0x00b5, 0x2202, 0x0025, 0x2030, 0x25ca, 0x0040,
        0x0026, 0x00b6, 0x00a7, 0x00a9, 0x00ae, 0x2117, 0x2122, 0x00b0, 0x2032, 0x2033,
        0x007c, 0x00a6, 0x2020, 0x2113, 0x2021, 0x212e, 0xfffd, 0x0308, 0x0307, 0x0300,
        0x0301, 0x030b, 0x0302, 0x030c, 0x0306, 0x030a, 0x0303, 0x0304, 0x0326, 0x0327,
        0x0328, 0x00a8, 0x02d9, 0x0060, 0x00b4, 0x02dd, 0x02c6, 0x02c7, 0x02d8, 0x02da,
        0x02dc, 0x00af, 0x00b8, 0x02db,
    ]
}

/// The unencoded glyphs the FW LAT Std glyph set requires: a preferred name and an alternative.
pub open spec fn required_unencoded() -> Seq<(&'static str, &'static str)> {
    seq![
        (".notdef", ".notdef"), (".null", ".null"), ("zero.tf", "uni0030.tf"), ("one.tf", "uni0031.tf"),
        ("two.tf", "uni0032.tf"), ("three.tf", "uni0033.tf"), ("four.tf", "uni0034.tf"), ("five.tf", "uni0035.tf"),
        ("six.tf", "uni0036.tf"), ("seven.tf", "uni0037.tf"), ("eight.tf", "uni0038.tf"), ("nine.tf", "uni0039.tf"),
        ("leftanglebracket-math.case", "uni27E8.case"), ("rightanglebracket-math.case", "uni27E9.case"), ("hyphen.case", "uni002D.case"), ("endash.case", "uni2013.case"),
        ("emdash.case", "uni2014.case"), ("figuredash.case", "uni2012.case"), ("hyphentwo.case", "uni2010.case"), ("nonbreakinghyphen.case", "uni2011.case"),
        ("parenleft.case", "uni0028.case"), ("parenright.case", "uni0029.case"), ("braceleft.case", "uni007B.case"), ("braceright.case", "uni007D.case"),
        ("bracketleft.case", "uni005B.case"), ("bracketright.case", "uni005D.case"), ("guillemetleft.case", "guillemotleft.case"), ("guillemetright.case", "guillemotright.case"),
        ("guilsinglleft.case", "uni2039.case"), ("guilsinglright.case", "uni203A.case"), ("colon.case", "uni003A.case"), ("exclamdown.case", "uni00A1.case"),
        ("questiondown.case", "uni00BF.case"), ("periodcentered.case", "uni00B7.case"), ("bullet.case", "uni2022.case"), ("slash.case", "uni002F.case"),
        ("backslash.case", "uni005C.case"), ("at.case", "uni0040.case"), ("dieresiscomb.case", "uni0308.case"), ("dotaccentcomb.case", "uni0307.case"),
        ("gravecomb.case", "uni0300.case"), ("acutecomb.case", "uni0301.case"), ("hungarumlautcomb.case", "uni030B.case"), ("circumflexcomb.case", "uni0302.case"),
        ("caroncomb.case", "uni030C.case"), ("brevecomb.case", "uni0306.case"), ("ringcomb.case", "uni030A.case"), ("tildecomb.case", "uni0303.case"),
        ("macroncomb.case", "uni0304.case"),
    ]
}

fn required_codepoint_list() -> (r: Vec<u32>)
    ensures
        r@ == required_codepoints(),
{
    let v: Vec<u32> = vec![
        0x0000u32, 0x000d, 0x0020, 0x0041, 0x00c1, 0x0102, 0x00c2, 0x00c4, 0x00c0, 0x0100,
        0x0104, 0x00c5, 0x00c3, 0x00c6, 0x0042, 0x0043, 0x0106, 0x010c, 0x00c7, 0x0108,
        0x010a, 0x0044, 0x010e, 0x0110, 0x00d0, 0x0045, 0x00c9, 0x0114, 0x011a, 0x00ca,
        0x00cb, 0x0116, 0x00c8, 0x0112, 0x0118, 0x018f, 0x0046, 0x0047, 0x011e, 0x011c,
        0x0122, 0x0120, 0x0048, 0x0126, 0x0124, 0x0049, 0x00cd, 0x012c, 0x00ce, 0x00cf,
        0x0130, 0x00cc, 0x012a, 0x012e, 0x0128, 0x004a, 0x0134, 0x004b, 0x0136, 0x004c,
        0x0139, 0x013d, 0x013b, 0x013f, 0x0141, 0x004d, 0x004e, 0x0143, 0x0147, 0x0145,
        0x00d1, 0x014a, 0x004f, 0x00d3, 0x014e, 0x00d4, 0x00d6, 0x00d2, 0x0150, 0x014c,
        0x00d8, 0x00d5, 0x0152, 0x0050, 0x00de, 0x0051, 0x0052, 0x0154, 0x0158, 0x0156,
        0x0053, 0x015a, 0x0160, 0x015e, 0x015c, 0x0218, 0x1e9e, 0x0054, 0x0166, 0x0164,
        0x0162, 0x021a, 0x0055, 0x00da, 0x016c, 0x00db, 0x00dc, 0x00d9, 0x0170, 0x016a,
        0x0172, 0x016e, 0x0168, 0x0056, 0x0057, 0x1e82, 0x0174, 0x1e84, 0x1e80, 0x0058,
        0x0059, 0x00dd, 0x0176, 0x0178, 0x1ef2, 0x005a, 0x0179, 0x017d, 0x017b, 0x0061,
        0x00e1, 0x0103, 0x00e2, 0x00e4, 0x00e0, 0x0101, 0x0105, 0x00e5, 0x00e3, 0x00e6,
        0x0062, 0x0063, 0x0107, 0x010d, 0x00e7, 0x0109, 0x010b, 0x0064, 0x010f, 0x0111,
        0x00f0, 0x0065, 0x00e9, 0x0115, 0x011b, 0x00ea, 0x00eb, 0x0117, 0x00e8, 0x0113,
        0x0119, 0x0259, 0x0066, 0x0067, 0x011f, 0x011d, 0x0123, 0x0121, 0x0068, 0x0127,
        0x0125, 0x0069, 0x0131, 0x00ed, 0x012d, 0x00ee, 0x00ef, 0x00ec, 0x012b, 0x012f,
        0x0129, 0x006a, 0x0237, 0x0135, 0x006b, 0x0137, 0x006c, 0x013a, 0x013e, 0x013c,
        0x0140, 0x0142, 0x006d, 0x006e, 0x0144, 0x0148, 0x0146, 0x00f1, 0x014b, 0x006f,
        0x00f3, 0x014f, 0x00f4, 0x00f6, 0x00f2, 0x0151, 0x014d, 0x00f8, 0x00f5, 0x0153,
        0x0070, 0x00fe, 0x0071, 0x0072, 0x0155, 0x0159, 0x0157, 0x0073, 0x015b, 0x0161,
        0x015f, 0x015d, 0x0219, 0x00df, 0x0074, 0x0167, 0x0165, 0x0163, 0x021b, 0x0075,
        0x00fa, 0x016d, 0x00fb, 0x00fc, 0x00f9, 0x0171, 0x016b, 0x0173, 0x016f, 0x0169,
        0x0076, 0x0077, 0x1e83, 0x0175, 0x1e85, 0x1e81, 0x0078, 0x0079, 0x00fd, 0x0177,
        0x00ff, 0x1ef3, 0x007a, 0x017a, 0x017e, 0x017c, 0xfb01, 0xfb02, 0x00aa, 0x00ba,
        0x0394, 0x03a9, 0x03bc, 0x03c0, 0x0030, 0x0031, 0x0032, 0x0033, 0x0034, 0x0035,
        0x0036, 0x0037, 0x0038, 0x0039, 0x2044, 0x00bd, 0x00bc, 0x00be, 0x00b9, 0x00b2,
        0x00b3, 0x00a0, 0x2007, 0x2008, 0x2009, 0x200b, 0xfeff, 0x2060, 0x27e8, 0x27e9,
        0x002d, 0x2013, 0x2014, 0x2012, 0x2010, 0x2011, 0x005f, 0x0028, 0x0029, 0x007b,
        0x007d, 0x005b, 0x005d, 0x201a, 0x201e, 0x201c, 0x201d, 0x2018, 0x2019, 0x00ab,
        0x00bb, 0x2039, 0x203a, 0x0022, 0x0027, 0x002e, 0x002c, 0x003a, 0x003b, 0x2026,
        0x0021, 0x00a1, 0x003f, 0x00bf, 0x00b7, 0x2022, 0x002a, 0x0023, 0x002f, 0x005c,
        0x0192, 0x20bf, 0x00a2, 0x00a4, 0x0024, 0x20ac, 0x20ba, 0x00a3, 0x00a5, 0x2219,
        0x2052, 0x22c5, 0x002b, 0x2212, 0x00d7, 0x00f7, 0x003d, 0x2260, 0x003e, 0x003c,
        0x2265, 0x2264, 0x00b1, 0x2248, 0x007e, 0x00ac, 0x005e, 0x221e, 0x222b, 0x2126,
        0x2206, 0x220f, 0x2211, 0x221a, 0x00b5, 0x2202, 0x0025, 0x2030, 0x25ca, 0x0040,
        0x0026, 0x00b6, 0x00a7, 0x00a9, 0x00ae, 0x2117, 0x2122, 0x00b0, 0x2032, 0x2033,
        0x007c, 0x00a6, 0x2020, 0x2113, 0x2021, 0x212e, 0xfffd, 0x0308, 0x0307, 0x0300,
        0x0301, 0x030b, 0x0302, 0x030c, 0x0306, 0x030a, 0x0303, 0x0304, 0x0326, 0x0327,
        0x0328, 0x00a8, 0x02d9, 0x0060, 0x00b4, 0x02dd, 0x02c6, 0x02c7, 0x02d8, 0x02da,
        0x02dc, 0x00af, 0x00b8, 0x02db,
    ];
    assert(v@ =~= required_codepoints());
    v
}

fn required_unencoded_list() -> (r: Vec<(&'static str, &'static str)>)
    ensures
        r@ == required_unencoded(),
{
    let v: Vec<(&'static str, &'static str)> = vec![
        (".notdef", ".notdef"), (".null", ".null"), ("zero.tf", "uni0030.tf"), ("one.tf", "uni0031.tf"),
        ("two.tf", "uni0032.tf"), ("three.tf", "uni0033.tf"), ("four.tf", "uni0034.tf"), ("five.tf", "uni0035.tf"),
        ("six.tf", "uni0036.tf"), ("seven.tf", "uni0037.tf"), ("eight.tf", "uni0038.tf"), ("nine.tf", "uni0039.tf"),
        ("leftanglebracket-math.case", "uni27E8.case"), ("rightanglebracket-math.case", "uni27E9.case"), ("hyphen.case", "uni002D.case"), ("endash.case", "uni2013.case"),
        ("emdash.case", "uni2014.case"), ("figuredash.case", "uni2012.case"), ("hyphentwo.case", "uni2010.case"), ("nonbreakinghyphen.case", "uni2011.case"),
        ("parenleft.case", "uni0028.case"), ("parenright.case", "uni0029.case"), ("braceleft.case", "uni007B.case"), ("braceright.case", "uni007D.case"),
        ("bracketleft.case", "uni005B.case"), ("bracketright.case", "uni005D.case"), ("guillemetleft.case", "guillemotleft.case"), ("guillemetright.case", "guillemotright.case"),
        ("guilsinglleft.case", "uni2039.case"), ("guilsinglright.case", "uni203A.case"), ("colon.case", "uni003A.case"), ("exclamdown.case", "uni00A1.case"),
        ("questiondown.case", "uni00BF.case"), ("periodcentered.case", "uni00B7.case"), ("bullet.case", "uni2022.case"), ("slash.case", "uni002F.case"),
        ("backslash.case", "uni005C.case"), ("at.case", "uni0040.case"), ("dieresiscomb.case", "uni0308.case"), ("dotaccentcomb.case", "uni0307.case"),
        ("gravecomb.case", "uni0300.case"), ("acutecomb.case", "uni0301.case"), ("hungarumlautcomb.case", "uni030B.case"), ("circumflexcomb.case", "uni0302.case"),
        ("caroncomb.case", "uni030C.case"), ("brevecomb.case", "uni0306.case"), ("ringcomb.case", "uni030A.case"), ("tildecomb.case", "uni0303.case"),
        ("macroncomb.case", "uni0304.case"),
    ];
    assert(v@ =~= required_unencoded());
    v
}

} // verus!

verus! {

/// The names of the glyphs the cmap table does not reach, in glyph order; glyphs without a
/// name, or with an empty one, are left out.
pub open spec fn unencoded_names(names: Seq<Option<Seq<char>>>, mapped: Seq<u32>) -> Seq<Seq<char>>
    decreases names.len(),
{
    if names.len() == 0 {
        Seq::empty()
    } else {
        let prev = unencoded_names(names.drop_last(), mapped);
        let g = (names.len() - 1) as u32;
        match names.last() {
            Some(n) => if !mapped.contains(g) && n.len() > 0 {
                prev.push(n)
            } else {
                prev
            },
            None => prev,
        }
    }
}

/// The required code points the font lacks, written `uniXXXX`.
pub open spec fn missing_encoded(req: Seq<u32>, cps: Seq<u32>) -> Seq<Seq<char>>
    decreases req.len(),
{
    if req.len() == 0 {
        Seq::empty()
    } else {
        let prev = missing_encoded(req.drop_last(), cps);
        if !cps.contains(req.last()) {
            prev.push("uni"@ + hex_padded(req.last() as nat, 4))
        } else {
            prev
        }
    }
}

/// The preferred names of the required unencoded glyphs that the font has under neither name.
pub open spec fn missing_unencoded(req: Seq<(&'static str, &'static str)>, have: Seq<Seq<char>>) -> Seq<Seq<char>>
    decreases req.len(),
{
    if req.len() == 0 {
        Seq::empty()
    } else {
        let prev = missing_unencoded(req.drop_last(), have);
        let (a, b) = req.last();
        if !have.contains(a@) && !have.contains(b@) {
            prev.push(a@)
        } else {
            prev
        }
    }
}

/// What the glyph coverage check finds in a font.
pub open spec fn glyph_coverage_outcome(font: Seq<u8>) -> Result<Seq<StatusView>, ErrorView> {
    if !spec_is_font(font) {
        Err(not_a_font())
    } else {
        let missing = missing_encoded(required_codepoints(), spec_codepoints(font)) + missing_unencoded(
            required_unencoded(),
            unencoded_names(spec_glyph_names(font), spec_mapped_glyphs(font)),
        );
        if missing.len() == 0 {
            Ok(seq![passed()])
        } else {
            Ok(seq![plain(StatusCode::Fail, "missing-glyphs"@,
                "This font is missing required glyphs:\n\n"@ + debug_list(missing))])
        }
    }
}

fn unencoded(names: &Vec<Option<String>>, mapped: &Vec<u32>) -> (r: Vec<String>)
    requires
        names@.len() <= u32::MAX,
    ensures
        r@.map_values(|s: String| s@) == unencoded_names(names@.map_values(|o: Option<String>| opt_text(o)), mapped@),
{
    broadcast use vstd::std_specs::hash::group_hash_axioms;
    let mapped_set = crate::gf_fonts::set_of(mapped);
    let ghost nv = names@.map_values(|o: Option<String>| opt_text(o));
    let mut r: Vec<String> = Vec::new();
    for i in 0..names.len()
        invariant
            names@.len() <= u32::MAX,
            nv == names@.map_values(|o: Option<String>| opt_text(o)),
            mapped_set@ == mapped@.to_set(),
            r@.map_values(|s: String| s@) == unencoded_names(nv.take(i as int), mapped@),
    {
        assert(nv.take(i + 1).drop_last() =~= nv.take(i as int));
        let g = i as u32;
        if let Some(n) = &names[i] {
            if !mapped_set.contains(&g) && !n.as_str().is_empty() {
                let ghost before = r@.map_values(|s: String| s@);
                r.push(n.clone());
                assert(r@.map_values(|s: String| s@) =~= before.push(n@));
            }
        }
    }
    assert(nv.take(names.len() as int) =~= nv);
    r
}

/// Checks that the font has the code points and glyphs of the FW LAT Std glyph set.
pub fn glyph_coverage(t: &Testable, _context: &Context) -> (r: Result<Vec<Status>, CheckError>)
    ensures
        outcome(r) == glyph_coverage_outcome(t.contents@),
{
    broadcast use vstd::std_specs::hash::group_hash_axioms;
    let font = t.contents.as_slice();
    if !is_font(font) {
        return Err(not_a_font_error());
    }
    let cps = read_codepoints(font);
    let cps_set = crate::gf_fonts::set_of(&cps);
    let req = required_codepoint_list();
    let mut missing: Vec<String> = Vec::new();
    for i in 0..req.len()
        invariant
            req@ == required_codepoints(),
            cps_set@ == cps@.to_set(),
            missing@.map_values(|s: String| s@) == missing_encoded(req@.take(i as int), cps@),
    {
        assert(req@.take(i + 1).drop_last() =~= req@.take(i as int));
        if !cps_set.contains(&req[i]) {
            let mut m = String::from_str("uni");
            push_hex_padded(&mut m, req[i] as u64, 4);
            let ghost before = missing@.map_values(|s: String| s@);
            missing.push(m);
            assert(missing@.map_values(|s: String| s@) =~= before.push(m@));
        }
    }
    assert(req@.take(req.len() as int) =~= req@);
    let ghost first = missing@.map_values(|s: String| s@);
    let names = read_glyph_names(font);
    let have = unencoded(&names, &read_mapped_glyphs(font));
    let ghost hv = have@.map_values(|s: String| s@);
    let pairs = required_unencoded_list();
    for i in 0..pairs.len()
        invariant
            pairs@ == required_unencoded(),
            hv == have@.map_values(|s: String| s@),
            missing@.map_values(|s: String| s@) == first + missing_unencoded(pairs@.take(i as int), hv),
    {
        assert(pairs@.take(i + 1).drop_last() =~= pairs@.take(i as int));
        let (a, b) = pairs[i];
        if !crate::gf_metadata::texts_contain(&have, a) && !crate::gf_metadata::texts_contain(&have, b) {
            let ghost before = missing@.map_values(|s: String| s@);
            missing.push(crate::status::code_string(a));
            assert(missing@.map_values(|s: String| s@) =~= before.push(a@));
        }
    }
    assert(pairs@.take(pairs.len() as int) =~= pairs@);
    if missing.len() == 0 {
        Ok(just_one(Status::pass()))
    } else {
        let mut m = String::from_str("This font is missing required glyphs:\n\n");
        crate::monotype::push_debug_list(&mut m, &missing);
        Ok(just_one(Status::with_message(StatusCode::Fail, "missing-glyphs", m)))
    }
}

} // verus!
