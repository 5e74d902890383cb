//! Checks of the Google Fonts profile that read a family's METADATA.pb file.
use vstd::prelude::*;
use crate::config::Context;
use crate::googlefonts::{
    license_findings, license_status, stroke_and_classification_findings,
    strokes_and_classifications_status,
};
use crate::outcome::{
    ErrorView, only_if, outcome, push_when, skip,
};
use crate::status::{
    CheckError, Status, StatusCode, StatusView, code_string, opt_text, plain, result_of, return_result,
    views,
};
use crate::testable::{Testable, TestableCollection, spec_file_name};
use crate::text::{push_str, str_eq};

verus! {

/// What the checks read from METADATA.pb.
pub struct FamilyMeta {
    pub license: String,
    pub stroke: Option<String>,
    pub classifications: Vec<String>,
    pub primary_script: String,
    pub primary_language: String,
    pub subsets: Vec<String>,
    /// The filename of each font entry, when it has one.
    pub font_files: Vec<Option<String>>,
}

/// The content of what the checks read from METADATA.pb.
pub struct FamilyMetaView {
    pub license: Seq<char>,
    pub stroke: Option<Seq<char>>,
    pub classifications: Seq<Seq<char>>,
    pub primary_script: Seq<char>,
    pub primary_language: Seq<char>,
    pub subsets: Seq<Seq<char>>,
    pub font_files: Seq<Option<Seq<char>>>,
}

impl View for FamilyMeta {
    type V = FamilyMetaView;

    open spec fn view(&self) -> FamilyMetaView {
        FamilyMetaView {
            license: self.license@,
            stroke: opt_text(self.stroke),
            classifications: self.classifications@.map_values(|s: String| s@),
            primary_script: self.primary_script@,
            primary_language: self.primary_language@,
            subsets: self.subsets@.map_values(|s: String| s@),
            font_files: self.font_files@.map_values(|o: Option<String>| opt_text(o)),
        }
    }
}

/// What gf-metadata's `read_family` reads from the text of a METADATA.pb file, or its error
/// message.
pub uninterp spec fn spec_read_family(text: Seq<char>) -> Result<FamilyMetaView, Seq<char>>;

/// The text std's `String::from_utf8` makes of some bytes, when they are UTF-8.
pub uninterp spec fn spec_utf8(bytes: Seq<u8>) -> Option<Seq<char>>;

/// `read_family` from gf-metadata: the fields the checks read, or the parse error as text.
/// The result is named. gf-metadata parses METADATA.pb, the protobuf text format of the Google
/// Fonts family metadata, into the generated family message; it is the reader this library uses
/// for that file.
#[verifier::external_body]
pub(crate) fn read_family(text: &str) -> (r: Result<FamilyMeta, String>)
    ensures
        match r {
            Ok(m) => spec_read_family(text@) == Ok::<FamilyMetaView, Seq<char>>(m@),
            Err(e) => spec_read_family(text@) == Err::<FamilyMetaView, Seq<char>>(e@),
        },
{
    let m = gf_metadata::read_family(text).map_err(|e| e.to_string())?;
    Ok(FamilyMeta { license: m.license().to_string(), stroke: m.stroke.clone(),
        classifications: m.classifications.clone(), primary_script: m.primary_script().to_string(),
        primary_language: m.primary_language().to_string(), subsets: m.subsets.clone(),
        font_files: m.fonts.iter().map(|f| f.filename.clone()).collect() })
}

/// `String::from_utf8` from std: the bytes as text, when they are UTF-8. The result is named.
#[verifier::external_body]
pub(crate) fn utf8_text(bytes: &[u8]) -> (r: Option<String>)
    ensures
        match r {
            Some(s) => spec_utf8(bytes@) == Some(s@),
            None => spec_utf8(bytes@) is None,
        },
{
    String::from_utf8(bytes.to_vec()).ok()
}

/// What the checks read from a METADATA.pb file, or the error that stops them.
pub open spec fn family_of(bytes: Seq<u8>) -> Result<FamilyMetaView, ErrorView> {
    match spec_utf8(bytes) {
        None => Err(ErrorView::General("METADATA.pb is not valid UTF-8"@)),
        Some(text) => match spec_read_family(text) {
            Ok(m) => Ok(m),
            Err(e) => Err(ErrorView::General("Error parsing METADATA.pb: "@ + e)),
        },
    }
}

/// Reads a METADATA.pb file.
pub fn family_proto(t: &Testable) -> (r: Result<FamilyMeta, CheckError>)
    ensures
        match r {
            Ok(m) => family_of(t.contents@) == Ok::<FamilyMetaView, ErrorView>(m@),
            Err(e) => family_of(t.contents@) == Err::<FamilyMetaView, ErrorView>(e@),
        },
{
    let text = match utf8_text(t.contents.as_slice()) {
        Some(s) => s,
        None => return Err(CheckError::General(code_string("METADATA.pb is not valid UTF-8"))),
    };
    match read_family(text.as_str()) {
        Ok(m) => Ok(m),
        Err(e) => {
            let mut msg = String::from_str("Error parsing METADATA.pb: ");
            push_str(&mut msg, e.as_str());
            Err(CheckError::General(msg))
        },
    }
}

/// What the license check finds in a METADATA.pb file.
pub open spec fn license_outcome(bytes: Seq<u8>) -> Result<Seq<StatusView>, ErrorView> {
    match family_of(bytes) {
        Err(e) => Err(e),
        Ok(m) => Ok(seq![license_status(m.license)]),
    }
}

/// Checks that the license field of METADATA.pb is "APACHE2", "UFL" or "OFL".
pub fn license(t: &Testable, _context: &Context) -> (r: Result<Vec<Status>, CheckError>)
    ensures
        outcome(r) == license_outcome(t.contents@),
{
    let m = family_proto(t)?;
    Ok(license_findings(m.license.as_str()))
}

/// What the stroke and classifications check finds in a METADATA.pb file.
pub open spec fn stroke_outcome(bytes: Seq<u8>) -> Result<Seq<StatusView>, ErrorView> {
    match family_of(bytes) {
        Err(e) => Err(e),
        Ok(m) => Ok(strokes_and_classifications_status(m.stroke, m.classifications)),
    }
}

/// Checks the stroke and classifications fields of METADATA.pb.
pub fn valid_stroke_and_classifications(t: &Testable, _context: &Context) -> (r: Result<Vec<Status>, CheckError>)
    ensures
        outcome(r) == stroke_outcome(t.contents@),
{
    let m = family_proto(t)?;
    Ok(stroke_and_classification_findings(&m.stroke, &m.classifications))
}

/// Whether the Google Fonts language database knows a script code.
pub uninterp spec fn spec_known_script(s: Seq<char>) -> bool;

/// Whether the Google Fonts language database knows a language ID.
pub uninterp spec fn spec_known_language(s: Seq<char>) -> bool;

/// `SCRIPTS.contains_key` from google-fonts-languages. The result is named.
#[verifier::external_body]
pub(crate) fn known_script(s: &str) -> (r: bool)
    ensures
        r == spec_known_script(s@),
{
    google_fonts_languages::SCRIPTS.contains_key(s)
}

/// `LANGUAGES.contains_key` from google-fonts-languages. The result is named.
#[verifier::external_body]
pub(crate) fn known_language(s: &str) -> (r: bool)
    ensures
        r == spec_known_language(s@),
{
    google_fonts_languages::LANGUAGES.contains_key(s)
}

/// The failures about the primary script and language of METADATA.pb.
pub open spec fn script_language_problems(m: FamilyMetaView) -> Seq<StatusView> {
    only_if(
        m.primary_script.len() > 0 && !spec_known_script(m.primary_script),
        plain(StatusCode::Fail, "invalid-primary-script"@,
            "METADATA.pb primary_script '"@ + m.primary_script
                + "' is not a valid script code. See https://github.com/googlefonts/lang for valid values."@),
    ) + only_if(
        m.primary_language.len() > 0 && !spec_known_language(m.primary_language),
        plain(StatusCode::Fail, "invalid-primary-language"@,
            "METADATA.pb primary_language '"@ + m.primary_language
                + "' is not a valid language ID. Expected format: 'lang_Script' (e.g., 'en_Latn'). See https://github.com/googlefonts/lang for valid values."@),
    )
}

/// What the primary script and language check finds in a METADATA.pb file.
pub open spec fn script_language_outcome(bytes: Seq<u8>) -> Result<Seq<StatusView>, ErrorView> {
    match family_of(bytes) {
        Err(e) => Err(e),
        Ok(m) => Ok(result_of(script_language_problems(m))),
    }
}

/// Checks that the primary script and language of METADATA.pb, when given, are known to the
/// Google Fonts language database.
pub fn valid_primary_script_language(t: &Testable, _context: &Context) -> (r: Result<Vec<Status>, CheckError>)
    ensures
        outcome(r) == script_language_outcome(t.contents@),
{
    let m = family_proto(t)?;
    let mut p: Vec<Status> = Vec::new();
    let script = m.primary_script.as_str();
    let language = m.primary_language.as_str();
    let mut msg = String::from_str("METADATA.pb primary_script '");
    push_str(&mut msg, script);
    push_str(&mut msg, "' is not a valid script code. See https://github.com/googlefonts/lang for valid values.");
    push_when(&mut p, !script.is_empty() && !known_script(script), Status::with_message(StatusCode::Fail, "invalid-primary-script", msg));
    let mut msg2 = String::from_str("METADATA.pb primary_language '");
    push_str(&mut msg2, language);
    push_str(&mut msg2, "' is not a valid language ID. Expected format: 'lang_Script' (e.g., 'en_Latn'). See https://github.com/googlefonts/lang for valid values.");
    push_when(&mut p, !language.is_empty() && !known_language(language), Status::with_message(StatusCode::Fail, "invalid-primary-language", msg2));
    assert(views(p@) =~= script_language_problems(m@));
    Ok(return_result(p))
}

} // verus!

verus! {

/// The position of the first file of a collection with the given file name.
pub open spec fn find_file(ts: Seq<Testable>, name: Seq<char>) -> Option<int>
    decreases ts.len(),
{
    if ts.len() == 0 {
        None
    } else if spec_file_name(ts[0].filename@) == Some(name) {
        Some(0)
    } else {
        match find_file(ts.drop_first(), name) {
            Some(i) => Some(i + 1),
            None => None,
        }
    }
}

/// Finds the first file of a collection with the given file name.
pub fn get_file(ts: &Vec<Testable>, name: &str) -> (r: Option<usize>)
    ensures
        match r {
            Some(i) => find_file(ts@, name@) == Some(i as int) && i < ts@.len(),
            None => find_file(ts@, name@) is None,
        },
{
    let mut i: usize = 0;
    assert(ts@.skip(0) =~= ts@);
    while i < ts.len()
        invariant
            i <= ts.len(),
            find_file(ts@, name@) == match find_file(ts@.skip(i as int), name@) {
                Some(j) => Some(j + i),
                None => None::<int>,
            },
        decreases ts.len() - i,
    {
        assert(ts@.skip(i as int).drop_first() =~= ts@.skip(i + 1));
        assert(ts@.skip(i as int)[0] == ts@[i as int]);
        let found = match ts[i].basename() {
            Some(b) => str_eq(b.as_str(), name),
            None => false,
        };
        if found {
            return Some(i);
        }
        i = i + 1;
    }
    None
}

/// The position of the first font listed in METADATA.pb that the collection holds.
pub open spec fn first_listed_font(ts: Seq<Testable>, files: Seq<Option<Seq<char>>>) -> Option<int>
    decreases files.len(),
{
    if files.len() == 0 {
        None
    } else {
        match files[0] {
            Some(f) => match find_file(ts, f) {
                Some(i) => Some(i),
                None => first_listed_font(ts, files.drop_first()),
            },
            None => first_listed_font(ts, files.drop_first()),
        }
    }
}

/// Whether `a` comes before `b` in the order of texts (character by character).
pub open spec fn text_before(a: Seq<char>, b: Seq<char>) -> bool
    decreases a.len(),
{
    if a.len() == 0 {
        b.len() > 0
    } else if b.len() == 0 {
        false
    } else if (a[0] as u32) < (b[0] as u32) {
        true
    } else if (a[0] as u32) > (b[0] as u32) {
        false
    } else {
        text_before(a.drop_first(), b.drop_first())
    }
}

/// Whether texts are in order.
pub open spec fn in_order(s: Seq<Seq<char>>) -> bool {
    forall|i: int| 0 <= i < s.len() - 1 ==> !text_before(#[trigger] s[i + 1], s[i])
}

/// The CJK subsets, of which METADATA.pb may name one.
pub open spec fn cjk_subsets() -> Seq<&'static str> {
    seq!["chinese-hongkong", "chinese-simplified", "chinese-traditional", "korean", "japanese"]
}

/// How many of the subsets are CJK subsets.
pub open spec fn cjk_subset_count(s: Seq<Seq<char>>) -> nat
    decreases s.len(),
{
    if s.len() == 0 {
        0
    } else {
        cjk_subset_count(s.drop_last()) + if (exists|k: int| 0 <= k < 5 && #[trigger] cjk_subsets()[k]@ == s.last()) {
            1nat
        } else {
            0nat
        }
    }
}

/// The findings about the subsets list itself: "menu" and "latin", order, CJK subsets.
pub open spec fn subset_list_problems(s: Seq<Seq<char>>) -> Seq<StatusView> {
    (if !s.contains("latin"@) && !s.contains("menu"@) {
        seq![plain(StatusCode::Fail, "missing"@, "Subsets \"menu\" and \"latin\" are mandatory, but but METADATA.pb is missing both"@)]
    } else if !s.contains("latin"@) {
        seq![plain(StatusCode::Fail, "missing"@, "Subsets \"menu\" and \"latin\" are mandatory, but but METADATA.pb is missing latin"@)]
    } else if !s.contains("menu"@) {
        seq![plain(StatusCode::Fail, "missing"@, "Subsets \"menu\" and \"latin\" are mandatory, but but METADATA.pb is missing menu"@)]
    } else {
        Seq::empty()
    }) + only_if(!in_order(s), plain(StatusCode::Fail, "not-sorted"@, "Subsets are not in order"@))
        + only_if(
        cjk_subset_count(s) > 1,
        StatusView {
            severity: StatusCode::Error,
            code: Some("multiple-cjk-subsets"@),
            message: Some("METADATA.pb file contains more than one CJK subset. Please choose only one from chinese-hongkong, chinese-simplified, chinese-traditional, korean, japanese."@),
            metadata: None,
        },
    )
}

/// The code points every script subset shares, which do not count towards support.
pub open spec fn common_codepoints() -> Seq<u32> {
    seq![0x0000u32, 0x000d, 0x0020, 0x002d, 0x00a0, 0x25cc, 0x200c, 0x200d, 0x0964, 0x0965]
}

/// Whether a code point counts towards the support of a subset: it is not a common one, and
/// for "khmer" not a Latin one.
pub open spec fn counts_for(name: Seq<char>, x: u32, latin: Seq<u32>) -> bool {
    !common_codepoints().contains(x) && !(name == "khmer"@ && latin.contains(x))
}

/// The code points that count towards the support of a subset, once each.
pub open spec fn subset_points(name: Seq<char>, cps: Seq<u32>, latin: Seq<u32>) -> Seq<u32>
    decreases cps.len(),
{
    if cps.len() == 0 {
        Seq::empty()
    } else {
        let prev = subset_points(name, cps.drop_last(), latin);
        let x = cps.last();
        if counts_for(name, x, latin) && !prev.contains(x) {
            prev.push(x)
        } else {
            prev
        }
    }
}

/// How many of the code points the font maps.
pub open spec fn covered_count(points: Seq<u32>, font: Seq<u32>) -> nat
    decreases points.len(),
{
    if points.len() == 0 {
        0
    } else {
        covered_count(points.drop_last(), font) + if font.contains(points.last()) {
            1nat
        } else {
            0nat
        }
    }
}

/// The share of a subset a font must support, as a numerator and a denominator: a fifth for
/// "-ext" subsets, two fifths for "devanagari", half otherwise.
pub open spec fn required_share(name: Seq<char>) -> (nat, nat) {
    if crate::text::ends_with(name, "-ext"@) {
        (1, 5)
    } else if name == "devanagari"@ {
        (2, 5)
    } else {
        (1, 2)
    }
}

/// The required share as a percentage, written out.
pub open spec fn required_percent(name: Seq<char>) -> Seq<char> {
    if crate::text::ends_with(name, "-ext"@) {
        "20"@
    } else if name == "devanagari"@ {
        "40"@
    } else {
        "50"@
    }
}

/// The findings about one subset of the table: it should be added, or removed.
pub open spec fn subset_support_problems(declared: Seq<Seq<char>>, font: Seq<u32>, name: Seq<char>, cps: Seq<u32>, latin: Seq<u32>) -> Seq<StatusView> {
    let pts = subset_points(name, cps, latin);
    let total = pts.len();
    let covered = covered_count(pts, font);
    let (num, den) = required_share(name);
    let meets = covered * den >= total * num;
    if total == 0 {
        Seq::empty()
    } else if meets && !declared.contains(name) {
        seq![plain(StatusCode::Warn, "missing-subset"@,
            "Please add '"@ + name + "' to METADATA.pb since more than "@ + required_percent(name)
                + "% of its glyphs are supported by this font file."@)]
    } else if !meets && declared.contains(name) {
        if covered == 0 {
            seq![plain(StatusCode::Fail, "unsupported-subset"@,
                "Please remove '"@ + name + "' from METADATA.pb since none of its glyphs are supported by this font file."@)]
        } else {
            seq![plain(StatusCode::Warn, "unsupported-subset"@,
                "Please remove '"@ + name + "' from METADATA.pb since less than "@ + required_percent(name)
                    + "% of its glyphs are supported by this font file."@)]
        }
    } else {
        Seq::empty()
    }
}

/// The findings about each subset of the table, in the table's order.
pub open spec fn table_problems(declared: Seq<Seq<char>>, font: Seq<u32>, table: Seq<(Seq<char>, Seq<u32>)>, latin: Seq<u32>) -> Seq<StatusView>
    decreases table.len(),
{
    if table.len() == 0 {
        Seq::empty()
    } else {
        table_problems(declared, font, table.drop_last(), latin) + subset_support_problems(
            declared,
            font,
            table.last().0,
            table.last().1,
            latin,
        )
    }
}

/// Whether the table has a subset of that name.
pub open spec fn table_has(table: Seq<(Seq<char>, Seq<u32>)>, name: Seq<char>) -> bool {
    exists|k: int| 0 <= k < table.len() && #[trigger] table[k].0 == name
}

/// The failures for the declared subsets the table does not know (other than "menu").
pub open spec fn unknown_subset_problems(declared: Seq<Seq<char>>, table: Seq<(Seq<char>, Seq<u32>)>) -> Seq<StatusView>
    decreases declared.len(),
{
    if declared.len() == 0 {
        Seq::empty()
    } else {
        let s = declared.last();
        unknown_subset_problems(declared.drop_last(), table) + only_if(
            !table_has(table, s) && s != "menu"@,
            plain(StatusCode::Fail, "unknown-subset"@,
                "Please remove the unrecognized subset '"@ + s + "' from the METADATA.pb file."@),
        )
    }
}

/// What the subsets check finds in a family, given the subsets table (each subset's name and
/// code points) and the Latin code points.
pub open spec fn subsets_correct_outcome(ts: Seq<Testable>, table: Seq<(Seq<char>, Seq<u32>)>, latin: Seq<u32>) -> Result<Seq<StatusView>, ErrorView> {
    match find_file(ts, "METADATA.pb"@) {
        None => Err(ErrorView::Skip("no-mdpb"@, "No METADATA.pb file found"@)),
        Some(mi) => match family_of(ts[mi].contents@) {
            Err(e) => Err(e),
            Ok(m) => match first_listed_font(ts, m.font_files) {
                None => Err(ErrorView::Skip("no-fonts"@, "No font files found in METADATA.pb"@)),
                Some(fi) => {
                    let f = ts[fi];
                    if !(crate::font::is_font_path(f.filename@) && crate::font::spec_is_font(f.contents@)) {
                        Err(crate::outcome::not_a_font())
                    } else {
                        let font = crate::font::spec_codepoints(f.contents@);
                        Ok(result_of(subset_list_problems(m.subsets) + table_problems(m.subsets, font, table, latin)
                            + unknown_subset_problems(m.subsets, table)))
                    }
                },
            },
        },
    }
}

} // verus!

verus! {

fn text_less(a: &str, b: &str) -> (r: bool)
    ensures
        r == text_before(a@, b@),
{
    let x = crate::text::chars_of(a);
    let y = crate::text::chars_of(b);
    let mut i: usize = 0;
    assert(x@.skip(0) =~= x@);
    assert(y@.skip(0) =~= y@);
    while i < x.len() && i < y.len()
        invariant
            x@ == a@,
            y@ == b@,
            i <= x.len(),
            i <= y.len(),
            text_before(a@, b@) == text_before(x@.skip(i as int), y@.skip(i as int)),
        decreases x.len() - i,
    {
        assert(x@.skip(i as int)[0] == x@[i as int]);
        assert(y@.skip(i as int)[0] == y@[i as int]);
        assert(x@.skip(i as int).drop_first() =~= x@.skip(i + 1));
        assert(y@.skip(i as int).drop_first() =~= y@.skip(i + 1));
        if (x[i] as u32) < (y[i] as u32) {
            return true;
        }
        if (x[i] as u32) > (y[i] as u32) {
            return false;
        }
        i = i + 1;
    }
    i == x.len() && i < y.len()
}

fn texts_in_order(s: &Vec<String>) -> (r: bool)
    ensures
        r == in_order(s@.map_values(|t: String| t@)),
{
    let ghost v = s@.map_values(|t: String| t@);
    if s.len() == 0 {
        return true;
    }
    let mut i: usize = 0;
    while i + 1 < s.len()
        invariant
            v == s@.map_values(|t: String| t@),
            i + 1 <= s.len(),
            forall|k: int| 0 <= k < i ==> !text_before(#[trigger] v[k + 1], v[k]),
        decreases s.len() - i,
    {
        if text_less(s[i + 1].as_str(), s[i].as_str()) {
            assert(text_before(v[i + 1], v[i as int]));
            return false;
        }
        i = i + 1;
    }
    true
}

/// Whether one of the texts equals `t`.
pub fn texts_contain(s: &Vec<String>, t: &str) -> (r: bool)
    ensures
        r == s@.map_values(|x: String| x@).contains(t@),
{
    let ghost v = s@.map_values(|x: String| x@);
    let mut i: usize = 0;
    while i < s.len()
        invariant
            v == s@.map_values(|x: String| x@),
            i <= s.len(),
            forall|k: int| 0 <= k < i ==> v[k] != t@,
        decreases s.len() - i,
    {
        if str_eq(s[i].as_str(), t) {
            assert(v[i as int] == t@);
            return true;
        }
        i = i + 1;
    }
    false
}

fn is_cjk_subset(s: &str) -> (r: bool)
    ensures
        r == exists|k: int| 0 <= k < 5 && #[trigger] cjk_subsets()[k]@ == s@,
{
    let names = vec!["chinese-hongkong", "chinese-simplified", "chinese-traditional", "korean", "japanese"];
    assert(names@ == cjk_subsets());
    let mut i: usize = 0;
    while i < names.len()
        invariant
            names@ == cjk_subsets(),
            i <= names.len(),
            forall|k: int| 0 <= k < i ==> #[trigger] cjk_subsets()[k]@ != s@,
        decreases names.len() - i,
    {
        if str_eq(names[i], s) {
            assert(cjk_subsets()[i as int]@ == s@);
            return true;
        }
        i = i + 1;
    }
    false
}

/// The findings about a subsets list itself.
pub fn subset_list_findings(s: &Vec<String>) -> (r: Vec<Status>)
    ensures
        views(r@) == subset_list_problems(s@.map_values(|x: String| x@)),
{
    let ghost v = s@.map_values(|x: String| x@);
    let mut p: Vec<Status> = Vec::new();
    let latin = texts_contain(s, "latin");
    let menu = texts_contain(s, "menu");
    if !latin && !menu {
        p.push(Status::new(StatusCode::Fail, "missing", "Subsets \"menu\" and \"latin\" are mandatory, but but METADATA.pb is missing both"));
    } else if !latin {
        p.push(Status::new(StatusCode::Fail, "missing", "Subsets \"menu\" and \"latin\" are mandatory, but but METADATA.pb is missing latin"));
    } else if !menu {
        p.push(Status::new(StatusCode::Fail, "missing", "Subsets \"menu\" and \"latin\" are mandatory, but but METADATA.pb is missing menu"));
    }
    let ghost first = views(p@);
    push_when(&mut p, !texts_in_order(s), Status::new(StatusCode::Fail, "not-sorted", "Subsets are not in order"));
    let mut n: usize = 0;
    for i in 0..s.len()
        invariant
            v == s@.map_values(|x: String| x@),
            n == cjk_subset_count(v.take(i as int)),
            n <= i,
    {
        assert(v.take(i + 1).drop_last() =~= v.take(i as int));
        if is_cjk_subset(s[i].as_str()) {
            n = n + 1;
        }
    }
    assert(v.take(s.len() as int) =~= v);
    push_when(&mut p, n > 1, Status {
        message: Some(code_string("METADATA.pb file contains more than one CJK subset. Please choose only one from chinese-hongkong, chinese-simplified, chinese-traditional, korean, japanese.")),
        severity: StatusCode::Error,
        code: Some(code_string("multiple-cjk-subsets")),
        metadata: None,
    });
    assert(views(p@) =~= subset_list_problems(v));
    p
}

fn is_common(x: u32) -> (r: bool)
    ensures
        r == common_codepoints().contains(x),
{
    let c: Vec<u32> = vec![0x0000u32, 0x000d, 0x0020, 0x002d, 0x00a0, 0x25cc, 0x200c, 0x200d, 0x0964, 0x0965];
    assert(c@ == common_codepoints());
    let mut i: usize = 0;
    while i < c.len()
        invariant
            c@ == common_codepoints(),
            i <= c.len(),
            forall|k: int| 0 <= k < i ==> c@[k] != x,
        decreases c.len() - i,
    {
        if c[i] == x {
            assert(c@[i as int] == x);
            return true;
        }
        i = i + 1;
    }
    false
}

fn push_percent(m: &mut String, name: &str)
    ensures
        final(m)@ == old(m)@ + required_percent(name@),
{
    if crate::text::str_ends_with(name, "-ext") {
        push_str(m, "20");
    } else if str_eq(name, "devanagari") {
        push_str(m, "40");
    } else {
        push_str(m, "50");
    }
}

/// The code points that count towards a subset's support, once each, and how many of them the
/// font maps.
fn count_support(
    name: &str,
    cps: &Vec<u32>,
    latin: &Vec<u32>,
    latin_set: &std::collections::HashSet<u32>,
    font: &Vec<u32>,
    font_set: &std::collections::HashSet<u32>,
) -> (r: (usize, usize))
    requires
        latin_set@ == latin@.to_set(),
        font_set@ == font@.to_set(),
    ensures
        r.0 == subset_points(name@, cps@, latin@).len(),
        r.1 == covered_count(subset_points(name@, cps@, latin@), font@),
{
    broadcast use vstd::std_specs::hash::group_hash_axioms;
    let khmer = str_eq(name, "khmer");
    let mut seen: std::collections::HashSet<u32> = std::collections::HashSet::new();
    let mut pts: Vec<u32> = Vec::new();
    let mut covered: usize = 0;
    for i in 0..cps.len()
        invariant
            latin_set@ == latin@.to_set(),
            font_set@ == font@.to_set(),
            khmer == (name@ == "khmer"@),
            pts@ == subset_points(name@, cps@.take(i as int), latin@),
            seen@ == pts@.to_set(),
            covered == covered_count(pts@, font@),
            covered <= pts@.len(),
            pts@.len() <= i,
    {
        assert(cps@.take(i + 1).drop_last() =~= cps@.take(i as int));
        let x = cps[i];
        let counts = !is_common(x) && !(khmer && latin_set.contains(&x));
        if counts && !seen.contains(&x) {
            proof {
                pts@.lemma_push_to_set_commute(x);
                assert(pts@.push(x).drop_last() =~= pts@);
            }
            pts.push(x);
            seen.insert(x);
            if font_set.contains(&x) {
                covered = covered + 1;
            }
        }
    }
    assert(cps@.take(cps.len() as int) =~= cps@);
    (pts.len(), covered)
}

/// The findings about one subset: whether it should be added to, or removed from, the
/// declared subsets.
fn support_findings(
    declared: &Vec<String>,
    name: &str,
    cps: &Vec<u32>,
    latin: &Vec<u32>,
    latin_set: &std::collections::HashSet<u32>,
    font: &Vec<u32>,
    font_set: &std::collections::HashSet<u32>,
) -> (r: Vec<Status>)
    requires
        latin_set@ == latin@.to_set(),
        font_set@ == font@.to_set(),
    ensures
        views(r@) == subset_support_problems(declared@.map_values(|x: String| x@), font@, name@, cps@, latin@),
{
    let (total, covered) = count_support(name, cps, latin, latin_set, font, font_set);
    let (num, den): (usize, usize) = if crate::text::str_ends_with(name, "-ext") {
        (1, 5)
    } else if str_eq(name, "devanagari") {
        (2, 5)
    } else {
        (1, 2)
    };
    let mut p: Vec<Status> = Vec::new();
    if total == 0 {
        return p;
    }
    let c = covered as u128;
    let t = total as u128;
    let d = den as u128;
    let n = num as u128;
    assert(c * d <= 0xffff_ffff_ffff_ffffu128 * 5) by (nonlinear_arith)
        requires
            c <= 0xffff_ffff_ffff_ffffu128,
            d <= 5,
    ;
    assert(t * n <= 0xffff_ffff_ffff_ffffu128 * 5) by (nonlinear_arith)
        requires
            t <= 0xffff_ffff_ffff_ffffu128,
            n <= 5,
    ;
    let meets = c * d >= t * n;
    let declared_here = texts_contain(declared, name);
    if meets && !declared_here {
        let mut m = String::from_str("Please add '");
        push_str(&mut m, name);
        push_str(&mut m, "' to METADATA.pb since more than ");
        push_percent(&mut m, name);
        push_str(&mut m, "% of its glyphs are supported by this font file.");
        p.push(Status::with_message(StatusCode::Warn, "missing-subset", m));
    } else if !meets && declared_here {
        if covered == 0 {
            let mut m = String::from_str("Please remove '");
            push_str(&mut m, name);
            push_str(&mut m, "' from METADATA.pb since none of its glyphs are supported by this font file.");
            p.push(Status::with_message(StatusCode::Fail, "unsupported-subset", m));
        } else {
            let mut m = String::from_str("Please remove '");
            push_str(&mut m, name);
            push_str(&mut m, "' from METADATA.pb since less than ");
            push_percent(&mut m, name);
            push_str(&mut m, "% of its glyphs are supported by this font file.");
            p.push(Status::with_message(StatusCode::Warn, "unsupported-subset", m));
        }
    }
    assert(views(p@) =~= subset_support_problems(declared@.map_values(|x: String| x@), font@, name@, cps@, latin@));
    p
}

} // verus!

verus! {

/// The texts and code points of a subsets table.
pub open spec fn table_view(table: Seq<(String, Vec<u32>)>) -> Seq<(Seq<char>, Seq<u32>)> {
    table.map_values(|e: (String, Vec<u32>)| (e.0@, e.1@))
}

fn first_font(ts: &Vec<Testable>, files: &Vec<Option<String>>) -> (r: Option<usize>)
    ensures
        match r {
            Some(i) => first_listed_font(ts@, files@.map_values(|o: Option<String>| opt_text(o))) == Some(i as int)
                && i < ts@.len(),
            None => first_listed_font(ts@, files@.map_values(|o: Option<String>| opt_text(o))) is None,
        },
{
    let ghost fv = files@.map_values(|o: Option<String>| opt_text(o));
    let mut k: usize = 0;
    assert(fv.skip(0) =~= fv);
    while k < files.len()
        invariant
            fv == files@.map_values(|o: Option<String>| opt_text(o)),
            k <= files.len(),
            first_listed_font(ts@, fv) == first_listed_font(ts@, fv.skip(k as int)),
        decreases files.len() - k,
    {
        assert(fv.skip(k as int).drop_first() =~= fv.skip(k + 1));
        assert(fv.skip(k as int)[0] == opt_text(files@[k as int]));
        if let Some(f) = &files[k] {
            if let Some(i) = get_file(ts, f.as_str()) {
                return Some(i);
            }
        }
        k = k + 1;
    }
    None
}

/// What the subsets check finds in a family, given the subsets table and the Latin code
/// points.
pub fn subsets_correct_with(
    c: &TestableCollection,
    table: &Vec<(String, Vec<u32>)>,
    latin: &Vec<u32>,
) -> (r: Result<Vec<Status>, CheckError>)
    ensures
        outcome(r) == subsets_correct_outcome(c.testables@, table_view(table@), latin@),
{
    let ts = &c.testables;
    let mi = match get_file(ts, "METADATA.pb") {
        Some(i) => i,
        None => return Err(skip("no-mdpb", "No METADATA.pb file found")),
    };
    let m = family_proto(&ts[mi])?;
    let fi = match first_font(ts, &m.font_files) {
        Some(i) => i,
        None => return Err(skip("no-fonts", "No font files found in METADATA.pb")),
    };
    let f = &ts[fi];
    if !(crate::font::font_path(f.filename.as_str()) && crate::font::is_font(f.contents.as_slice())) {
        return Err(crate::outcome::not_a_font_error());
    }
    let font = crate::font::read_codepoints(f.contents.as_slice());
    let font_set = crate::gf_fonts::set_of(&font);
    let latin_set = crate::gf_fonts::set_of(latin);
    let ghost declared = m.subsets@.map_values(|x: String| x@);
    let ghost tv = table_view(table@);
    let mut p = subset_list_findings(&m.subsets);
    let ghost first = views(p@);
    for k in 0..table.len()
        invariant
            declared == m.subsets@.map_values(|x: String| x@),
            tv == table_view(table@),
            font_set@ == font@.to_set(),
            latin_set@ == latin@.to_set(),
            views(p@) == first + table_problems(declared, font@, tv.take(k as int), latin@),
    {
        assert(tv.take(k + 1).drop_last() =~= tv.take(k as int));
        let found = support_findings(&m.subsets, table[k].0.as_str(), &table[k].1, latin, &latin_set, &font, &font_set);
        let ghost before = views(p@);
        let mut found = found;
        p.append(&mut found);
        assert(views(p@) =~= before + table_problems(declared, font@, tv.take(k + 1), latin@).skip(
            table_problems(declared, font@, tv.take(k as int), latin@).len() as int,
        ));
    }
    assert(tv.take(table.len() as int) =~= tv);
    let ghost second = views(p@);
    for k in 0..m.subsets.len()
        invariant
            declared == m.subsets@.map_values(|x: String| x@),
            tv == table_view(table@),
            views(p@) == second + unknown_subset_problems(declared.take(k as int), tv),
    {
        assert(declared.take(k + 1).drop_last() =~= declared.take(k as int));
        let s = m.subsets[k].as_str();
        let mut known = false;
        let mut j: usize = 0;
        while j < table.len()
            invariant
                tv == table_view(table@),
                j <= table.len(),
                known == exists|q: int| 0 <= q < j && #[trigger] tv[q].0 == s@,
            decreases table.len() - j,
        {
            if str_eq(table[j].0.as_str(), s) {
                assert(tv[j as int].0 == s@);
                known = true;
            }
            j = j + 1;
        }
        let mut msg = String::from_str("Please remove the unrecognized subset '");
        push_str(&mut msg, s);
        push_str(&mut msg, "' from the METADATA.pb file.");
        let menu = str_eq(s, "menu");
        let ghost before = views(p@);
        push_when(&mut p, !known && !menu, Status::with_message(StatusCode::Fail, "unknown-subset", msg));
        assert(views(p@) =~= second + unknown_subset_problems(declared.take(k + 1), tv));
    }
    assert(declared.take(m.subsets.len() as int) =~= declared);
    Ok(return_result(p))
}

/// The names in google-fonts-subsets's `SUBSETS`, in its order: its build script makes one
/// entry for each `*_unique-glyphs.nam` file of `Lib/gfsubsets/data`, named by the file's name
/// without that suffix, in the order of the file names (bytewise, as `glob` yields them).
pub open spec fn gf_subset_names() -> Seq<Seq<char>> {
    seq![
        "adlam"@, "ahom"@, "anatolian-hieroglyphs"@, "arabic"@, "armenian"@, "avestan"@,
        "balinese"@, "bamum"@, "bassa-vah"@, "batak"@, "bengali"@, "beria-erfe"@, "bhaiksuki"@,
        "brahmi"@, "braille"@, "buginese"@, "buhid"@, "canadian-aboriginal"@, "carian"@,
        "caucasian-albanian"@, "chakma"@, "cham"@, "cherokee"@, "chinese-hongkong"@,
        "chinese-simplified"@, "chinese-traditional"@, "chorasmian"@, "coptic"@, "cuneiform"@,
        "cypriot"@, "cypro-minoan"@, "cyrillic-ext"@, "cyrillic"@, "deseret"@, "devanagari"@,
        "dives-akuru"@, "dogra"@, "duployan"@, "egyptian-hieroglyphs"@, "elbasan"@, "elymaic"@,
        "ethiopic"@, "garay"@, "georgian"@, "glagolitic"@, "gothic"@, "grantha"@, "greek-ext"@,
        "greek"@, "gujarati"@, "gunjala-gondi"@, "gurmukhi"@, "gurung-khema"@,
        "hanifi-rohingya"@, "hanunoo"@, "hatran"@, "hebrew"@, "imperial-aramaic"@,
        "indic-siyaq-numbers"@, "inscriptional-pahlavi"@, "inscriptional-parthian"@,
        "japanese"@, "javanese"@, "kaithi"@, "kana-extended"@, "kannada"@, "kawi"@,
        "kayah-li"@, "kharoshthi"@, "khitan-small-script"@, "khmer"@, "khojki"@, "khudawadi"@,
        "kirat-rai"@, "korean"@, "lao"@, "latin-ext"@, "latin"@, "lepcha"@, "limbu"@,
        "linear-a"@, "linear-b"@, "lisu"@, "lycian"@, "lydian"@, "mahajani"@, "makasar"@,
        "malayalam"@, "mandaic"@, "manichaean"@, "marchen"@, "masaram-gondi"@, "math"@,
        "mayan-numerals"@, "medefaidrin"@, "meetei-mayek"@, "mende-kikakui"@,
        "meroitic-cursive"@, "meroitic-hieroglyphs"@, "meroitic"@, "miao"@, "modi"@,
        "mongolian"@, "mro"@, "multani"@, "music"@, "myanmar"@, "nabataean"@, "nag-mundari"@,
        "nandinagari"@, "new-tai-lue"@, "newa"@, "nko"@, "nushu"@, "nyiakeng-puachue-hmong"@,
        "ogham"@, "ol-chiki"@, "ol-onal"@, "old-hungarian"@, "old-italic"@,
        "old-north-arabian"@, "old-permic"@, "old-persian"@, "old-sogdian"@,
        "old-south-arabian"@, "old-turkic"@, "old-uyghur"@, "oriya"@, "osage"@, "osmanya"@,
        "ottoman-siyaq-numbers"@, "pahawh-hmong"@, "palmyrene"@, "pau-cin-hau"@, "phags-pa"@,
        "phoenician"@, "psalter-pahlavi"@, "rejang"@, "runic"@, "samaritan"@, "saurashtra"@,
        "sharada"@, "shavian"@, "siddham"@, "sidetic"@, "signwriting"@, "sinhala"@, "sogdian"@,
        "sora-sompeng"@, "soyombo"@, "sundanese"@, "sunuwar"@, "syloti-nagri"@, "symbols2"@,
        "symbols"@, "syriac"@, "tagalog"@, "tagbanwa"@, "tai-le"@, "tai-tham"@, "tai-viet"@,
        "tai-yo"@, "takri"@, "tamil-supplement"@, "tamil"@, "tangsa"@, "tangut"@, "telugu"@,
        "thaana"@, "thai"@, "tibetan"@, "tifinagh"@, "tirhuta"@, "todhri"@, "tolong-siki"@,
        "toto"@, "tulu-tigalari"@, "ugaritic"@, "vai"@, "vietnamese"@, "vithkuqi"@, "wancho"@,
        "warang-citi"@, "yezidi"@, "yi"@, "zanabazar-square"@, "znamenny"@
    ]
}

/// The code points of the subset at a position of google-fonts-subsets's `SUBSETS`.
pub uninterp spec fn spec_subset_codepoints_at(i: int) -> Seq<u32>;

/// The names of google-fonts-subsets's `SUBSETS`, in its order.
#[verifier::external_body]
fn subset_names() -> (r: Vec<String>)
    ensures
        r@.map_values(|n: String| n@) == gf_subset_names(),
{
    google_fonts_subsets::SUBSETS.iter().map(|(n, _)| n.to_string()).collect()
}

/// The code points of the subset at position `i` of google-fonts-subsets's `SUBSETS`. The
/// result is named.
#[verifier::external_body]
fn subset_codepoints_at(i: usize) -> (r: Vec<u32>)
    requires
        i < gf_subset_names().len(),
    ensures
        r@ == spec_subset_codepoints_at(i as int),
{
    google_fonts_subsets::SUBSETS[i].1.to_vec()
}

/// The subsets table of google-fonts-subsets: each subset's name and code points, in order.
pub open spec fn gf_subsets_table() -> Seq<(Seq<char>, Seq<u32>)> {
    Seq::new(gf_subset_names().len(), |i: int| (gf_subset_names()[i], spec_subset_codepoints_at(i)))
}

/// The position of the first entry of a list of names that is `name`, if any.
pub open spec fn first_named_at(names: Seq<Seq<char>>, name: Seq<char>) -> Option<int>
    decreases names.len(),
{
    if names.len() == 0 {
        None
    } else {
        match first_named_at(names.drop_last(), name) {
            Some(i) => Some(i),
            None => if names.last() == name {
                Some(names.len() - 1)
            } else {
                None
            },
        }
    }
}

/// The code points of the `latin` subset of google-fonts-subsets (its `LATIN` is the array of
/// that entry of `SUBSETS`), or none if the table had no such entry.
pub open spec fn gf_latin() -> Seq<u32> {
    match first_named_at(gf_subset_names(), "latin"@) {
        Some(i) => spec_subset_codepoints_at(i),
        None => Seq::empty(),
    }
}

/// Reads the subsets table of google-fonts-subsets.
fn gf_subsets() -> (r: Vec<(String, Vec<u32>)>)
    ensures
        table_view(r@) == gf_subsets_table(),
{
    let names = subset_names();
    assert(names@.map_values(|n: String| n@).len() == names@.len());
    let mut r: Vec<(String, Vec<u32>)> = Vec::new();
    for i in 0..names.len()
        invariant
            names@.map_values(|n: String| n@) == gf_subset_names(),
            names@.len() == gf_subset_names().len(),
            r@.len() == i,
            table_view(r@) == gf_subsets_table().take(i as int),
    {
        assert(names@.map_values(|n: String| n@)[i as int] == names@[i as int]@);
        let cps = subset_codepoints_at(i);
        let ghost before = r@;
        r.push((names[i].clone(), cps));
        assert(r@ == before.push(r@[i as int]));
        assert(table_view(r@)[i as int] == (r@[i as int].0@, r@[i as int].1@));
        assert(gf_subsets_table()[i as int] == (gf_subset_names()[i as int], spec_subset_codepoints_at(i as int)));
        assert forall|k: int| 0 <= k < i implies table_view(r@)[k] == table_view(before)[k] by {
            assert(r@[k] == before[k]);
        }
        assert(table_view(r@) =~= gf_subsets_table().take(i + 1));
    }
    assert(gf_subsets_table().take(names.len() as int) =~= gf_subsets_table());
    r
}

/// The code points of the `latin` subset of google-fonts-subsets.
fn latin_codepoints(table: &Vec<(String, Vec<u32>)>) -> (r: Vec<u32>)
    requires
        table_view(table@) == gf_subsets_table(),
    ensures
        r@ == gf_latin(),
{
    let ghost names = gf_subset_names();
    assert(table_view(table@).len() == table@.len());
    assert(gf_subsets_table().len() == names.len());
    let mut i: usize = 0;
    while i < table.len()
        invariant
            table_view(table@) == gf_subsets_table(),
            names == gf_subset_names(),
            table@.len() == names.len(),
            i <= table@.len(),
            first_named_at(names.take(i as int), "latin"@) is None,
        decreases table.len() - i,
    {
        assert(table_view(table@)[i as int] == (table@[i as int].0@, table@[i as int].1@));
        assert(gf_subsets_table()[i as int] == (names[i as int], spec_subset_codepoints_at(i as int)));
        assert(names.take(i + 1).drop_last() =~= names.take(i as int));
        if str_eq(table[i].0.as_str(), "latin") {
            proof {
                lemma_first_named_prefix(names, "latin"@, i as int);
            }
            return table[i].1.clone();
        }
        i = i + 1;
    }
    proof {
        assert(names.take(i as int) =~= names);
    }
    Vec::new()
}

proof fn lemma_first_named_prefix(names: Seq<Seq<char>>, name: Seq<char>, i: int)
    requires
        0 <= i < names.len(),
        names[i] == name,
        first_named_at(names.take(i), name) is None,
    ensures
        first_named_at(names, name) == Some(i),
    decreases names.len(),
{
    if i < names.len() - 1 {
        assert(names.drop_last().take(i) =~= names.take(i));
        lemma_first_named_prefix(names.drop_last(), name, i);
    } else {
        assert(names.drop_last() =~= names.take(i));
    }
}

/// Checks the subsets of METADATA.pb against the code points of the family's first listed font,
/// using the subsets table of google-fonts-subsets.
pub fn subsets_correct(c: &TestableCollection, _context: &Context) -> (r: Result<Vec<Status>, CheckError>)
    ensures
        outcome(r) == subsets_correct_outcome(c.testables@, gf_subsets_table(), gf_latin()),
{
    let table = gf_subsets();
    let latin = latin_codepoints(&table);
    subsets_correct_with(c, &table, &latin)
}

} // verus!
