//! Checks of the Google Fonts profile that look at text: descriptions, family names,
//! METADATA.pb fields and file names.
use vstd::prelude::*;
use crate::config::Context;
use crate::outcome::{ErrorView, outcome};
use crate::status::{CheckError, Status, StatusCode, StatusView, opt_text, passed, plain, result_of, return_result, views};
use crate::testable::{Testable, TestableCollection, file_name, parent, spec_file_name, spec_parent};
use crate::text::{chars_of, push_str, str_eq};
use crate::words::{Splitter, contains_word, has_word, strip_html_tags as strip_chars, stripped};

verus! {

/// The word the description must not use.
pub open spec fn free_word() -> Seq<char> {
    seq!['f', 'r', 'e', 'e']
}

/// Whether the text contains "free" as a word, in any ASCII case; words are the runs of
/// alphanumeric characters.
pub fn contains_word_free(text: &str) -> (r: bool)
    ensures
        r == has_word(Splitter::NonAlphanumeric, true, text@, free_word()),
{
    let t = chars_of(text);
    let target = vec!['f', 'r', 'e', 'e'];
    assert(target@ == free_word());
    contains_word(Splitter::NonAlphanumeric, true, &t, &target)
}

/// The text with its HTML tags removed.
pub fn strip_html_tags(html: &str) -> (r: String)
    ensures
        r@ == stripped(html@),
{
    let t = chars_of(html);
    strip_chars(&t)
}

/// What std's `String::from_utf8_lossy` gives for some bytes.
pub uninterp spec fn spec_utf8_lossy(b: Seq<u8>) -> Seq<char>;

/// `String::from_utf8_lossy` from std: the bytes read as UTF-8, each invalid sequence replaced by
/// U+FFFD. Its result is named, not stated.
#[verifier::external_body]
pub(crate) fn utf8_lossy(b: &[u8]) -> (r: String)
    ensures
        r@ == spec_utf8_lossy(b@),
{
    String::from_utf8_lossy(b).into_owned()
}

/// The finding about a description's text.
pub open spec fn no_free_word_status(text: Seq<char>) -> StatusView {
    if has_word(Splitter::NonAlphanumeric, true, stripped(text), free_word()) {
        plain(
            StatusCode::Warn,
            "free-in-description"@,
            "The description contains the word 'free'. All Google Fonts are libre/free, so this is redundant."@,
        )
    } else {
        passed()
    }
}

/// Warns when a description file uses the word "free" outside its HTML tags.
pub fn no_free_word(desc: &Testable, _context: &Context) -> (r: Result<Vec<Status>, CheckError>)
    ensures
        outcome(r) == Ok::<Seq<StatusView>, ErrorView>(seq![no_free_word_status(spec_utf8_lossy(desc.contents@))]),
{
    let html = utf8_lossy(desc.contents.as_slice());
    let text = strip_html_tags(html.as_str());
    let mut out: Vec<Status> = Vec::new();
    if contains_word_free(text.as_str()) {
        out.push(
            Status::new(
                StatusCode::Warn,
                "free-in-description",
                "The description contains the word 'free'. All Google Fonts are libre/free, so this is redundant.",
            ),
        );
    } else {
        out.push(Status::pass());
    }
    assert(views(out@) =~= seq![out@[0]@]);
    Ok(out)
}

/// The token a family name must not contain.
pub open spec fn vf_word() -> Seq<char> {
    seq!['V', 'F']
}

/// Whether the name contains "VF" as a whole word; words are the runs of characters other than
/// white space.
pub fn contains_vf(name: &str) -> (r: bool)
    ensures
        r == has_word(Splitter::Whitespace, false, name@, vf_word()),
{
    let t = chars_of(name);
    let target = vec!['V', 'F'];
    assert(target@ == vf_word());
    contains_word(Splitter::Whitespace, false, &t, &target)
}

/// The licenses METADATA.pb may name.
pub open spec fn license_is_valid(license: Seq<char>) -> bool {
    license == "APACHE2"@ || license == "UFL"@ || license == "OFL"@
}

/// The finding about the license field of METADATA.pb.
pub open spec fn license_status(license: Seq<char>) -> StatusView {
    if license_is_valid(license) {
        passed()
    } else {
        plain(
            StatusCode::Fail,
            "bad-license"@,
            "'METADATA.pb license field (\""@ + license
                + "\") must be \"APACHE2\", \"UFL\" or \"OFL\"."@,
        )
    }
}

/// The findings about a METADATA.pb license field: a failure unless it is "APACHE2", "UFL"
/// or "OFL".
pub fn license_findings(field: &str) -> (r: Vec<Status>)
    ensures
        views(r@) == seq![license_status(field@)],
{
    let mut out: Vec<Status> = Vec::new();
    if !str_eq(field, "APACHE2") && !str_eq(field, "UFL") && !str_eq(field, "OFL") {
        let mut msg = String::from_str("'METADATA.pb license field (\"");
        push_str(&mut msg, field);
        push_str(&mut msg, "\") must be \"APACHE2\", \"UFL\" or \"OFL\".");
        out.push(Status::with_message(StatusCode::Fail, "bad-license", msg));
    } else {
        out.push(Status::pass());
    }
    assert(views(out@) =~= seq![out@[0]@]);
    out
}

/// The strokes METADATA.pb may name.
pub open spec fn stroke_is_valid(s: Seq<char>) -> bool {
    s == "Serif"@ || s == "Slab Serif"@ || s == "Sans Serif"@
}

/// The classifications METADATA.pb may name.
pub open spec fn classification_is_valid(s: Seq<char>) -> bool {
    s == "Display"@ || s == "Handwriting"@ || s == "Monospace"@ || s == "Symbols"@
}

/// The failure for an unknown stroke.
pub open spec fn bad_stroke(s: Seq<char>) -> StatusView {
    plain(
        StatusCode::Fail,
        "invalid-stroke"@,
        "METADATA.pb stroke field contains invalid value '"@ + s
            + "'. Valid values are: Serif, Slab Serif, Sans Serif"@,
    )
}

/// The failure for an unknown classification.
pub open spec fn bad_classification(s: Seq<char>) -> StatusView {
    plain(
        StatusCode::Fail,
        "invalid-classification"@,
        "METADATA.pb classifications field contains invalid value '"@ + s
            + "'. Valid values are: Display, Handwriting, Monospace, Symbols"@,
    )
}

/// The failures for unknown classifications, in order.
pub open spec fn classification_problems(cs: Seq<Seq<char>>) -> Seq<StatusView>
    decreases cs.len(),
{
    if cs.len() == 0 {
        Seq::empty()
    } else if classification_is_valid(cs.last()) {
        classification_problems(cs.drop_last())
    } else {
        classification_problems(cs.drop_last()).push(bad_classification(cs.last()))
    }
}

/// The findings about the stroke and classifications of METADATA.pb.
pub open spec fn strokes_and_classifications_status(
    stroke: Option<Seq<char>>,
    classifications: Seq<Seq<char>>,
) -> Seq<StatusView> {
    result_of(
        (match stroke {
            Some(s) => if s.len() > 0 && !stroke_is_valid(s) {
                seq![bad_stroke(s)]
            } else {
                Seq::empty()
            },
            None => Seq::empty(),
        }) + classification_problems(classifications),
    )
}

/// Fails for a stroke other than "Serif", "Slab Serif" or "Sans Serif" (an empty stroke is
/// allowed), and for each classification other than "Display", "Handwriting", "Monospace" or
/// "Symbols".
pub fn stroke_and_classification_findings(stroke: &Option<String>, classifications: &Vec<String>) -> (r: Vec<Status>)
    ensures
        views(r@) == strokes_and_classifications_status(
            opt_text(*stroke),
            classifications@.map_values(|c: String| c@),
        ),
{
    let mut statuses: Vec<Status> = Vec::new();
    if let Some(s) = stroke {
        let st = s.as_str();
        if !st.is_empty() && !str_eq(st, "Serif") && !str_eq(st, "Slab Serif") && !str_eq(st, "Sans Serif") {
            let mut msg = String::from_str("METADATA.pb stroke field contains invalid value '");
            push_str(&mut msg, st);
            push_str(&mut msg, "'. Valid values are: Serif, Slab Serif, Sans Serif");
            statuses.push(Status::with_message(StatusCode::Fail, "invalid-stroke", msg));
        }
    }
    let ghost first = views(statuses@);
    for i in 0..classifications.len()
        invariant
            views(statuses@) == first + classification_problems(
                classifications@.take(i as int).map_values(|c: String| c@),
            ),
    {
        let c = classifications[i].as_str();
        proof {
            assert(classifications@.take(i + 1).map_values(|c: String| c@).drop_last()
                =~= classifications@.take(i as int).map_values(|c: String| c@));
        }
        if !str_eq(c, "Display") && !str_eq(c, "Handwriting") && !str_eq(c, "Monospace") && !str_eq(c, "Symbols") {
            let mut msg = String::from_str(
                "METADATA.pb classifications field contains invalid value '",
            );
            push_str(&mut msg, c);
            push_str(&mut msg, "'. Valid values are: Display, Handwriting, Monospace, Symbols");
            let ghost before = views(statuses@);
            statuses.push(Status::with_message(StatusCode::Fail, "invalid-classification", msg));
            assert(views(statuses@) =~= before.push(statuses@.last()@));
        }
    }
    assert(classifications@.take(classifications.len() as int) =~= classifications@);
    proof {
        let sv = opt_text(*stroke);
        let head: Seq<StatusView> = match sv {
            Some(s) => if s.len() > 0 && !stroke_is_valid(s) {
                seq![bad_stroke(s)]
            } else {
                Seq::empty()
            },
            None => Seq::empty(),
        };
        assert(first =~= head);
    }
    return_result(statuses)
}

/// Whether a file name is ASCII.
pub open spec fn is_ascii_name(n: Seq<char>) -> bool {
    forall|i: int| 0 <= i < n.len() ==> (n[i] as u32) < 128
}

/// The failure for a file name that is not ASCII.
pub open spec fn non_ascii_problem(name: Seq<char>) -> StatusView {
    plain(StatusCode::Fail, "non-ascii-filename"@, "Non-ASCII filename: '"@ + name + "'"@)
}

/// The failures for the non-ASCII file names among the given paths, in order.
pub open spec fn non_ascii_problems(paths: Seq<Seq<char>>) -> Seq<StatusView>
    decreases paths.len(),
{
    if paths.len() == 0 {
        Seq::empty()
    } else {
        let prev = non_ascii_problems(paths.drop_last());
        match spec_file_name(paths.last()) {
            Some(n) => if is_ascii_name(n) {
                prev
            } else {
                prev.push(non_ascii_problem(n))
            },
            None => prev,
        }
    }
}

fn name_is_ascii(n: &str) -> (r: bool)
    ensures
        r == is_ascii_name(n@),
{
    let cs = chars_of(n);
    let mut i: usize = 0;
    while i < cs.len()
        invariant
            cs@ == n@,
            i <= cs.len(),
            forall|k: int| 0 <= k < i ==> (cs@[k] as u32) < 128,
        decreases cs.len() - i,
    {
        if (cs[i] as u32) >= 128 {
            return false;
        }
        i = i + 1;
    }
    true
}

/// The paths of the files of a collection.
pub open spec fn collection_paths(c: TestableCollection) -> Seq<Seq<char>> {
    c.testables@.map_values(|t: Testable| t.filename@)
}

/// Fails for each file of the collection whose name is not ASCII.
pub fn ascii_filenames(c: &TestableCollection, _context: &Context) -> (r: Result<Vec<Status>, CheckError>)
    ensures
        outcome(r) == Ok::<Seq<StatusView>, ErrorView>(result_of(non_ascii_problems(collection_paths(*c)))),
{
    let mut problems: Vec<Status> = Vec::new();
    for i in 0..c.testables.len()
        invariant
            views(problems@) == non_ascii_problems(collection_paths(*c).take(i as int)),
    {
        proof {
            assert(collection_paths(*c).take(i + 1).drop_last() =~= collection_paths(*c).take(
                i as int,
            ));
        }
        if let Some(name) = c.testables[i].basename() {
            if !name_is_ascii(name.as_str()) {
                let mut msg = String::from_str("Non-ASCII filename: '");
                push_str(&mut msg, name.as_str());
                push_str(&mut msg, "'");
                let ghost before = views(problems@);
                problems.push(Status::with_message(StatusCode::Fail, "non-ascii-filename", msg));
                assert(views(problems@) =~= before.push(problems@.last()@));
            }
        }
    }
    assert(collection_paths(*c).take(c.testables.len() as int) =~= collection_paths(*c));
    Ok(return_result(problems))
}

/// The name of the directory two levels above a path, when there is one.
pub open spec fn grandparent_of(path: Seq<char>) -> Option<Seq<char>> {
    match spec_parent(path) {
        None => None,
        Some(p) => match spec_parent(p) {
            None => None,
            Some(g) => spec_file_name(g),
        },
    }
}

/// Whether the first file of a collection lies two levels below a directory named "ofl",
/// "apache" or "ufl", as in the google/fonts repository.
pub open spec fn seems_like_gf_repo_spec(paths: Seq<Seq<char>>) -> bool {
    paths.len() > 0 && match grandparent_of(paths[0]) {
        Some(n) => n == "ofl"@ || n == "apache"@ || n == "ufl"@,
        None => false,
    }
}

/// Whether a collection seems to come from the google/fonts repository.
pub fn seems_like_gf_repo(c: &TestableCollection) -> (r: bool)
    ensures
        r == seems_like_gf_repo_spec(collection_paths(*c)),
{
    if c.testables.len() == 0 {
        return false;
    }
    let p = match parent(c.testables[0].filename.as_str()) {
        Some(p) => p,
        None => return false,
    };
    let g = match parent(p.as_str()) {
        Some(g) => g,
        None => return false,
    };
    match file_name(g.as_str()) {
        Some(n) => str_eq(n.as_str(), "ofl") || str_eq(n.as_str(), "apache") || str_eq(
            n.as_str(),
            "ufl",
        ),
        None => false,
    }
}

} // verus!
