//! Helpers for testing checks: test file paths, running a check with a configuration, and
//! questions about its result.
use vstd::prelude::*;
use crate::check::{Check, TestableType, applies, family_outcome, file_outcome, result_view};
use crate::outcome::{ErrorView, findings};
use crate::config::{ConfigValue, Context};
use crate::result::{CheckResult, severities};
use crate::status::{StatusCode, opt_text, worst_of};
use crate::testable::Testable;
use crate::text::{chars_of, contains, push_char, push_str, str_contains};
use crate::font::{
    NameEntry, NameRecordView, name_entry_views, read_glyph_names, read_mappings, read_name_records,
    rebuild_with_cmap, rebuild_with_names, spec_glyph_names, spec_mappings, spec_name_records,
    spec_with_cmap, spec_with_names,
};
use crate::status::CheckError;
use crate::outcome::unreadable;

verus! {

/// Joining a name onto a path, as `Path::join` does on Unix: an absolute name (one that
/// starts with `/`) replaces the path; otherwise the name follows the path, with a `/` between
/// them unless the path is empty or already ends with one.
pub open spec fn joined_path(base: Seq<char>, name: Seq<char>) -> Seq<char> {
    if name.len() > 0 && name[0] == '/' {
        name
    } else if base.len() == 0 || base.last() == '/' {
        base + name
    } else {
        base + "/"@ + name
    }
}

/// Joins a name onto a path, as `Path::join` does on Unix.
pub fn join_path(base: &str, name: &str) -> (r: String)
    ensures
        r@ == joined_path(base@, name@),
{
    let b = chars_of(base);
    let n = chars_of(name);
    if n.len() > 0 && n[0] == '/' {
        return String::from_str(name);
    }
    let mut p = String::from_str(base);
    if b.len() > 0 && b[b.len() - 1] != '/' {
        push_char(&mut p, '/');
        proof {
            reveal_strlit("/");
            assert(base@.push('/') =~= base@ + "/"@);
        }
    }
    push_str(&mut p, name);
    p
}

/// The path of a file of the test resources: `resources/test/` below the workspace root,
/// joined with the file name, so that an absolute file name stands for itself.
pub fn test_file(root: &str, fname: &str) -> (r: String)
    ensures
        r@ == joined_path(joined_path(root@, "resources/test/"@), fname@),
{
    let dir = join_path(root, "resources/test/");
    join_path(dir.as_str(), fname)
}

/// A testable for a test file, given its path and the bytes read from it.
pub fn test_able(fname: &str, contents: Vec<u8>) -> (t: Testable)
    ensures
        t.filename@ == fname@,
        t.contents@ == contents@,
{
    Testable::new_with_contents(fname, contents)
}

/// The context checks run in under test: network allowed with a ten second timeout, lists
/// given in full, and the given configuration.
pub open spec fn test_context(config: Vec<(String, ConfigValue)>) -> Context {
    Context { skip_network: false, network_timeout: Some(10), configuration: config, full_lists: true }
}

/// Runs a check on a file with no configuration.
pub fn run_check(check: Check, font: Testable) -> (r: Option<CheckResult>)
    ensures
        r is Some <==> applies(check, TestableType::Single(&font)),
        r matches Some(res) ==> exists|config: Vec<(String, ConfigValue)>|
            config@.len() == 0 && res@ == result_view(check, Some(font.filename@), None,
                findings(file_outcome(check, font, test_context(config)))),
{
    run_check_with_config(check, TestableType::Single(&font), Vec::new())
}

/// Runs a check on a file or a family with the given configuration (check identifier to
/// configuration value).
pub fn run_check_with_config(
    check: Check,
    things: TestableType,
    config: Vec<(String, ConfigValue)>,
) -> (r: Option<CheckResult>)
    ensures
        r is Some <==> applies(check, things),
        r matches Some(res) ==> match things {
            TestableType::Single(t) => res@ == result_view(check, Some(t.filename@), None,
                findings(file_outcome(check, *t, test_context(config)))),
            TestableType::Collection(fam) => res@ == result_view(check, None, None,
                findings(family_outcome(check, fam.testables@))),
        },
{
    let ctx = Context {
        skip_network: false,
        network_timeout: Some(10),
        configuration: config,
        full_lists: true,
    };
    check.run(&things, &ctx, None)
}

/// Asserts that there is a result and its worst severity is Pass; the answer is whether it
/// holds, which callers outside the verifier test.
pub fn assert_pass(check_result: &Option<CheckResult>) -> (r: bool)
    requires
        check_result matches Some(res) && worst_of(severities(res.subresults@)) == StatusCode::Pass,
    ensures
        r == (check_result matches Some(res) && worst_of(severities(res.subresults@)) == StatusCode::Pass),
{
    match check_result {
        Some(res) => res.worst_status() == StatusCode::Pass,
        None => false,
    }
}

/// Asserts that there is a result and its worst severity is Skip; the answer is whether it
/// holds, which callers outside the verifier test.
pub fn assert_skip(check_result: &Option<CheckResult>) -> (r: bool)
    requires
        check_result matches Some(res) && worst_of(severities(res.subresults@)) == StatusCode::Skip,
    ensures
        r == (check_result matches Some(res) && worst_of(severities(res.subresults@)) == StatusCode::Skip),
{
    match check_result {
        Some(res) => res.worst_status() == StatusCode::Skip,
        None => false,
    }
}

/// Asserts that there is a result with a finding of the given severity and code; the answer is
/// whether it holds, which callers outside the verifier test.
pub fn assert_results_contain(check_result: &Option<CheckResult>, severity: StatusCode, code: Option<String>) -> (r: bool)
    requires
        check_result matches Some(res) && exists|i: int|
            0 <= i < res.subresults@.len() && (#[trigger] res.subresults@[i]).severity == severity
                && opt_text(res.subresults@[i].code) == opt_text(code),
    ensures
        r == (check_result matches Some(res) && exists|i: int|
            0 <= i < res.subresults@.len() && (#[trigger] res.subresults@[i]).severity == severity
                && opt_text(res.subresults@[i].code) == opt_text(code)),
{
    let res = match check_result {
        Some(res) => res,
        None => return false,
    };
    let mut i: usize = 0;
    while i < res.subresults.len()
        invariant
            *check_result == Some(*res),
            i <= res.subresults@.len(),
            forall|k: int| 0 <= k < i ==> !((#[trigger] res.subresults@[k]).severity == severity
                && opt_text(res.subresults@[k].code) == opt_text(code)),
        decreases res.subresults.len() - i,
    {
        let s = &res.subresults[i];
        let same_code = match (&s.code, &code) {
            (Some(a), Some(b)) => crate::text::str_eq(a.as_str(), b.as_str()),
            (None, None) => true,
            _ => false,
        };
        if s.severity == severity && same_code {
            assert(res.subresults@[i as int].severity == severity && opt_text(res.subresults@[i as int].code)
                == opt_text(code));
            return true;
        }
        i = i + 1;
    }
    false
}

/// Whether a finding has a message that contains the text.
pub open spec fn message_contains(s: crate::status::Status, wanted: Seq<char>) -> bool {
    match s.message {
        Some(m) => contains(m@, wanted),
        None => false,
    }
}

/// Whether some finding's message contains the text.
pub open spec fn some_message_contains(res: CheckResult, wanted: Seq<char>) -> bool {
    exists|i: int|
        0 <= i < res.subresults@.len() && message_contains(#[trigger] res.subresults@[i], wanted)
}

/// Asserts that there is a result and some message of it contains the text exactly when
/// `positive`; the answer is whether it holds, which callers outside the verifier test.
pub fn assert_messages_contain_impl(check_result: &Option<CheckResult>, wanted_message: &str, positive: bool) -> (r: bool)
    requires
        check_result matches Some(res) && some_message_contains(*res, wanted_message@) == positive,
    ensures
        r == (check_result matches Some(res) && some_message_contains(*res, wanted_message@) == positive),
{
    let res = match check_result {
        Some(res) => res,
        None => return false,
    };
    let mut found = false;
    let mut i: usize = 0;
    while i < res.subresults.len()
        invariant
            *check_result == Some(*res),
            i <= res.subresults@.len(),
            found == exists|k: int| 0 <= k < i && message_contains(#[trigger] res.subresults@[k], wanted_message@),
        decreases res.subresults.len() - i,
    {
        if let Some(m) = &res.subresults[i].message {
            if str_contains(m.as_str(), wanted_message) {
                assert(message_contains(res.subresults@[i as int], wanted_message@));
                found = true;
            }
        }
        i = i + 1;
    }
    found == positive
}

/// Asserts that there is a result and some message of it contains the text; the answer is
/// whether it holds, which callers outside the verifier test.
pub fn assert_messages_contain(check_result: &Option<CheckResult>, wanted_message: &str) -> (r: bool)
    requires
        check_result matches Some(res) && some_message_contains(*res, wanted_message@),
    ensures
        r == (check_result matches Some(res) && some_message_contains(*res, wanted_message@)),
{
    assert_messages_contain_impl(check_result, wanted_message, true)
}

/// Asserts that there is a result and no message of it contains the text; the answer is
/// whether it holds, which callers outside the verifier test.
pub fn assert_messages_dont_contain(check_result: &Option<CheckResult>, wanted_message: &str) -> (r: bool)
    requires
        check_result matches Some(res) && !some_message_contains(*res, wanted_message@),
    ensures
        r == (check_result matches Some(res) && !some_message_contains(*res, wanted_message@)),
{
    assert_messages_contain_impl(check_result, wanted_message, false)
}

/// The records without those of the given name ID, in order.
pub open spec fn without_name_id(records: Seq<NameRecordView>, id: u16) -> Seq<NameRecordView>
    decreases records.len(),
{
    if records.len() == 0 {
        Seq::empty()
    } else {
        let prev = without_name_id(records.drop_last(), id);
        if records.last().3 == id {
            prev
        } else {
            prev.push(records.last())
        }
    }
}

/// The bytes of a font whose records of a name ID are replaced by one new record, or the
/// error that stops the replacement.
pub open spec fn name_entry_update(font: Seq<u8>, new: NameRecordView) -> Result<Seq<u8>, ErrorView> {
    match spec_name_records(font) {
        None => Err(unreadable("name"@)),
        Some(records) => match spec_with_names(font, without_name_id(records, new.3).push(new)) {
            None => Err(ErrorView::General("the font could not be rebuilt"@)),
            Some(b) => Ok(b),
        },
    }
}

/// Replaces the records of a name ID in a font's name table by one record with the given
/// platform, encoding, language and string. The font is left as it is when this fails.
pub fn set_name_entry(
    font: &mut Testable,
    platform: u16,
    encoding: u16,
    language: u16,
    nameid: u16,
    new_string: String,
) -> (r: Result<(), CheckError>)
    ensures
        final(font).filename == old(font).filename,
        match r {
            Ok(()) => name_entry_update(old(font).contents@, (platform, encoding, language, nameid, new_string@))
                == Ok::<Seq<u8>, ErrorView>(final(font).contents@),
            Err(e) => name_entry_update(old(font).contents@, (platform, encoding, language, nameid, new_string@))
                == Err::<Seq<u8>, ErrorView>(e@) && final(font).contents == old(font).contents,
        },
{
    let records = match read_name_records(font.contents.as_slice()) {
        Some(r) => r,
        None => return Err(crate::outcome::unreadable_error("name")),
    };
    let ghost rv = name_entry_views(records@);
    let mut kept: Vec<NameEntry> = Vec::new();
    for i in 0..records.len()
        invariant
            rv == name_entry_views(records@),
            name_entry_views(kept@) == without_name_id(rv.take(i as int), nameid),
    {
        assert(rv.take(i + 1).drop_last() =~= rv.take(i as int));
        let ghost before = name_entry_views(kept@);
        if records[i].3 != nameid {
            let (p, e, l, n, st) = &records[i];
            kept.push((*p, *e, *l, *n, st.clone()));
            assert(name_entry_views(kept@) =~= before.push(rv[i as int]));
        }
    }
    assert(rv.take(records.len() as int) =~= rv);
    let ghost new_view = (platform, encoding, language, nameid, new_string@);
    let ghost before = name_entry_views(kept@);
    kept.push((platform, encoding, language, nameid, new_string));
    assert(name_entry_views(kept@) =~= before.push(new_view));
    match rebuild_with_names(font.contents.as_slice(), &kept) {
        Some(b) => {
            font.contents = b;
            Ok(())
        },
        None => Err(CheckError::General(String::from_str("the font could not be rebuilt"))),
    }
}

/// The position of the first glyph with the given name, from position `i` on.
pub open spec fn first_named(names: Seq<Option<Seq<char>>>, name: Seq<char>, i: int) -> Option<int>
    decreases names.len() - i,
{
    if i < 0 || i >= names.len() {
        None
    } else if names[i] == Some(name) {
        Some(i)
    } else {
        first_named(names, name, i + 1)
    }
}

/// The mappings without those of the code point, in order.
pub open spec fn without_codepoint(m: Seq<(u32, u32)>, cp: u32) -> Seq<(u32, u32)>
    decreases m.len(),
{
    if m.len() == 0 {
        Seq::empty()
    } else {
        let prev = without_codepoint(m.drop_last(), cp);
        if m.last().0 == cp {
            prev
        } else {
            prev.push(m.last())
        }
    }
}

/// The bytes of a font whose code point is mapped to the glyph of the given name, or the error
/// that stops the remapping.
pub open spec fn remap_outcome(font: Seq<u8>, cp: u32, name: Seq<char>) -> Result<Seq<u8>, ErrorView> {
    match first_named(spec_glyph_names(font), name, 0) {
        None => Err(ErrorView::General("No glyph named '"@ + name + "' in font"@)),
        Some(g) => match spec_with_cmap(font, without_codepoint(spec_mappings(font), cp).push((cp, g as u32))) {
            None => Err(ErrorView::General("Failed to create new cmap"@)),
            Some(b) => Ok(b),
        },
    }
}

/// The position of the first glyph with the given name.
fn find_named(names: &Vec<Option<String>>, glyphname: &str) -> (r: Option<usize>)
    ensures
        match r {
            Some(g) => first_named(names@.map_values(|o: Option<String>| opt_text(o)), glyphname@, 0)
                == Some(g as int),
            None => first_named(names@.map_values(|o: Option<String>| opt_text(o)), glyphname@, 0) is None,
        },
{
    let ghost nv = names@.map_values(|o: Option<String>| opt_text(o));
    let mut i: usize = 0;
    while i < names.len()
        invariant
            i <= names.len(),
            nv == names@.map_values(|o: Option<String>| opt_text(o)),
            first_named(nv, glyphname@, 0) == first_named(nv, glyphname@, i as int),
        decreases names.len() - i,
    {
        let same = match &names[i] {
            Some(n) => crate::text::str_eq(n.as_str(), glyphname),
            None => false,
        };
        assert(same == (nv[i as int] == Some(glyphname@)));
        if same {
            return Some(i);
        }
        i = i + 1;
    }
    None
}

/// Maps a code point to the first glyph with the given name, in place of any glyph it was
/// mapped to. The font is left as it is when this fails.
pub fn remap_glyph(font: &mut Testable, codepoint: u32, glyphname: &str) -> (r: Result<(), CheckError>)
    ensures
        final(font).filename == old(font).filename,
        match r {
            Ok(()) => remap_outcome(old(font).contents@, codepoint, glyphname@)
                == Ok::<Seq<u8>, ErrorView>(final(font).contents@),
            Err(e) => remap_outcome(old(font).contents@, codepoint, glyphname@)
                == Err::<Seq<u8>, ErrorView>(e@) && final(font).contents == old(font).contents,
        },
{
    let names = read_glyph_names(font.contents.as_slice());
    let found = find_named(&names, glyphname);
    let g = match found {
        Some(g) => g,
        None => {
            let mut msg = String::from_str("No glyph named '");
            push_str(&mut msg, glyphname);
            push_str(&mut msg, "' in font");
            return Err(CheckError::General(msg));
        },
    };
    let m = read_mappings(font.contents.as_slice());
    let mut kept: Vec<(u32, u32)> = Vec::new();
    for k in 0..m.len()
        invariant
            kept@ == without_codepoint(m@.take(k as int), codepoint),
    {
        assert(m@.take(k + 1).drop_last() =~= m@.take(k as int));
        if m[k].0 != codepoint {
            kept.push(m[k]);
        }
    }
    assert(m@.take(m.len() as int) =~= m@);
    kept.push((codepoint, g as u32));
    match rebuild_with_cmap(font.contents.as_slice(), &kept) {
        Some(b) => {
            font.contents = b;
            Ok(())
        },
        None => Err(CheckError::General(String::from_str("Failed to create new cmap"))),
    }
}

} // verus!
