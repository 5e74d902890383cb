//! The check that the name entries which identify a font differ between the fonts of a family.
use vstd::prelude::*;
use crate::config::Context;
use crate::font::{
    best_subfamily, best_subfamilyname, font_positions, fonts_of, is_variable, is_variable_font,
    read_english_name, spec_english_name,
};
use crate::outcome::{ErrorView, only_if, outcome};
use crate::status::{CheckError, Status, StatusCode, StatusView, plain, result_of, return_result, views};
use crate::testable::{Testable, TestableCollection};
use crate::text::{comma_joined, debug_str, decimal, push_comma_joined, push_decimal, push_str, spec_debug_str, str_eq};

verus! {

/// The name IDs whose entries must differ between the fonts of a family, in the order they are
/// checked: unique identifier, full name, PostScript name, typographic subfamily, WWS subfamily
/// and variations PostScript name prefix.
pub open spec fn unique_name_ids() -> Seq<u16> {
    seq![3u16, 4u16, 6u16, 17u16, 22u16, 25u16]
}

/// How font-types writes a name ID.
pub open spec fn name_id_label(id: u16) -> Seq<char> {
    if id == 3 {
        "UNIQUE_ID"@
    } else if id == 4 {
        "FULL_NAME"@
    } else if id == 6 {
        "POSTSCRIPT_NAME"@
    } else if id == 17 {
        "TYPOGRAPHIC_SUBFAMILY_NAME"@
    } else if id == 22 {
        "WWS_SUBFAMILY_NAME"@
    } else if id == 25 {
        "VARIATIONS_POSTSCRIPT_NAME_PREFIX"@
    } else {
        "NameId "@ + decimal(id as nat)
    }
}

/// One row per font that is checked for a name ID: the font's entry and its file name.
pub type NameRow = (Option<Seq<char>>, Seq<char>);

/// The rows of the fonts at the given positions for a name ID, or the file name of the first
/// font that lacks the entry. Static fonts are passed over for the variations PostScript name
/// prefix; the two subfamily IDs take the font's best subfamily name, which may be missing.
pub open spec fn name_rows(ts: Seq<Testable>, pos: Seq<usize>, id: u16) -> Result<Seq<NameRow>, Seq<char>>
    decreases pos.len(),
{
    if pos.len() == 0 {
        Ok(Seq::empty())
    } else {
        match name_rows(ts, pos.drop_last(), id) {
            Err(f) => Err(f),
            Ok(rows) => {
                let t = ts[pos.last() as int];
                if id == 25 && !is_variable(t.contents@) {
                    Ok(rows)
                } else if id == 17 || id == 22 {
                    Ok(rows.push((best_subfamily(t.contents@), t.filename@)))
                } else {
                    match spec_english_name(t.contents@, id) {
                        Some(n) => Ok(rows.push((Some(n), t.filename@))),
                        None => Err(t.filename@),
                    }
                }
            },
        }
    }
}

/// The entries of the rows, each once, in the order they first occur.
pub open spec fn distinct_entries(rows: Seq<NameRow>) -> Seq<Option<Seq<char>>>
    decreases rows.len(),
{
    if rows.len() == 0 {
        Seq::empty()
    } else {
        let prev = distinct_entries(rows.drop_last());
        if prev.contains(rows.last().0) {
            prev
        } else {
            prev.push(rows.last().0)
        }
    }
}

/// The file names of the rows with the given entry, in order.
pub open spec fn files_with(rows: Seq<NameRow>, e: Option<Seq<char>>) -> Seq<Seq<char>>
    decreases rows.len(),
{
    if rows.len() == 0 {
        Seq::empty()
    } else {
        let prev = files_with(rows.drop_last(), e);
        if rows.last().0 == e {
            prev.push(rows.last().1)
        } else {
            prev
        }
    }
}

/// How `Debug` writes an optional entry.
pub open spec fn entry_debug(e: Option<Seq<char>>) -> Seq<char> {
    match e {
        Some(s) => "Some("@ + spec_debug_str(s) + ")"@,
        None => "None"@,
    }
}

/// The failure for an entry shared by several fonts.
pub open spec fn duplicate_status(id: u16, e: Option<Seq<char>>, files: Seq<Seq<char>>) -> StatusView {
    plain(
        StatusCode::Fail,
        "duplicate-name-id-"@ + name_id_label(id),
        "The name '"@ + entry_debug(e) + "' is not unique within the family. Found in fonts: "@
            + comma_joined(files),
    )
}

/// A failure for each of the given entries that more than one row holds.
pub open spec fn duplicate_problems(keys: Seq<Option<Seq<char>>>, rows: Seq<NameRow>, id: u16) -> Seq<StatusView>
    decreases keys.len(),
{
    if keys.len() == 0 {
        Seq::empty()
    } else {
        let e = keys.last();
        duplicate_problems(keys.drop_last(), rows, id) + only_if(
            files_with(rows, e).len() > 1,
            duplicate_status(id, e, files_with(rows, e)),
        )
    }
}

/// The error for a font that lacks an entry.
pub open spec fn missing_entry(file: Seq<char>, id: u16) -> ErrorView {
    ErrorView::General("Font "@ + file + " is missing a "@ + name_id_label(id) + " entry"@)
}

/// The failures for the given name IDs, ID by ID, or the error of the first font that lacks an
/// entry.
pub open spec fn unique_names_problems(ts: Seq<Testable>, pos: Seq<usize>, ids: Seq<u16>) -> Result<Seq<StatusView>, ErrorView>
    decreases ids.len(),
{
    if ids.len() == 0 {
        Ok(Seq::empty())
    } else {
        match unique_names_problems(ts, pos, ids.drop_last()) {
            Err(e) => Err(e),
            Ok(p) => {
                let id = ids.last();
                match name_rows(ts, pos, id) {
                    Err(f) => Err(missing_entry(f, id)),
                    Ok(rows) => Ok(p + duplicate_problems(distinct_entries(rows), rows, id)),
                }
            },
        }
    }
}

/// What the unique names check finds in a family.
pub open spec fn unique_names_outcome(ts: Seq<Testable>) -> Result<Seq<StatusView>, ErrorView> {
    match unique_names_problems(ts, font_positions(ts), unique_name_ids()) {
        Ok(p) => Ok(result_of(p)),
        Err(e) => Err(e),
    }
}

/// An owned row: the entry and the file name.
pub type Row = (Option<String>, String);

/// The content of an owned row.
pub open spec fn row_view(r: Row) -> NameRow {
    (crate::status::opt_text(r.0), r.1@)
}

/// The contents of owned rows.
pub open spec fn rows_view(rows: Seq<Row>) -> Seq<NameRow> {
    rows.map_values(|r: Row| row_view(r))
}

/// Appends how font-types writes a name ID.
fn push_name_id_label(s: &mut String, id: u16)
    ensures
        final(s)@ == old(s)@ + name_id_label(id),
{
    if id == 3 {
        push_str(s, "UNIQUE_ID");
    } else if id == 4 {
        push_str(s, "FULL_NAME");
    } else if id == 6 {
        push_str(s, "POSTSCRIPT_NAME");
    } else if id == 17 {
        push_str(s, "TYPOGRAPHIC_SUBFAMILY_NAME");
    } else if id == 22 {
        push_str(s, "WWS_SUBFAMILY_NAME");
    } else if id == 25 {
        push_str(s, "VARIATIONS_POSTSCRIPT_NAME_PREFIX");
    } else {
        push_str(s, "NameId ");
        push_decimal(s, id as u64);
        assert(final(s)@ =~= old(s)@ + name_id_label(id));
    }
}

/// The rows of the fonts at the given positions for a name ID, or the file name of the first
/// font that lacks the entry.
pub fn rows_for(ts: &Vec<Testable>, pos: &Vec<usize>, id: u16) -> (r: Result<Vec<Row>, String>)
    requires
        forall|k: int| 0 <= k < pos@.len() ==> pos@[k] < ts@.len(),
    ensures
        match r {
            Ok(rows) => name_rows(ts@, pos@, id) == Ok::<Seq<NameRow>, Seq<char>>(rows_view(rows@)),
            Err(f) => name_rows(ts@, pos@, id) == Err::<Seq<NameRow>, Seq<char>>(f@),
        },
{
    let mut rows: Vec<Row> = Vec::new();
    assert(pos@.take(0) =~= Seq::<usize>::empty());
    assert(rows_view(rows@) =~= Seq::<NameRow>::empty());
    for i in 0..pos.len()
        invariant
            forall|k: int| 0 <= k < pos@.len() ==> pos@[k] < ts@.len(),
            name_rows(ts@, pos@.take(i as int), id) == Ok::<Seq<NameRow>, Seq<char>>(rows_view(rows@)),
    {
        assert(pos@.take(i + 1).drop_last() =~= pos@.take(i as int));
        assert(pos@.take(i + 1).last() == pos@[i as int]);
        let t = &ts[pos[i]];
        let ghost before = rows_view(rows@);
        if id == 25 && !is_variable_font(t.contents.as_slice()) {
        } else if id == 17 || id == 22 {
            rows.push((best_subfamilyname(t.contents.as_slice()), t.filename.clone()));
            assert(rows_view(rows@) =~= before.push((best_subfamily(t.contents@), t.filename@)));
        } else {
            match read_english_name(t.contents.as_slice(), id) {
                Some(n) => {
                    rows.push((Some(n), t.filename.clone()));
                    assert(rows_view(rows@) =~= before.push((spec_english_name(t.contents@, id), t.filename@)));
                },
                None => {
                    proof {
                        lemma_rows_error_stays(ts@, pos@, id, i as int);
                    }
                    return Err(t.filename.clone());
                },
            }
        }
    }
    assert(pos@.take(pos.len() as int) =~= pos@);
    Ok(rows)
}

/// Once the rows of a prefix of the positions end in an error, so do the rows of all of them.
proof fn lemma_rows_error_stays(ts: Seq<Testable>, pos: Seq<usize>, id: u16, i: int)
    requires
        0 <= i < pos.len(),
        name_rows(ts, pos.take(i + 1), id) is Err,
    ensures
        name_rows(ts, pos, id) == name_rows(ts, pos.take(i + 1), id),
    decreases pos.len() - i,
{
    if i + 1 == pos.len() {
        assert(pos.take(i + 1) =~= pos);
    } else {
        assert(pos.drop_last().take(i + 1) =~= pos.take(i + 1));
        lemma_rows_error_stays(ts, pos.drop_last(), id, i);
    }
}

/// Whether two optional texts are equal.
fn same_entry(a: &Option<String>, b: &Option<String>) -> (r: bool)
    ensures
        r == (crate::status::opt_text(*a) == crate::status::opt_text(*b)),
{
    match (a, b) {
        (Some(x), Some(y)) => str_eq(x.as_str(), y.as_str()),
        (None, None) => true,
        _ => false,
    }
}

/// An owned copy of an optional text.
fn copy_entry(a: &Option<String>) -> (r: Option<String>)
    ensures
        crate::status::opt_text(r) == crate::status::opt_text(*a),
{
    match a {
        Some(x) => Some(x.clone()),
        None => None,
    }
}

/// The entries of the rows, each once, in the order they first occur.
pub fn entries_of(rows: &Vec<Row>) -> (keys: Vec<Option<String>>)
    ensures
        keys@.map_values(|e: Option<String>| crate::status::opt_text(e)) == distinct_entries(rows_view(rows@)),
{
    let ghost rv = rows_view(rows@);
    let mut keys: Vec<Option<String>> = Vec::new();
    for i in 0..rows.len()
        invariant
            rv == rows_view(rows@),
            keys@.map_values(|e: Option<String>| crate::status::opt_text(e)) == distinct_entries(rv.take(i as int)),
    {
        assert(rv.take(i + 1).drop_last() =~= rv.take(i as int));
        let ghost kv = keys@.map_values(|e: Option<String>| crate::status::opt_text(e));
        assert(rv[i as int] == row_view(rows@[i as int]));
        let mut found = false;
        let mut k: usize = 0;
        while k < keys.len()
            invariant
                kv == keys@.map_values(|e: Option<String>| crate::status::opt_text(e)),
                k <= keys.len(),
                rv == rows_view(rows@),
                i < rows@.len(),
                rv[i as int] == row_view(rows@[i as int]),
                found == exists|j: int| 0 <= j < k && kv[j] == rv[i as int].0,
            decreases keys.len() - k,
        {
            assert(kv[k as int] == crate::status::opt_text(keys@[k as int]));
            if same_entry(&keys[k], &rows[i].0) {
                found = true;
            }
            k = k + 1;
        }
        assert(found == kv.contains(rv[i as int].0));
        if !found {
            keys.push(copy_entry(&rows[i].0));
            assert(keys@.map_values(|e: Option<String>| crate::status::opt_text(e)) =~= kv.push(rv[i as int].0));
        }
    }
    assert(rv.take(rows.len() as int) =~= rv);
    keys
}

/// The file names of the rows with the given entry, in order.
pub fn files_of(rows: &Vec<Row>, e: &Option<String>) -> (files: Vec<String>)
    ensures
        files@.map_values(|s: String| s@) == files_with(rows_view(rows@), crate::status::opt_text(*e)),
{
    let ghost rv = rows_view(rows@);
    let ghost ev = crate::status::opt_text(*e);
    let mut files: Vec<String> = Vec::new();
    assert(rv.take(0) =~= Seq::<NameRow>::empty());
    assert(files@.map_values(|s: String| s@) =~= Seq::<Seq<char>>::empty());
    for i in 0..rows.len()
        invariant
            rv == rows_view(rows@),
            ev == crate::status::opt_text(*e),
            files@.map_values(|s: String| s@) == files_with(rv.take(i as int), ev),
    {
        assert(rv.take(i + 1).drop_last() =~= rv.take(i as int));
        let ghost before = files@.map_values(|s: String| s@);
        assert(rv[i as int] == row_view(rows@[i as int]));
        assert(rv.take(i + 1).last() == rv[i as int]);
        let same = same_entry(&rows[i].0, e);
        assert(same == (rv[i as int].0 == ev));
        if same {
            files.push(rows[i].1.clone());
            assert(files@.map_values(|s: String| s@) =~= before.push(rv[i as int].1));
        } else {
            assert(files_with(rv.take(i + 1), ev) == files_with(rv.take(i as int), ev));
        }
    }
    assert(rv.take(rows.len() as int) =~= rv);
    files
}

/// The failure for an entry shared by several fonts.
fn duplicate_finding(id: u16, e: &Option<String>, files: &Vec<String>) -> (s: Status)
    ensures
        s@ == duplicate_status(id, crate::status::opt_text(*e), files@.map_values(|x: String| x@)),
{
    let mut code = String::from_str("duplicate-name-id-");
    push_name_id_label(&mut code, id);
    let mut msg = String::from_str("The name '");
    match e {
        Some(x) => {
            push_str(&mut msg, "Some(");
            let d = debug_str(x.as_str());
            push_str(&mut msg, d.as_str());
            push_str(&mut msg, ")");
        },
        None => push_str(&mut msg, "None"),
    }
    push_str(&mut msg, "' is not unique within the family. Found in fonts: ");
    push_comma_joined(&mut msg, files);
    assert(msg@ =~= "The name '"@ + entry_debug(crate::status::opt_text(*e))
        + "' is not unique within the family. Found in fonts: "@
        + comma_joined(files@.map_values(|x: String| x@)));
    Status::with_message(StatusCode::Fail, code.as_str(), msg)
}

/// Checks that the unique identifier, full name, PostScript name, best subfamily name and (in
/// variable fonts) variations PostScript name prefix differ between the fonts of a family.
pub fn unique_names(c: &TestableCollection, _context: &Context) -> (r: Result<Vec<Status>, CheckError>)
    ensures
        outcome(r) == unique_names_outcome(c.testables@),
{
    let ts = &c.testables;
    let pos = fonts_of(ts);
    let ids: Vec<u16> = vec![3u16, 4u16, 6u16, 17u16, 22u16, 25u16];
    assert(ids@ =~= unique_name_ids());
    let mut problems: Vec<Status> = Vec::new();
    assert(ids@.take(0) =~= Seq::<u16>::empty());
    assert(views(problems@) =~= Seq::<StatusView>::empty());
    for k in 0..ids.len()
        invariant
            ts@ == c.testables@,
            ids@ == unique_name_ids(),
            pos@ == font_positions(ts@),
            forall|j: int| 0 <= j < pos@.len() ==> pos@[j] < ts@.len(),
            unique_names_problems(ts@, pos@, ids@.take(k as int)) == Ok::<Seq<StatusView>, ErrorView>(views(problems@)),
    {
        assert(ids@.take(k + 1).drop_last() =~= ids@.take(k as int));
        let id = ids[k];
        let rows = match rows_for(ts, &pos, id) {
            Ok(rows) => rows,
            Err(f) => {
                let mut msg = String::from_str("Font ");
                push_str(&mut msg, f.as_str());
                push_str(&mut msg, " is missing a ");
                push_name_id_label(&mut msg, id);
                push_str(&mut msg, " entry");
                assert(msg@ =~= "Font "@ + f@ + " is missing a "@ + name_id_label(id) + " entry"@);
                assert(ids@.take(k + 1).last() == id);
                assert(unique_names_problems(ts@, pos@, ids@.take(k + 1))
                    == Err::<Seq<StatusView>, ErrorView>(missing_entry(f@, id)));
                proof {
                    lemma_problems_error_stays(ts@, pos@, ids@, k + 1);
                }
                assert(unique_names_problems(ts@, pos@, unique_name_ids())
                    == Err::<Seq<StatusView>, ErrorView>(missing_entry(f@, id)));
                let err = CheckError::General(msg);
                assert(err@ == missing_entry(f@, id));
                assert(unique_names_outcome(ts@) == Err::<Seq<StatusView>, ErrorView>(missing_entry(f@, id)));
                return Err(err);
            },
        };
        let ghost rv = rows_view(rows@);
        let keys = entries_of(&rows);
        let ghost kv = keys@.map_values(|e: Option<String>| crate::status::opt_text(e));
        let ghost before = views(problems@);
        assert(kv.take(0) =~= Seq::<Option<Seq<char>>>::empty());
        assert(before + duplicate_problems(kv.take(0), rv, id) =~= before);
        for j in 0..keys.len()
            invariant
                rv == rows_view(rows@),
                kv == keys@.map_values(|e: Option<String>| crate::status::opt_text(e)),
                views(problems@) == before + duplicate_problems(kv.take(j as int), rv, id),
        {
            assert(kv.take(j + 1).drop_last() =~= kv.take(j as int));
            let files = files_of(&rows, &keys[j]);
            let ghost p = views(problems@);
            if files.len() > 1 {
                let s = duplicate_finding(id, &keys[j], &files);
                problems.push(s);
                assert(views(problems@) =~= p + seq![s@]);
            } else {
                assert(views(problems@) =~= p + Seq::<StatusView>::empty());
            }
        }
        assert(kv.take(keys.len() as int) =~= kv);
    }
    assert(ids@.take(ids.len() as int) =~= ids@);
    Ok(return_result(problems))
}

/// Once the problems of a prefix of the name IDs end in an error, so do those of all of them.
proof fn lemma_problems_error_stays(ts: Seq<Testable>, pos: Seq<usize>, ids: Seq<u16>, k: int)
    requires
        0 < k <= ids.len(),
        unique_names_problems(ts, pos, ids.take(k)) is Err,
    ensures
        unique_names_problems(ts, pos, ids) == unique_names_problems(ts, pos, ids.take(k)),
    decreases ids.len() - k,
{
    if k == ids.len() {
        assert(ids.take(k) =~= ids);
    } else {
        assert(ids.drop_last().take(k) =~= ids.take(k));
        lemma_problems_error_stays(ts, pos, ids.drop_last(), k);
    }
}

} // verus!
