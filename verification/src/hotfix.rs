//! Hotfixes: fixing a font binary for the checks that know how, and deciding which results of
//! a run to try to fix.
use vstd::prelude::*;
use crate::check::{Check, check_has_hotfix, check_id};
use crate::fix::{FixResult, MoreInfoRequest};
use crate::gf_fonts::{fix_no_oblique_bit, fix_no_oblique_bit_spec, fix_use_typo_metrics, fix_use_typo_metrics_spec};
use crate::opentype::{fix_os2_version_fsselection, fix_os2_version_spec, fix_view};
use crate::outcome::ErrorView;
use crate::result::{CheckResult, severities};
use crate::status::{CheckError, StatusCode, rank, worst_of};
use crate::testable::Testable;
use crate::text::str_eq;

verus! {

/// What the hotfix of a check reports and leaves, or none when the check has no hotfix.
pub open spec fn hotfix_spec(c: Check, font: Seq<u8>) -> Option<(Result<bool, ErrorView>, Seq<u8>)> {
    match c {
        Check::Os2VersionFsselection => Some(fix_os2_version_spec(font)),
        Check::UseTypoMetrics => Some(fix_use_typo_metrics_spec(font)),
        Check::NoObliqueBit => Some(fix_no_oblique_bit_spec(font)),
        _ => None,
    }
}

/// Applies the hotfix of a check, when it has one: whether it changed the font, or its error.
pub fn hotfix(c: Check, t: &mut Testable) -> (r: Option<Result<bool, CheckError>>)
    ensures
        match hotfix_spec(c, old(t).contents@) {
            None => r is None && final(t).contents@ == old(t).contents@,
            Some((o, f)) => r matches Some(x) && fix_view(x) == o && final(t).contents@ == f,
        },
        final(t).filename == old(t).filename,
{
    match c {
        Check::Os2VersionFsselection => Some(fix_os2_version_fsselection(t)),
        Check::UseTypoMetrics => Some(fix_use_typo_metrics(t)),
        Check::NoObliqueBit => Some(fix_no_oblique_bit(t)),
        _ => None,
    }
}

/// Every check of this library.
pub open spec fn all_checks() -> Seq<Check> {
    seq![
        Check::Fstype, Check::VerticalMetricsSane, Check::MonotypeWeightclass, Check::Widthclass,
        Check::ValidDefault, Check::ValidRange, Check::Maxadvancewidth, Check::VendorId,
        Check::WeightClassFvar, Check::FsselectionWws, Check::Os2VersionFsselection,
        Check::NoDuplicateAxisValues, Check::UseTypoMetrics, Check::NoObliqueBit, Check::OpszNotElided,
        Check::ParametricAxesHidden, Check::FvarInstancePsNames, Check::VersionFormat, Check::NoVfInName,
        Check::GoogleFontsWeightclass, Check::NoFreeWord, Check::License,
        Check::ValidStrokeAndClassifications, Check::ValidPrimaryScriptLanguage,
        Check::EqualCodepointCoverage, Check::SubsetsCorrect, Check::AsciiFilenames, Check::GlyphCoverage,
        Check::UniqueNames,
    ]
}

/// Every check of this library.
pub fn checks() -> (r: Vec<Check>)
    ensures
        r@ == all_checks(),
{
    vec![
        Check::Fstype, Check::VerticalMetricsSane, Check::MonotypeWeightclass, Check::Widthclass,
        Check::ValidDefault, Check::ValidRange, Check::Maxadvancewidth, Check::VendorId,
        Check::WeightClassFvar, Check::FsselectionWws, Check::Os2VersionFsselection,
        Check::NoDuplicateAxisValues, Check::UseTypoMetrics, Check::NoObliqueBit, Check::OpszNotElided,
        Check::ParametricAxesHidden, Check::FvarInstancePsNames, Check::VersionFormat, Check::NoVfInName,
        Check::GoogleFontsWeightclass, Check::NoFreeWord, Check::License,
        Check::ValidStrokeAndClassifications, Check::ValidPrimaryScriptLanguage,
        Check::EqualCodepointCoverage, Check::SubsetsCorrect, Check::AsciiFilenames, Check::GlyphCoverage,
        Check::UniqueNames,
    ]
}

/// The first check of the list with the identifier.
pub open spec fn find_check(cs: Seq<Check>, id: Seq<char>) -> Option<Check>
    decreases cs.len(),
{
    if cs.len() == 0 {
        None
    } else if check_id(cs[0]) == id {
        Some(cs[0])
    } else {
        find_check(cs.drop_first(), id)
    }
}

/// The check of this library with the identifier.
pub fn check_by_id(id: &str) -> (r: Option<Check>)
    ensures
        r == find_check(all_checks(), id@),
{
    let cs = checks();
    let mut i: usize = 0;
    assert(cs@.skip(0) =~= cs@);
    while i < cs.len()
        invariant
            cs@ == all_checks(),
            i <= cs.len(),
            find_check(all_checks(), id@) == find_check(cs@.skip(i as int), id@),
        decreases cs.len() - i,
    {
        assert(cs@.skip(i as int).drop_first() =~= cs@.skip(i + 1));
        if str_eq(cs[i].id(), id) {
            return Some(cs[i]);
        }
        i = i + 1;
    }
    None
}

/// What applying the hotfixes of the checks with the given identifiers, in order, reports and
/// leaves, `any` saying whether an earlier one changed the font. Unknown identifiers and checks
/// without a hotfix are passed over; the first error stops.
pub open spec fn hotfixes_spec(font: Seq<u8>, any: bool, ids: Seq<Seq<char>>) -> (Result<bool, ErrorView>, Seq<u8>)
    decreases ids.len(),
{
    if ids.len() == 0 {
        (Ok(any), font)
    } else {
        match find_check(all_checks(), ids[0]) {
            None => hotfixes_spec(font, any, ids.drop_first()),
            Some(c) => match hotfix_spec(c, font) {
                None => hotfixes_spec(font, any, ids.drop_first()),
                Some((Ok(m), f)) => hotfixes_spec(f, any || m, ids.drop_first()),
                Some((Err(e), f)) => (Err(e), f),
            },
        }
    }
}

/// Applies the hotfixes of the checks with the given identifiers, in order: whether any of them
/// changed the font, or the first error.
pub fn apply_hotfixes(testable: &mut Testable, check_ids: &Vec<String>) -> (r: Result<bool, CheckError>)
    ensures
        (fix_view(r), final(testable).contents@) == hotfixes_spec(
            old(testable).contents@,
            false,
            check_ids@.map_values(|s: String| s@),
        ),
        final(testable).filename == old(testable).filename,
{
    let ghost ids = check_ids@.map_values(|s: String| s@);
    let ghost start = testable.contents@;
    let mut any_modified = false;
    let mut i: usize = 0;
    assert(ids.skip(0) =~= ids);
    while i < check_ids.len()
        invariant
            ids == check_ids@.map_values(|s: String| s@),
            i <= check_ids.len(),
            hotfixes_spec(start, false, ids) == hotfixes_spec(testable.contents@, any_modified, ids.skip(i as int)),
            testable.filename == old(testable).filename,
            start == old(testable).contents@,
        decreases check_ids.len() - i,
    {
        assert(ids.skip(i as int).drop_first() =~= ids.skip(i + 1));
        assert(ids.skip(i as int)[0] == check_ids@[i as int]@);
        if let Some(c) = check_by_id(check_ids[i].as_str()) {
            match hotfix(c, testable) {
                None => {},
                Some(Ok(modified)) => {
                    any_modified = any_modified || modified;
                },
                Some(Err(e)) => {
                    return Err(e);
                },
            }
        }
        i = i + 1;
    }
    Ok(any_modified)
}

/// What to do after a fix answered: ask the user for more information, or stop with the fix's
/// result and whether the font changed.
pub enum FixStep {
    Ask(MoreInfoRequest),
    Done(FixResult, bool),
}

/// Decides what follows a fix's answer: a request for more information is passed on to the
/// user; any other result ends the fix, a failure becoming `FixFailed`.
pub fn fix_step(reply: Result<FixResult, String>) -> (r: FixStep)
    ensures
        match reply {
            Ok(FixResult::MoreInfoNeeded(d)) => r matches FixStep::Ask(d2) && d2 == d,
            Ok(FixResult::Fixed) => r matches FixStep::Done(FixResult::Fixed, true),
            Ok(FixResult::Available) => r matches FixStep::Done(FixResult::Available, false),
            Ok(FixResult::Unfixable) => r matches FixStep::Done(FixResult::Unfixable, false),
            Ok(FixResult::FixFailed(m)) => r matches FixStep::Done(FixResult::FixFailed(m2), false) && m2 == m,
            Err(e) => r matches FixStep::Done(FixResult::FixFailed(m2), false) && m2 == e,
        },
{
    match reply {
        Ok(FixResult::MoreInfoNeeded(d)) => FixStep::Ask(d),
        Ok(FixResult::Fixed) => FixStep::Done(FixResult::Fixed, true),
        Ok(other) => FixStep::Done(other, false),
        Err(e) => FixStep::Done(FixResult::FixFailed(e), false),
    }
}

/// The text of a check error.
pub open spec fn error_text(e: ErrorView) -> Seq<char> {
    match e {
        ErrorView::Skip(_, m) => m,
        ErrorView::General(m) => m,
    }
}

/// The text of a check error.
pub fn error_message(e: &CheckError) -> (r: String)
    ensures
        r@ == error_text(e@),
{
    match e {
        CheckError::Skip { code: _, message } => message.clone(),
        CheckError::General(m) => m.clone(),
    }
}

/// Whether a result calls for a fix: its worst finding is at least a warning.
pub open spec fn needs_fix(r: CheckResult) -> bool {
    rank(worst_of(severities(r.subresults@))) >= rank(StatusCode::Warn)
}

/// The positions of the results that call for a fix, belong to a known check and name a file.
pub open spec fn fixable_positions(rs: Seq<CheckResult>) -> Seq<usize>
    decreases rs.len(),
{
    if rs.len() == 0 {
        Seq::empty()
    } else {
        let prev = fixable_positions(rs.drop_last());
        let r = rs.last();
        if needs_fix(r) && find_check(all_checks(), r.check_id@) is Some && r.filename is Some {
            prev.push((rs.len() - 1) as usize)
        } else {
            prev
        }
    }
}

/// The positions of the results of a run that call for a fix.
pub fn fixable(results: &Vec<CheckResult>) -> (r: Vec<usize>)
    ensures
        r@ == fixable_positions(results@),
        forall|k: int| 0 <= k < r@.len() ==> r@[k] < results@.len(),
{
    let mut r: Vec<usize> = Vec::new();
    for i in 0..results.len()
        invariant
            r@ == fixable_positions(results@.take(i as int)),
            forall|k: int| 0 <= k < r@.len() ==> r@[k] < i,
    {
        assert(results@.take(i + 1).drop_last() =~= results@.take(i as int));
        let res = &results[i];
        if res.worst_status().at_least(StatusCode::Warn) && check_by_id(res.check_id.as_str()).is_some()
            && res.filename.is_some() {
            r.push(i);
        }
    }
    assert(results@.take(results.len() as int) =~= results@);
    r
}

} // verus!

verus! {

/// The fix outcome recorded in a result for a hotfix's answer.
pub open spec fn recorded(o: Result<bool, ErrorView>) -> crate::fix::FixView {
    match o {
        Ok(_) => crate::fix::FixView::Fixed,
        Err(e) => crate::fix::FixView::FixFailed(error_text(e)),
    }
}

/// Applies, when the result's check has a hotfix, that hotfix to the font, records its outcome
/// in the result, and says whether the font changed.
pub fn fix_one(testable: &mut Testable, result: &mut CheckResult) -> (modified: bool)
    ensures
        final(testable).filename == old(testable).filename,
        final(result).check_id == old(result).check_id,
        final(result).filename == old(result).filename,
        final(result).subresults == old(result).subresults,
        match find_check(all_checks(), old(result).check_id@) {
            Some(c) if check_has_hotfix(c) => hotfix_spec(c, old(testable).contents@) matches Some((o, f)) && {
                &&& final(testable).contents@ == f
                &&& crate::result::opt_fix(final(result).hotfix_result) == Some(recorded(o))
                &&& modified == (o == Ok::<bool, ErrorView>(true))
            },
            _ => {
                &&& final(testable).contents@ == old(testable).contents@
                &&& final(result).hotfix_result == old(result).hotfix_result
                &&& !modified
            },
        },
{
    let c = match check_by_id(result.check_id.as_str()) {
        Some(c) => c,
        None => return false,
    };
    if !c.has_hotfix() {
        return false;
    }
    match hotfix(c, testable) {
        Some(Ok(m)) => {
            result.hotfix_result = Some(FixResult::Fixed);
            m
        },
        Some(Err(e)) => {
            result.hotfix_result = Some(FixResult::FixFailed(error_message(&e)));
            false
        },
        None => false,
    }
}

/// The files the given results name, each once, in order of first mention, with the positions
/// of its results.
pub open spec fn grouped(rs: Seq<CheckResult>, pos: Seq<usize>) -> Seq<(Seq<char>, Seq<usize>)>
    decreases pos.len(),
{
    if pos.len() == 0 {
        Seq::empty()
    } else {
        let prev = grouped(rs, pos.drop_last());
        let p = pos.last();
        let f = match rs[p as int].filename {
            Some(n) => n@,
            None => Seq::empty(),
        };
        match group_index(prev, f) {
            Some(k) => prev.update(k, (f, prev[k].1.push(p))),
            None => prev.push((f, seq![p])),
        }
    }
}

/// The position of the group of a file.
pub open spec fn group_index(groups: Seq<(Seq<char>, Seq<usize>)>, f: Seq<char>) -> Option<int> {
    if exists|k: int| 0 <= k < groups.len() && #[trigger] groups[k].0 == f {
        Some(choose|k: int| 0 <= k < groups.len() && #[trigger] groups[k].0 == f)
    } else {
        None
    }
}

fn find_group(groups: &Vec<(String, Vec<usize>)>, f: &str) -> (r: Option<usize>)
    ensures
        match r {
            Some(k) => k < groups@.len() && groups@[k as int].0@ == f@,
            None => forall|j: int| 0 <= j < groups@.len() ==> (#[trigger] groups@[j]).0@ != f@,
        },
{
    let mut k: usize = 0;
    while k < groups.len()
        invariant
            k <= groups@.len(),
            forall|j: int| 0 <= j < k ==> (#[trigger] groups@[j]).0@ != f@,
        decreases groups.len() - k,
    {
        if str_eq(groups[k].0.as_str(), f) {
            return Some(k);
        }
        k = k + 1;
    }
    None
}

/// The groups as texts and positions.
pub open spec fn group_views(g: Seq<(String, Vec<usize>)>) -> Seq<(Seq<char>, Seq<usize>)> {
    g.map_values(|e: (String, Vec<usize>)| (e.0@, e.1@))
}

/// Groups the given results by the file they name, in order of first mention.
pub fn group_by_file(results: &Vec<CheckResult>, pos: &Vec<usize>) -> (r: Vec<(String, Vec<usize>)>)
    requires
        forall|k: int| 0 <= k < pos@.len() ==> pos@[k] < results@.len(),
    ensures
        group_views(r@) == grouped(results@, pos@),
{
    let mut groups: Vec<(String, Vec<usize>)> = Vec::new();
    for i in 0..pos.len()
        invariant
            forall|k: int| 0 <= k < pos@.len() ==> pos@[k] < results@.len(),
            group_views(groups@) == grouped(results@, pos@.take(i as int)),
            forall|a: int, b: int| 0 <= a < b < groups@.len() ==> groups@[a].0@ != groups@[b].0@,
    {
        assert(pos@.take(i + 1).drop_last() =~= pos@.take(i as int));
        let p = pos[i];
        let f = match &results[p].filename {
            Some(n) => n.clone(),
            None => String::new(),
        };
        let ghost prev = group_views(groups@);
        match find_group(&groups, f.as_str()) {
            Some(k) => {
                proof {
                    assert(prev[k as int].0 == f@);
                    let c = choose|q: int| 0 <= q < prev.len() && #[trigger] prev[q].0 == f@;
                    assert(prev[c].0 == f@);
                    assert(c == k);
                }
                let name = groups[k].0.clone();
                let mut v = groups[k].1.clone();
                v.push(p);
                groups.set(k, (name, v));
                assert(group_views(groups@) =~= prev.update(k as int, (f@, prev[k as int].1.push(p))));
            },
            None => {
                proof {
                    assert forall|q: int| 0 <= q < prev.len() implies #[trigger] prev[q].0 != f@ by {
                        assert(prev[q].0 == groups@[q].0@);
                    }
                }
                let ghost fv = f@;
                let v1: Vec<usize> = vec![p];
                assert(v1@ =~= seq![p]);
                let entry = (f, v1);
                assert(entry.0@ == fv && entry.1@ == seq![p]);
                groups.push(entry);
                assert(groups@.last() == entry);
                assert(group_views(groups@) =~= prev.push((fv, seq![p])));
            },
        }
    }
    assert(pos@.take(pos.len() as int) =~= pos@);
    groups
}

} // verus!
