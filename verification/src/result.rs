//! The result of running one check on one file or collection.
use vstd::prelude::*;
use crate::status::{Status, StatusCode, StatusView, copy_statuses, opt_text, views, worst_of};
use crate::fix::{FixResult, FixView};

verus! {

/// What one check reported about one file or collection.
#[derive(Debug)]
pub struct CheckResult {
    /// The identifier of the check.
    pub check_id: String,
    /// The title of the check.
    pub check_name: String,
    /// The file checked, or none for a collection.
    pub filename: Option<String>,
    /// The section of the profile the check belongs to.
    pub section: Option<String>,
    /// The findings.
    pub subresults: Vec<Status>,
    /// The outcome of a hotfix, if one was tried.
    pub hotfix_result: Option<FixResult>,
    /// The outcome of a source fix, if one was tried.
    pub sourcefix_result: Option<FixResult>,
}

/// The content of a check result.
pub struct CheckResultView {
    pub check_id: Seq<char>,
    pub check_name: Seq<char>,
    pub filename: Option<Seq<char>>,
    pub section: Option<Seq<char>>,
    pub subresults: Seq<StatusView>,
    pub hotfix_result: Option<FixView>,
    pub sourcefix_result: Option<FixView>,
}

/// The content of an optional fix outcome.
pub open spec fn opt_fix(o: Option<FixResult>) -> Option<FixView> {
    match o {
        Some(f) => Some(f@),
        None => None,
    }
}

impl View for CheckResult {
    type V = CheckResultView;

    open spec fn view(&self) -> CheckResultView {
        CheckResultView {
            check_id: self.check_id@,
            check_name: self.check_name@,
            filename: opt_text(self.filename),
            section: opt_text(self.section),
            subresults: views(self.subresults@),
            hotfix_result: opt_fix(self.hotfix_result),
            sourcefix_result: opt_fix(self.sourcefix_result),
        }
    }
}

fn copy_fix(o: &Option<FixResult>) -> (r: Option<FixResult>)
    ensures
        opt_fix(r) == opt_fix(*o),
{
    match o {
        Some(f) => Some(f.copy()),
        None => None,
    }
}

fn copy_opt_text(o: &Option<String>) -> (r: Option<String>)
    ensures
        opt_text(r) == opt_text(*o),
{
    match o {
        Some(s) => Some(s.clone()),
        None => None,
    }
}

impl CheckResult {
    /// A copy of this result.
    pub fn copy(&self) -> (r: CheckResult)
        ensures
            r@ == self@,
    {
        CheckResult {
            check_id: self.check_id.clone(),
            check_name: self.check_name.clone(),
            filename: copy_opt_text(&self.filename),
            section: copy_opt_text(&self.section),
            subresults: copy_statuses(&self.subresults),
            hotfix_result: copy_fix(&self.hotfix_result),
            sourcefix_result: copy_fix(&self.sourcefix_result),
        }
    }
}

/// The severities of a list of statuses.
pub open spec fn severities(s: Seq<Status>) -> Seq<StatusCode> {
    s.map_values(|x: Status| x.severity)
}

/// The worst severity among statuses, or Pass when there are none.
pub fn worst_severity(s: &Vec<Status>) -> (r: StatusCode)
    ensures
        r == worst_of(severities(s@)),
{
    if s.len() == 0 {
        return StatusCode::Pass;
    }
    let mut worst = s[0].severity;
    let mut i: usize = 1;
    while i < s.len()
        invariant
            1 <= i <= s.len(),
            worst == worst_of(severities(s@.take(i as int))),
        decreases s.len() - i,
    {
        proof {
            assert(severities(s@.take(i + 1)).drop_last() =~= severities(s@.take(i as int)));
        }
        if s[i].severity.at_least(worst) {
            worst = s[i].severity;
        }
        i = i + 1;
    }
    assert(s@.take(s.len() as int) =~= s@);
    worst
}

impl CheckResult {
    /// The worst severity among the findings, or Pass when there are none.
    pub fn worst_status(&self) -> (r: StatusCode)
        ensures
            r == worst_of(severities(self.subresults@)),
    {
        worst_severity(&self.subresults)
    }
}

} // verus!
