//! What a check ends with: its findings, or the error that stopped it.
use vstd::prelude::*;
use crate::status::{CheckError, Status, StatusCode, StatusView, code_string, plain, views};
use crate::text::push_str;

verus! {

/// The content of a check error.
pub enum ErrorView {
    /// The check does not apply: a code and a message.
    Skip(Seq<char>, Seq<char>),
    /// Something went wrong: a message.
    General(Seq<char>),
}

impl View for CheckError {
    type V = ErrorView;

    open spec fn view(&self) -> ErrorView {
        match self {
            CheckError::Skip { code, message } => ErrorView::Skip(code@, message@),
            CheckError::General(m) => ErrorView::General(m@),
        }
    }
}

/// The content of what a check returned.
pub open spec fn outcome(r: Result<Vec<Status>, CheckError>) -> Result<Seq<StatusView>, ErrorView> {
    match r {
        Ok(v) => Ok(views(v@)),
        Err(e) => Err(e@),
    }
}

/// The status a skipped check reports.
pub open spec fn skip_status(code: Seq<char>, message: Seq<char>) -> StatusView {
    plain(StatusCode::Skip, code, message)
}

/// The status a check that went wrong reports.
pub open spec fn error_status(message: Seq<char>) -> StatusView {
    StatusView { severity: StatusCode::Error, code: None, message: Some(message), metadata: None }
}

/// The findings a check's outcome becomes.
pub open spec fn findings(o: Result<Seq<StatusView>, ErrorView>) -> Seq<StatusView> {
    match o {
        Ok(s) => s,
        Err(ErrorView::Skip(c, m)) => seq![skip_status(c, m)],
        Err(ErrorView::General(m)) => seq![error_status(m)],
    }
}

/// The error for a file that does not open as a font.
pub open spec fn not_a_font() -> ErrorView {
    ErrorView::General("The file could not be read as a font"@)
}

/// The error for a table that cannot be read.
pub open spec fn unreadable(tag: Seq<char>) -> ErrorView {
    ErrorView::General("the "@ + tag + " table could not be read"@)
}

/// The error for a file that does not open as a font.
pub fn not_a_font_error() -> (e: CheckError)
    ensures
        e@ == not_a_font(),
{
    CheckError::General(code_string("The file could not be read as a font"))
}

/// The error for a table that cannot be read.
pub fn unreadable_error(tag: &str) -> (e: CheckError)
    ensures
        e@ == unreadable(tag@),
{
    let mut m = String::from_str("the ");
    push_str(&mut m, tag);
    push_str(&mut m, " table could not be read");
    CheckError::General(m)
}

/// A skip with a code and a message.
pub fn skip(code: &str, message: &str) -> (e: CheckError)
    ensures
        e@ == ErrorView::Skip(code@, message@),
{
    CheckError::Skip { code: code_string(code), message: code_string(message) }
}

/// A list holding one status.
pub fn just_one(s: Status) -> (r: Vec<Status>)
    ensures
        views(r@) == seq![s@],
{
    let mut v: Vec<Status> = Vec::new();
    v.push(s);
    assert(views(v@) =~= seq![s@]);
    v
}

/// The statuses a check's outcome becomes.
pub fn findings_of(r: Result<Vec<Status>, CheckError>) -> (s: Vec<Status>)
    ensures
        views(s@) == findings(outcome(r)),
{
    match r {
        Ok(v) => v,
        Err(CheckError::Skip { code, message }) => just_one(Status {
            message: Some(message),
            severity: StatusCode::Skip,
            code: Some(code),
            metadata: None,
        }),
        Err(CheckError::General(m)) => just_one(Status {
            message: Some(m),
            severity: StatusCode::Error,
            code: None,
            metadata: None,
        }),
    }
}

} // verus!

verus! {

/// The statuses `f` gives for each item, in order.
pub open spec fn flat_map<T>(xs: Seq<T>, f: spec_fn(T) -> Seq<StatusView>) -> Seq<StatusView>
    decreases xs.len(),
{
    if xs.len() == 0 {
        Seq::empty()
    } else {
        flat_map(xs.drop_last(), f) + f(xs.last())
    }
}

/// One status when the condition holds, none otherwise.
pub open spec fn only_if(cond: bool, s: StatusView) -> Seq<StatusView> {
    if cond {
        seq![s]
    } else {
        Seq::empty()
    }
}

/// Appends a status when the condition holds.
pub fn push_when(v: &mut Vec<Status>, cond: bool, s: Status)
    ensures
        views(final(v)@) == views(old(v)@) + only_if(cond, s@),
{
    let ghost before = views(v@);
    if cond {
        v.push(s);
        assert(views(v@) =~= before + seq![s@]);
    } else {
        assert(views(v@) =~= before + Seq::<StatusView>::empty());
    }
}

/// The first `i + 1` items, one step on from the first `i`.
pub proof fn lemma_flat_map_step<T>(xs: Seq<T>, f: spec_fn(T) -> Seq<StatusView>, i: int)
    requires
        0 <= i < xs.len(),
    ensures
        flat_map(xs.take(i + 1), f) == flat_map(xs.take(i), f) + f(xs[i]),
{
    assert(xs.take(i + 1).drop_last() =~= xs.take(i));
}

} // verus!
