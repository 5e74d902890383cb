//! Severities, statuses and the result of one check.
use vstd::prelude::*;

verus! {

/// How bad a finding is; the variants are listed from the mildest to the worst.
#[derive(Clone, Copy, Debug, PartialEq, Eq, Structural)]
pub enum StatusCode {
    /// The check did not run because some condition was not met.
    Skip,
    /// There is no problem.
    Pass,
    /// Useful information, but no problem.
    Info,
    /// A problem which should be reviewed by hand.
    Warn,
    /// A problem which materially affects the font.
    Fail,
    /// Something went wrong while checking.
    Error,
}

/// The position of a severity in the order Skip < Pass < Info < Warn < Fail < Error.
pub open spec fn rank(s: StatusCode) -> nat {
    match s {
        StatusCode::Skip => 0,
        StatusCode::Pass => 1,
        StatusCode::Info => 2,
        StatusCode::Warn => 3,
        StatusCode::Fail => 4,
        StatusCode::Error => 5,
    }
}

impl StatusCode {
    /// The position of this severity in the order of severities.
    pub fn rank(&self) -> (r: u8)
        ensures
            r as nat == rank(*self),
    {
        match self {
            StatusCode::Skip => 0,
            StatusCode::Pass => 1,
            StatusCode::Info => 2,
            StatusCode::Warn => 3,
            StatusCode::Fail => 4,
            StatusCode::Error => 5,
        }
    }

    /// Whether this severity is at least as bad as `other`.
    pub fn at_least(&self, other: StatusCode) -> (r: bool)
        ensures
            r == (rank(*self) >= rank(other)),
    {
        self.rank() >= other.rank()
    }
}

/// The worse of two severities.
pub open spec fn worse(a: StatusCode, b: StatusCode) -> StatusCode {
    if rank(a) >= rank(b) {
        a
    } else {
        b
    }
}

/// The worst severity of a sequence of severities, or Pass when it is empty.
pub open spec fn worst_of(s: Seq<StatusCode>) -> StatusCode
    decreases s.len(),
{
    if s.len() == 0 {
        StatusCode::Pass
    } else if s.len() == 1 {
        s[0]
    } else {
        worse(worst_of(s.drop_last()), s.last())
    }
}

/// A value attached to a finding, such as what was found and what was expected.
#[derive(Debug)]
pub enum MetaValue {
    /// A whole number.
    Int(i64),
    /// A piece of text.
    Text(String),
    /// A list of whole numbers.
    IntList(Vec<i64>),
    /// A 16.16 fixed-point number, as its bits; written out as a number.
    Fixed(i32),
    /// A JSON value, already written out.
    Json(String),
}

/// Machine-readable details of a finding in a font table.
#[derive(Debug)]
pub struct TableProblem {
    /// The table the problem lies in.
    pub table_tag: String,
    /// The field the problem lies in, if any.
    pub field_name: Option<String>,
    /// The value that was found.
    pub actual: Option<MetaValue>,
    /// The value that was expected.
    pub expected: Option<MetaValue>,
    /// A human-readable description.
    pub message: String,
}

/// One finding of a check.
#[derive(Debug)]
pub struct Status {
    /// A human-readable description.
    pub message: Option<String>,
    /// How bad the finding is.
    pub severity: StatusCode,
    /// A machine-readable code for the finding.
    pub code: Option<String>,
    /// Machine-readable details, if any.
    pub metadata: Option<TableProblem>,
}

/// The error a check can end with.
#[derive(Debug)]
pub enum CheckError {
    /// The check does not apply; this becomes a Skip status.
    Skip { code: String, message: String },
    /// Something went wrong; this becomes an Error status.
    General(String),
}

/// The characters of an optional piece of text.
pub open spec fn opt_text(o: Option<String>) -> Option<Seq<char>> {
    match o {
        Some(s) => Some(s@),
        None => None,
    }
}

/// The mathematical content of a metadata value.
pub enum MetaView {
    Int(int),
    Text(Seq<char>),
    IntList(Seq<i64>),
    Fixed(i32),
    Json(Seq<char>),
}

impl View for MetaValue {
    type V = MetaView;

    open spec fn view(&self) -> MetaView {
        match self {
            MetaValue::Int(i) => MetaView::Int(*i as int),
            MetaValue::Text(t) => MetaView::Text(t@),
            MetaValue::IntList(l) => MetaView::IntList(l@),
            MetaValue::Fixed(b) => MetaView::Fixed(*b),
            MetaValue::Json(t) => MetaView::Json(t@),
        }
    }
}

/// The mathematical content of a table problem.
pub struct ProblemView {
    pub table_tag: Seq<char>,
    pub field_name: Option<Seq<char>>,
    pub actual: Option<MetaView>,
    pub expected: Option<MetaView>,
    pub message: Seq<char>,
}

impl View for TableProblem {
    type V = ProblemView;

    open spec fn view(&self) -> ProblemView {
        ProblemView {
            table_tag: self.table_tag@,
            field_name: opt_text(self.field_name),
            actual: match self.actual {
                Some(a) => Some(a@),
                None => None,
            },
            expected: match self.expected {
                Some(e) => Some(e@),
                None => None,
            },
            message: self.message@,
        }
    }
}

/// The mathematical content of a status.
pub struct StatusView {
    pub severity: StatusCode,
    pub code: Option<Seq<char>>,
    pub message: Option<Seq<char>>,
    pub metadata: Option<ProblemView>,
}

impl View for Status {
    type V = StatusView;

    open spec fn view(&self) -> StatusView {
        StatusView {
            severity: self.severity,
            code: opt_text(self.code),
            message: opt_text(self.message),
            metadata: match self.metadata {
                Some(m) => Some(m@),
                None => None,
            },
        }
    }
}

/// A status with a code and a message, and no metadata.
pub open spec fn plain(severity: StatusCode, code: Seq<char>, message: Seq<char>) -> StatusView {
    StatusView { severity, code: Some(code), message: Some(message), metadata: None }
}

/// The status of a check that found nothing wrong.
pub open spec fn passed() -> StatusView {
    StatusView { severity: StatusCode::Pass, code: None, message: None, metadata: None }
}

/// A status with a code, a message and table metadata.
pub open spec fn with_problem(
    severity: StatusCode,
    code: Seq<char>,
    message: Seq<char>,
    problem: ProblemView,
) -> StatusView {
    StatusView { severity, code: Some(code), message: Some(message), metadata: Some(problem) }
}

impl Status {
    /// A status with a code and a message.
    pub fn new(severity: StatusCode, code: &str, message: &str) -> (s: Status)
        ensures
            s@ == plain(severity, code@, message@),
    {
        Status {
            message: Some(code_string(message)),
            severity,
            code: Some(code_string(code)),
            metadata: None,
        }
    }

    /// A status with a code and an owned message.
    pub fn with_message(severity: StatusCode, code: &str, message: String) -> (s: Status)
        ensures
            s@ == plain(severity, code@, message@),
    {
        Status { message: Some(message), severity, code: Some(code_string(code)), metadata: None }
    }

    /// A status with a code, an owned message and table metadata.
    pub fn with_metadata(severity: StatusCode, code: &str, message: String, problem: TableProblem) -> (s: Status)
        ensures
            s@ == with_problem(severity, code@, message@, problem@),
    {
        Status {
            message: Some(message),
            severity,
            code: Some(code_string(code)),
            metadata: Some(problem),
        }
    }

    /// A passing status with neither code nor message.
    pub fn pass() -> (s: Status)
        ensures
            s@ == passed(),
    {
        Status { message: None, severity: StatusCode::Pass, code: None, metadata: None }
    }
}

fn copy_text(o: &Option<String>) -> (r: Option<String>)
    ensures
        opt_text(r) == opt_text(*o),
{
    match o {
        Some(s) => Some(s.clone()),
        None => None,
    }
}

impl MetaValue {
    /// A copy of this value.
    pub fn copy(&self) -> (r: MetaValue)
        ensures
            r@ == self@,
    {
        match self {
            MetaValue::Int(i) => MetaValue::Int(*i),
            MetaValue::Text(t) => MetaValue::Text(t.clone()),
            MetaValue::IntList(l) => MetaValue::IntList(l.clone()),
            MetaValue::Fixed(b) => MetaValue::Fixed(*b),
            MetaValue::Json(t) => MetaValue::Json(t.clone()),
        }
    }
}

fn copy_meta(o: &Option<MetaValue>) -> (r: Option<MetaValue>)
    ensures
        match *o {
            Some(a) => r matches Some(b) && b@ == a@,
            None => r is None,
        },
{
    match o {
        Some(m) => Some(m.copy()),
        None => None,
    }
}

impl TableProblem {
    /// A copy of this problem.
    pub fn copy(&self) -> (r: TableProblem)
        ensures
            r@ == self@,
    {
        TableProblem {
            table_tag: self.table_tag.clone(),
            field_name: copy_text(&self.field_name),
            actual: copy_meta(&self.actual),
            expected: copy_meta(&self.expected),
            message: self.message.clone(),
        }
    }
}

impl Status {
    /// A copy of this status.
    pub fn copy(&self) -> (r: Status)
        ensures
            r@ == self@,
    {
        Status {
            message: copy_text(&self.message),
            severity: self.severity,
            code: copy_text(&self.code),
            metadata: match &self.metadata {
                Some(m) => Some(m.copy()),
                None => None,
            },
        }
    }
}

/// Copies a list of statuses.
pub fn copy_statuses(v: &Vec<Status>) -> (r: Vec<Status>)
    ensures
        views(r@) == views(v@),
{
    let mut out: Vec<Status> = Vec::new();
    for i in 0..v.len()
        invariant
            out@.len() == i,
            forall|j: int| 0 <= j < i ==> (#[trigger] out@[j])@ == v@[j]@,
    {
        out.push(v[i].copy());
    }
    assert(views(out@) =~= views(v@));
    out
}

/// What a check reports for its findings: a single pass when there are none.
pub open spec fn result_of(problems: Seq<StatusView>) -> Seq<StatusView> {
    if problems.len() == 0 {
        seq![passed()]
    } else {
        problems
    }
}

/// The views of a list of statuses.
pub open spec fn views(s: Seq<Status>) -> Seq<StatusView> {
    s.map_values(|x: Status| x@)
}

/// Reports a list of findings, or a single pass when the list is empty.
pub fn return_result(problems: Vec<Status>) -> (r: Vec<Status>)
    ensures
        views(r@) == result_of(views(problems@)),
{
    if problems.len() == 0 {
        let mut v: Vec<Status> = Vec::new();
        v.push(Status::pass());
        proof {
            assert(views(v@) =~= seq![passed()]);
        }
        v
    } else {
        problems
    }
}

/// An owned copy of a piece of text.
pub fn code_string(s: &str) -> (r: String)
    ensures
        r@ == s@,
{
    String::from_str(s)
}

} // verus!
