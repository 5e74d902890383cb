//! The results of a whole run, the command-line options that govern reporting, and which
//! reports a run writes.
use vstd::prelude::*;
use crate::result::{CheckResult, CheckResultView, severities};
use crate::status::{StatusCode, rank, worst_of};
use crate::text::str_eq;

verus! {

/// The command-line options of a run.
pub struct Args {
    /// Plugins to load.
    pub plugins: Vec<String>,
    /// The profile to check against.
    pub profile: String,
    /// Whether to list the checks of the profile.
    pub list_checks: bool,
    /// Whether to list the checks of the profile as JSON.
    pub list_checks_json: bool,
    /// The number of worker threads.
    pub jobs: Option<usize>,
    /// A configuration file to read.
    pub configuration: Option<String>,
    /// Check identifiers (or parts of them) to run.
    pub checkid: Option<Vec<String>>,
    /// Check identifiers (or parts of them) to leave out.
    pub exclude_checkid: Option<Vec<String>>,
    /// Whether lists in messages are given in full.
    pub full_lists: bool,
    /// The severity from which the run exits with code 1.
    pub error_code_on: StatusCode,
    /// How verbose logging is.
    pub verbose: u8,
    /// The severity from which findings are logged.
    pub loglevel: StatusCode,
    /// Whether to report nothing on the terminal.
    pub quiet: bool,
    /// Whether to use the compact terminal layout.
    pub succinct: bool,
    /// The timeout of network operations, in seconds.
    pub timeout: Option<u64>,
    /// Whether to skip checks that use the network.
    pub skip_network: bool,
    /// Where to write a JSON report; `-` is standard output.
    pub json: Option<String>,
    /// Where to write a CSV report; `-` is standard output.
    pub csv: Option<String>,
    /// Where to write a GitHub Markdown report; `-` is standard output.
    pub ghmarkdown: Option<String>,
    /// Where to write an HTML report; `-` is standard output.
    pub html: Option<String>,
    /// Whether to copy the bundled templates to the user's template directory.
    pub update_templates: bool,
    /// A directory to write JSON badges to.
    pub badges: Option<String>,
    /// Whether to fix found problems in the font binaries.
    pub hotfix: bool,
    /// Whether to fix the sources.
    pub fix_sources: bool,
    /// The files to check.
    pub inputs: Vec<String>,
}

/// Whether an output option names standard output.
pub open spec fn is_stdout(o: Option<String>) -> bool {
    o matches Some(s) && s@ == "-"@
}

/// How many of the JSON, CSV, HTML and Markdown reports go to standard output.
pub open spec fn stdout_count(args: Args) -> nat {
    (if is_stdout(args.json) { 1nat } else { 0nat }) + (if is_stdout(args.csv) { 1nat } else { 0nat })
        + (if is_stdout(args.html) { 1nat } else { 0nat }) + (if is_stdout(args.ghmarkdown) { 1nat } else { 0nat })
}

fn names_stdout(o: &Option<String>) -> (r: usize)
    ensures
        r == (if is_stdout(*o) { 1usize } else { 0usize }),
{
    match o {
        Some(s) => if str_eq(s.as_str(), "-") {
            1
        } else {
            0
        },
        None => 0,
    }
}

/// Whether a report goes to standard output; an error when more than one does.
pub fn any_stdout(args: &Args) -> (r: Result<bool, String>)
    ensures
        stdout_count(*args) == 0 ==> r == Ok::<bool, String>(false),
        stdout_count(*args) == 1 ==> r == Ok::<bool, String>(true),
        stdout_count(*args) > 1 ==> (r matches Err(e) && e@
            == "Only one of --json, --csv, or --ghmarkdown can be stdout"@),
{
    let count_stdout = names_stdout(&args.json) + names_stdout(&args.csv) + names_stdout(&args.html)
        + names_stdout(&args.ghmarkdown);
    match count_stdout {
        1 => Ok(true),
        0 => Ok(false),
        _ => Err(String::from_str("Only one of --json, --csv, or --ghmarkdown can be stdout")),
    }
}

/// A report a run writes.
pub enum ReporterKind {
    /// A JSON report to the given file.
    Json(String),
    /// A GitHub Markdown report to the given file; the flag asks to update the templates.
    Markdown(String, bool),
    /// An HTML report to the given file; the flag asks to update the templates.
    Html(String, bool),
    /// A CSV report to the given file.
    Csv(String),
    /// JSON badges written to the given directory.
    Badges(String),
}

/// The content of a report kind.
pub enum ReporterView {
    Json(Seq<char>),
    Markdown(Seq<char>, bool),
    Html(Seq<char>, bool),
    Csv(Seq<char>),
    Badges(Seq<char>),
}

impl View for ReporterKind {
    type V = ReporterView;

    open spec fn view(&self) -> ReporterView {
        match self {
            ReporterKind::Json(f) => ReporterView::Json(f@),
            ReporterKind::Markdown(f, u) => ReporterView::Markdown(f@, *u),
            ReporterKind::Html(f, u) => ReporterView::Html(f@, *u),
            ReporterKind::Csv(f) => ReporterView::Csv(f@),
            ReporterKind::Badges(d) => ReporterView::Badges(d@),
        }
    }
}

/// The reports the options ask for, in the order JSON, Markdown, HTML, CSV, badges.
pub open spec fn requested_reports(args: Args) -> Seq<ReporterView> {
    (match args.json {
        Some(f) => seq![ReporterView::Json(f@)],
        None => Seq::empty(),
    }) + (match args.ghmarkdown {
        Some(f) => seq![ReporterView::Markdown(f@, args.update_templates)],
        None => Seq::empty(),
    }) + (match args.html {
        Some(f) => seq![ReporterView::Html(f@, args.update_templates)],
        None => Seq::empty(),
    }) + (match args.csv {
        Some(f) => seq![ReporterView::Csv(f@)],
        None => Seq::empty(),
    }) + (match args.badges {
        Some(d) => seq![ReporterView::Badges(d@)],
        None => Seq::empty(),
    })
}

/// The views of a list of report kinds.
pub open spec fn reporter_views(v: Seq<ReporterKind>) -> Seq<ReporterView> {
    v.map_values(|r: ReporterKind| r@)
}

/// Appends the reports the options ask for.
pub fn process_reporter_args(args: &Args, reporters: &mut Vec<ReporterKind>)
    ensures
        reporter_views(final(reporters)@) == reporter_views(old(reporters)@) + requested_reports(*args),
{
    let ghost start = reporter_views(reporters@);
    if let Some(jsonfile) = &args.json {
        reporters.push(ReporterKind::Json(jsonfile.clone()));
    }
    let ghost a = reporter_views(reporters@);
    if let Some(mdfile) = &args.ghmarkdown {
        reporters.push(ReporterKind::Markdown(mdfile.clone(), args.update_templates));
    }
    let ghost b = reporter_views(reporters@);
    if let Some(htmlfile) = &args.html {
        reporters.push(ReporterKind::Html(htmlfile.clone(), args.update_templates));
    }
    let ghost c = reporter_views(reporters@);
    if let Some(csvfile) = &args.csv {
        reporters.push(ReporterKind::Csv(csvfile.clone()));
    }
    let ghost d = reporter_views(reporters@);
    if let Some(directory) = &args.badges {
        reporters.push(ReporterKind::Badges(directory.clone()));
    }
    proof {
        assert(reporter_views(reporters@) =~= start + requested_reports(*args));
    }
}

/// Something that writes a report of a run.
pub trait Reporter {
    /// Writes the report.
    fn report(&self, results: &RunResults, args: &Args);
}

/// The results of all checks in a run.
pub struct RunResults {
    results: Vec<CheckResult>,
}

/// The worst severity of each result.
pub open spec fn result_worsts(rs: Seq<CheckResult>) -> Seq<StatusCode> {
    rs.map_values(|r: CheckResult| worst_of(severities(r.subresults@)))
}

/// The severities of all findings of all results, in order.
pub open spec fn all_severities(rs: Seq<CheckResult>) -> Seq<StatusCode>
    decreases rs.len(),
{
    if rs.len() == 0 {
        Seq::empty()
    } else {
        all_severities(rs.drop_last()) + severities(rs.last().subresults@)
    }
}

/// How many times a severity occurs.
pub open spec fn count_of(s: Seq<StatusCode>, c: StatusCode) -> nat
    decreases s.len(),
{
    if s.len() == 0 {
        0
    } else {
        count_of(s.drop_last(), c) + if s.last() == c {
            1nat
        } else {
            0nat
        }
    }
}

/// All severities, from the mildest to the worst.
pub open spec fn all_codes() -> Seq<StatusCode> {
    seq![
        StatusCode::Skip,
        StatusCode::Pass,
        StatusCode::Info,
        StatusCode::Warn,
        StatusCode::Fail,
        StatusCode::Error,
    ]
}

/// For each of `codes` that occurs in `sev`, the code and how many times it occurs, in the order
/// of `codes`.
pub open spec fn counts_of(codes: Seq<StatusCode>, sev: Seq<StatusCode>) -> Seq<(StatusCode, i32)>
    decreases codes.len(),
{
    if codes.len() == 0 {
        Seq::empty()
    } else {
        let prev = counts_of(codes.drop_last(), sev);
        let n = count_of(sev, codes.last());
        if n > 0 {
            prev.push((codes.last(), n as i32))
        } else {
            prev
        }
    }
}

/// How many findings there are of each severity that occurs, from the mildest to the worst.
pub open spec fn summary_of(rs: Seq<CheckResult>) -> Seq<(StatusCode, i32)> {
    counts_of(all_codes(), all_severities(rs))
}

proof fn lemma_count_le(s: Seq<StatusCode>, c: StatusCode)
    ensures
        count_of(s, c) <= s.len(),
    decreases s.len(),
{
    if s.len() > 0 {
        lemma_count_le(s.drop_last(), c);
    }
}

fn code_of_rank(i: usize) -> (c: StatusCode)
    requires
        i < 6,
    ensures
        c == all_codes()[i as int],
        rank(c) == i,
{
    match i {
        0 => StatusCode::Skip,
        1 => StatusCode::Pass,
        2 => StatusCode::Info,
        3 => StatusCode::Warn,
        4 => StatusCode::Fail,
        _ => StatusCode::Error,
    }
}

/// The text results are grouped under first.
fn file_key_of(r: &CheckResult) -> (k: String)
    ensures
        k@ == file_key(r@),
{
    match &r.filename {
        Some(f) => f.clone(),
        None => String::from_str("All fonts"),
    }
}

/// The text results are grouped under second.
fn section_key_of(r: &CheckResult) -> (k: String)
    ensures
        k@ == section_key(r@),
{
    match &r.section {
        Some(s) => s.clone(),
        None => String::from_str("No section"),
    }
}

/// The characters of each string.
pub open spec fn key_texts(v: Seq<String>) -> Seq<Seq<char>> {
    v.map_values(|s: String| s@)
}

fn has_key(v: &Vec<String>, k: &str) -> (r: bool)
    ensures
        r == key_texts(v@).contains(k@),
{
    let mut i: usize = 0;
    while i < v.len()
        invariant
            i <= v.len(),
            forall|j: int| 0 <= j < i ==> v@[j]@ != k@,
        decreases v.len() - i,
    {
        if str_eq(v[i].as_str(), k) {
            assert(key_texts(v@)[i as int] == k@);
            return true;
        }
        i = i + 1;
    }
    proof {
        if key_texts(v@).contains(k@) {
            let j = choose|j: int| 0 <= j < key_texts(v@).len() && key_texts(v@)[j] == k@;
            assert(v@[j]@ == k@);
        }
    }
    false
}

fn matches_group(r: &CheckResult, file: &str, section: Option<&str>) -> (b: bool)
    ensures
        b == (file_key(r@) == file@ && (match section {
            Some(s) => section_key(r@) == s@,
            None => true,
        })),
{
    let f = file_key_of(r);
    if !str_eq(f.as_str(), file) {
        return false;
    }
    match section {
        Some(s) => {
            let k = section_key_of(r);
            str_eq(k.as_str(), s)
        },
        None => true,
    }
}

fn select_results(rs: &Vec<CheckResult>, file: &str, section: Option<&str>) -> (out: Vec<CheckResult>)
    ensures
        result_views(out@) == select(
            result_views(rs@),
            file@,
            match section {
                Some(s) => Some(s@),
                None => None,
            },
        ),
{
    let ghost sec = match section {
        Some(s) => Some(s@),
        None => None::<Seq<char>>,
    };
    let mut out: Vec<CheckResult> = Vec::new();
    for i in 0..rs.len()
        invariant
            sec == match section {
                Some(s) => Some(s@),
                None => None::<Seq<char>>,
            },
            result_views(out@) == select(result_views(rs@.take(i as int)), file@, sec),
    {
        proof {
            assert(result_views(rs@.take(i + 1)).drop_last() =~= result_views(rs@.take(i as int)));
        }
        if matches_group(&rs[i], file, section) {
            let c = rs[i].copy();
            let ghost before = out@;
            out.push(c);
            assert(result_views(out@) =~= result_views(before).push(c@));
        }
    }
    assert(rs@.take(rs.len() as int) =~= rs@);
    out
}

proof fn lemma_distinct_contains(keys: Seq<Seq<char>>, k: Seq<char>)
    ensures
        distinct(keys).contains(k) == keys.contains(k),
    decreases keys.len(),
{
    if keys.len() > 0 {
        lemma_distinct_contains(keys.drop_last(), k);
        let d = distinct(keys.drop_last());
        if keys.contains(k) && !keys.drop_last().contains(k) {
            assert(keys.last() == k) by {
                let j = choose|j: int| 0 <= j < keys.len() && keys[j] == k;
                if j < keys.len() - 1 {
                    assert(keys.drop_last()[j] == k);
                }
            }
        }
        if keys.drop_last().contains(k) {
            let j = choose|j: int| 0 <= j < keys.drop_last().len() && keys.drop_last()[j] == k;
            assert(keys[j] == k);
        }
        if !d.contains(keys.last()) {
            assert(d.push(keys.last()).last() == keys.last());
            if d.contains(k) {
                let j = choose|j: int| 0 <= j < d.len() && d[j] == k;
                assert(d.push(keys.last())[j] == k);
            }
            if d.push(keys.last()).contains(k) && k != keys.last() {
                let j = choose|j: int| 0 <= j < d.push(keys.last()).len() && d.push(keys.last())[j]
                    == k;
                assert(d[j] == k);
            }
        }
    }
}

fn distinct_file_keys(rs: &Vec<CheckResult>) -> (keys: Vec<String>)
    ensures
        key_texts(keys@) == distinct(result_views(rs@).map_values(|r: CheckResultView| file_key(r))),
{
    let mut keys: Vec<String> = Vec::new();
    for i in 0..rs.len()
        invariant
            key_texts(keys@) == distinct(
                result_views(rs@.take(i as int)).map_values(|r: CheckResultView| file_key(r)),
            ),
    {
        let k = file_key_of(&rs[i]);
        proof {
            assert(result_views(rs@.take(i + 1)).map_values(|r: CheckResultView| file_key(r)).drop_last()
                =~= result_views(rs@.take(i as int)).map_values(|r: CheckResultView| file_key(r)));
        }
        if !has_key(&keys, k.as_str()) {
            let ghost before = keys@;
            keys.push(k);
            assert(key_texts(keys@) =~= key_texts(before).push(k@));
        }
    }
    assert(rs@.take(rs.len() as int) =~= rs@);
    keys
}

fn distinct_section_keys(rs: &Vec<CheckResult>, file: &str) -> (keys: Vec<String>)
    ensures
        key_texts(keys@) == distinct(
            select(result_views(rs@), file@, None).map_values(|r: CheckResultView| section_key(r)),
        ),
{
    let mut keys: Vec<String> = Vec::new();
    for i in 0..rs.len()
        invariant
            key_texts(keys@) == distinct(
                select(result_views(rs@.take(i as int)), file@, None).map_values(
                    |r: CheckResultView| section_key(r),
                ),
            ),
    {
        proof {
            assert(result_views(rs@.take(i + 1)).drop_last() =~= result_views(rs@.take(i as int)));
        }
        if matches_group(&rs[i], file, None) {
            let k = section_key_of(&rs[i]);
            proof {
                let sel = select(result_views(rs@.take(i + 1)), file@, None);
                assert(sel.map_values(|r: CheckResultView| section_key(r)).drop_last() =~= select(
                    result_views(rs@.take(i as int)),
                    file@,
                    None,
                ).map_values(|r: CheckResultView| section_key(r)));
            }
            if !has_key(&keys, k.as_str()) {
                let ghost before = keys@;
                keys.push(k);
                assert(key_texts(keys@) =~= key_texts(before).push(k@));
            }
        }
    }
    assert(rs@.take(rs.len() as int) =~= rs@);
    keys
}

/// The key results are grouped by first: the file, or "All fonts" for a collection.
pub open spec fn file_key(r: CheckResultView) -> Seq<char> {
    match r.filename {
        Some(f) => f,
        None => "All fonts"@,
    }
}

/// The key results are grouped by second: the section, or "No section".
pub open spec fn section_key(r: CheckResultView) -> Seq<char> {
    match r.section {
        Some(s) => s,
        None => "No section"@,
    }
}

/// The keys of a sequence, each once, in the order they first occur.
pub open spec fn distinct(keys: Seq<Seq<char>>) -> Seq<Seq<char>>
    decreases keys.len(),
{
    if keys.len() == 0 {
        keys
    } else if distinct(keys.drop_last()).contains(keys.last()) {
        distinct(keys.drop_last())
    } else {
        distinct(keys.drop_last()).push(keys.last())
    }
}

/// The results filed under `file` and `section`, in order; any section when `section` is none.
pub open spec fn select(rs: Seq<CheckResultView>, file: Seq<char>, section: Option<Seq<char>>) -> Seq<
    CheckResultView,
>
    decreases rs.len(),
{
    if rs.len() == 0 {
        rs
    } else {
        let r = rs.last();
        let prev = select(rs.drop_last(), file, section);
        if file_key(r) == file && (section matches Some(s) ==> section_key(r) == s) {
            prev.push(r)
        } else {
            prev
        }
    }
}

/// Results grouped by file, then by section: each group in the order its key first occurs, and
/// the results of a group in their order.
pub open spec fn organized(rs: Seq<CheckResultView>) -> Seq<
    (Seq<char>, Seq<(Seq<char>, Seq<CheckResultView>)>),
> {
    distinct(rs.map_values(|r: CheckResultView| file_key(r))).map_values(
        |f: Seq<char>|
            (
                f,
                distinct(
                    select(rs, f, None).map_values(|r: CheckResultView| section_key(r)),
                ).map_values(|s: Seq<char>| (s, select(rs, f, Some(s)))),
            ),
    )
}

/// The content of results grouped by file and section.
pub open spec fn organized_view(o: Seq<(String, Vec<(String, Vec<CheckResult>)>)>) -> Seq<
    (Seq<char>, Seq<(Seq<char>, Seq<CheckResultView>)>),
> {
    o.map_values(
        |g: (String, Vec<(String, Vec<CheckResult>)>)|
            (
                g.0@,
                g.1@.map_values(
                    |sg: (String, Vec<CheckResult>)|
                        (sg.0@, sg.1@.map_values(|r: CheckResult| r@)),
                ),
            ),
    )
}

/// The contents of a list of results.
pub open spec fn result_views(rs: Seq<CheckResult>) -> Seq<CheckResultView> {
    rs.map_values(|r: CheckResult| r@)
}

impl RunResults {
    /// The results of a run.
    pub fn from(results: Vec<CheckResult>) -> (r: RunResults)
        ensures
            r@ == results@,
    {
        RunResults { results }
    }

    /// Each result, in order.
    pub fn iter(&self) -> (r: &[CheckResult])
        ensures
            r@ == self@,
    {
        self.results.as_slice()
    }

    /// Each result, in order, to be changed in place.
    pub fn iter_mut(&mut self) -> (r: &mut Vec<CheckResult>)
        ensures
            r@ == old(self)@,
            final(self)@ == final(r)@,
    {
        &mut self.results
    }

    /// The number of results.
    pub fn len(&self) -> (r: usize)
        ensures
            r == self@.len(),
    {
        self.results.len()
    }

    /// The worst severity of all results, or Pass when there are none.
    pub fn worst_status(&self) -> (r: StatusCode)
        ensures
            r == worst_of(result_worsts(self@)),
    {
        let mut worst = StatusCode::Pass;
        let mut i: usize = 0;
        while i < self.results.len()
            invariant
                i <= self.results.len(),
                i == 0 ==> worst == StatusCode::Pass,
                i > 0 ==> worst == worst_of(result_worsts(self@.take(i as int))),
            decreases self.results.len() - i,
        {
            let w = self.results[i].worst_status();
            proof {
                assert(result_worsts(self@.take(i + 1)).drop_last() =~= result_worsts(
                    self@.take(i as int),
                ));
            }
            if i == 0 || w.at_least(worst) {
                worst = w;
            }
            i = i + 1;
        }
        assert(self@.take(self.results.len() as int) =~= self@);
        worst
    }
}

impl RunResults {
    /// How many findings there are of each severity that occurs, from the mildest to the worst.
    pub fn summary(&self) -> (r: Vec<(StatusCode, i32)>)
        requires
            all_severities(self@).len() <= i32::MAX,
        ensures
            r@ == summary_of(self@),
    {
        let mut counts: Vec<i32> = vec![0, 0, 0, 0, 0, 0];
        let mut i: usize = 0;
        while i < self.results.len()
            invariant
                i <= self.results.len(),
                all_severities(self@).len() <= i32::MAX,
                counts@.len() == 6,
                all_severities(self@.take(i as int)).len() <= all_severities(self@).len(),
                forall|c: int| 0 <= c < 6 ==> #[trigger] counts@[c] == count_of(
                    all_severities(self@.take(i as int)),
                    all_codes()[c],
                ),
            decreases self.results.len() - i,
        {
            let subs = &self.results[i].subresults;
            let ghost prefix = all_severities(self@.take(i as int));
            let ghost sev = severities(subs@);
            proof {
                assert(self@.take(i + 1).drop_last() =~= self@.take(i as int));
                lemma_all_severities_prefix(self@, i + 1);
            }
            let mut j: usize = 0;
            while j < subs.len()
                invariant
                    j <= subs.len(),
                    counts@.len() == 6,
                    sev == severities(subs@),
                    prefix.len() + sev.len() <= i32::MAX,
                    forall|c: int| 0 <= c < 6 ==> #[trigger] counts@[c] == count_of(
                        prefix + sev.take(j as int),
                        all_codes()[c],
                    ),
                decreases subs.len() - j,
            {
                let r = subs[j].severity.rank() as usize;
                proof {
                    assert((prefix + sev.take(j + 1)).drop_last() =~= prefix + sev.take(j as int));
                    lemma_count_le(prefix + sev.take(j as int), all_codes()[r as int]);
                }
                counts.set(r, counts[r] + 1);
                proof {
                    assert forall|c: int| 0 <= c < 6 implies #[trigger] counts@[c] == count_of(
                        prefix + sev.take(j + 1),
                        all_codes()[c],
                    ) by {
                        assert((prefix + sev.take(j + 1)).last() == subs@[j as int].severity);
                    }
                }
                j = j + 1;
            }
            proof {
                assert(sev.take(subs.len() as int) =~= sev);
            }
            i = i + 1;
        }
        assert(self@.take(self.results.len() as int) =~= self@);
        let ghost sev = all_severities(self@);
        let mut out: Vec<(StatusCode, i32)> = Vec::new();
        let mut c: usize = 0;
        while c < 6
            invariant
                c <= 6,
                counts@.len() == 6,
                forall|k: int| 0 <= k < 6 ==> #[trigger] counts@[k] == count_of(sev, all_codes()[k]),
                out@ == counts_of(all_codes().take(c as int), sev),
            decreases 6 - c,
        {
            proof {
                assert(all_codes().take(c + 1).drop_last() =~= all_codes().take(c as int));
            }
            if counts[c] > 0 {
                out.push((code_of_rank(c), counts[c]));
            }
            c = c + 1;
        }
        assert(all_codes().take(6) =~= all_codes());
        out
    }

    /// The results grouped by file ("All fonts" for a collection), then by section ("No
    /// section" when there is none): each group in the order its key first occurs, the results
    /// of a group in their order.
    pub fn organize(&self) -> (r: Vec<(String, Vec<(String, Vec<CheckResult>)>)>)
        ensures
            organized_view(r@) == organized(result_views(self@)),
    {
        let rs = &self.results;
        let files = distinct_file_keys(rs);
        let mut out: Vec<(String, Vec<(String, Vec<CheckResult>)>)> = Vec::new();
        let ghost all = result_views(rs@);
        let ghost target = organized(all);
        for i in 0..files.len()
            invariant
                all == result_views(rs@),
                target == organized(all),
                key_texts(files@) == distinct(all.map_values(|r: CheckResultView| file_key(r))),
                organized_view(out@) == target.take(i as int),
        {
            let f = files[i].as_str();
            let sections = distinct_section_keys(rs, f);
            let mut groups: Vec<(String, Vec<CheckResult>)> = Vec::new();
            for j in 0..sections.len()
                invariant
                    key_texts(sections@) == distinct(
                        select(all, f@, None).map_values(|r: CheckResultView| section_key(r)),
                    ),
                    all == result_views(rs@),
                    groups@.len() == j,
                    forall|t: int|
                        0 <= t < j ==> (#[trigger] groups@[t]).0@ == sections@[t]@ && result_views(
                            groups@[t].1@,
                        ) == select(all, f@, Some(sections@[t]@)),
            {
                let members = select_results(rs, f, Some(sections[j].as_str()));
                groups.push((sections[j].clone(), members));
            }
            let ghost before = out@;
            let g = (files[i].clone(), groups);
            out.push(g);
            proof {
                let gv = (
                    g.0@,
                    g.1@.map_values(
                        |sg: (String, Vec<CheckResult>)|
                            (sg.0@, sg.1@.map_values(|r: CheckResult| r@)),
                    ),
                );
                assert(key_texts(files@)[i as int] == files@[i as int]@);
                assert(gv.1 =~= distinct(
                    select(all, f@, None).map_values(|r: CheckResultView| section_key(r)),
                ).map_values(|s: Seq<char>| (s, select(all, f@, Some(s)))));
                assert(organized_view(out@) =~= organized_view(before).push(gv));
                assert(target.take(i + 1) =~= target.take(i as int).push(target[i as int]));
            }
        }
        assert(target.take(files.len() as int) =~= target);
        out
    }
}

proof fn lemma_all_severities_prefix(rs: Seq<CheckResult>, i: int)
    requires
        0 <= i <= rs.len(),
    ensures
        all_severities(rs.take(i)).len() <= all_severities(rs).len(),
    decreases rs.len() - i,
{
    if i < rs.len() {
        lemma_all_severities_prefix(rs, i + 1);
        assert(rs.take(i + 1).drop_last() =~= rs.take(i));
    } else {
        assert(rs.take(i) =~= rs);
    }
}

impl View for RunResults {
    type V = Seq<CheckResult>;

    closed spec fn view(&self) -> Seq<CheckResult> {
        self.results@
    }
}

} // verus!
