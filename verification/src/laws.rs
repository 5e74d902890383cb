//! Properties that hold across the functions of this library.
use vstd::prelude::*;
use crate::hotfix::hotfixes_spec;
use crate::outcome::ErrorView;
use crate::reporters::{all_codes, all_severities, count_of, counts_of, summary_of};
use crate::result::CheckResult;
use crate::status::{StatusCode, rank, worst_of};
use crate::words::{strip_state, stripped};
use crate::cjk::{VerticalMetrics, regression_problems, scale_to, scaled};
use crate::text::{decimal, signed_decimal};

verus! {

/// The worst severity of a list is at least as bad as each severity in it, and, when the list
/// is not empty, is one of them.
pub proof fn law_worst_is_max(s: Seq<StatusCode>)
    ensures
        forall|i: int| 0 <= i < s.len() ==> rank(#[trigger] s[i]) <= rank(worst_of(s)),
        s.len() > 0 ==> s.contains(worst_of(s)),
    decreases s.len(),
{
    if s.len() > 1 {
        law_worst_is_max(s.drop_last());
        assert forall|i: int| 0 <= i < s.len() implies rank(#[trigger] s[i]) <= rank(worst_of(s)) by {
            if i < s.len() - 1 {
                assert(s[i] == s.drop_last()[i]);
            }
        }
        let w = worst_of(s.drop_last());
        if rank(w) >= rank(s.last()) {
            let k = choose|k: int| 0 <= k < s.drop_last().len() && s.drop_last()[k] == w;
            assert(s[k] == w);
        } else {
            assert(s[s.len() - 1] == s.last());
        }
    } else if s.len() == 1 {
        assert(s[0] == worst_of(s));
    }
}

/// Whether a text holds no angle bracket.
pub open spec fn no_brackets(s: Seq<char>) -> bool {
    forall|i: int| 0 <= i < s.len() ==> s[i] != '<' && s[i] != '>'
}

proof fn lemma_stripped_has_no_brackets(s: Seq<char>)
    ensures
        no_brackets(strip_state(s).0),
    decreases s.len(),
{
    if s.len() > 0 {
        lemma_stripped_has_no_brackets(s.drop_last());
    }
}

proof fn lemma_strip_without_brackets(s: Seq<char>)
    requires
        no_brackets(s),
    ensures
        strip_state(s) == (s, false),
    decreases s.len(),
{
    if s.len() > 0 {
        assert(no_brackets(s.drop_last()));
        lemma_strip_without_brackets(s.drop_last());
        assert(s.drop_last().push(s.last()) =~= s);
    }
}

/// Removing HTML tags twice removes no more than removing them once.
pub proof fn law_stripped_idempotent(s: Seq<char>)
    ensures
        stripped(stripped(s)) == stripped(s),
{
    lemma_stripped_has_no_brackets(s);
    lemma_strip_without_brackets(strip_state(s).0);
}

/// The sum of the counts of a summary.
pub open spec fn total_count(c: Seq<(StatusCode, i32)>) -> int
    decreases c.len(),
{
    if c.len() == 0 {
        0
    } else {
        total_count(c.drop_last()) + c.last().1
    }
}

proof fn lemma_counts_total(codes: Seq<StatusCode>, sev: Seq<StatusCode>)
    requires
        sev.len() <= i32::MAX,
    ensures
        total_count(counts_of(codes, sev)) == sum_over(codes, sev),
    decreases codes.len(),
{
    if codes.len() > 0 {
        lemma_counts_total(codes.drop_last(), sev);
        lemma_count_bound(sev, codes.last());
        let prev = counts_of(codes.drop_last(), sev);
        let n = count_of(sev, codes.last());
        if n > 0 {
            let x = (codes.last(), n as i32);
            assert(prev.push(x).drop_last() =~= prev);
            assert(prev.push(x).last() == x);
        }
    }
}

proof fn lemma_count_bound(s: Seq<StatusCode>, c: StatusCode)
    ensures
        count_of(s, c) <= s.len(),
    decreases s.len(),
{
    if s.len() > 0 {
        lemma_count_bound(s.drop_last(), c);
    }
}

/// The counts of each of `codes` in `sev`, added up.
pub open spec fn sum_over(codes: Seq<StatusCode>, sev: Seq<StatusCode>) -> int
    decreases codes.len(),
{
    if codes.len() == 0 {
        0
    } else {
        sum_over(codes.drop_last(), sev) + count_of(sev, codes.last())
    }
}

proof fn lemma_sum_six(sev: Seq<StatusCode>)
    ensures
        sum_over(all_codes(), sev) == count_of(sev, StatusCode::Skip) + count_of(sev, StatusCode::Pass)
            + count_of(sev, StatusCode::Info) + count_of(sev, StatusCode::Warn) + count_of(sev, StatusCode::Fail)
            + count_of(sev, StatusCode::Error),
{
    let c = all_codes();
    let c5 = c.drop_last();
    let c4 = c5.drop_last();
    let c3 = c4.drop_last();
    let c2 = c3.drop_last();
    let c1 = c2.drop_last();
    let c0 = c1.drop_last();
    assert(c0 =~= Seq::<StatusCode>::empty());
    assert(c1.last() == StatusCode::Skip);
    assert(c2.last() == StatusCode::Pass);
    assert(c3.last() == StatusCode::Info);
    assert(c4.last() == StatusCode::Warn);
    assert(c5.last() == StatusCode::Fail);
    assert(c.last() == StatusCode::Error);
    assert(sum_over(c0, sev) == 0);
    assert(sum_over(c1, sev) == count_of(sev, StatusCode::Skip));
    assert(sum_over(c2, sev) == sum_over(c1, sev) + count_of(sev, StatusCode::Pass));
    assert(sum_over(c3, sev) == sum_over(c2, sev) + count_of(sev, StatusCode::Info));
    assert(sum_over(c4, sev) == sum_over(c3, sev) + count_of(sev, StatusCode::Warn));
    assert(sum_over(c5, sev) == sum_over(c4, sev) + count_of(sev, StatusCode::Fail));
    assert(sum_over(c, sev) == sum_over(c5, sev) + count_of(sev, StatusCode::Error));
}

proof fn lemma_all_codes_cover(sev: Seq<StatusCode>)
    ensures
        sum_over(all_codes(), sev) == sev.len(),
    decreases sev.len(),
{
    lemma_sum_six(sev);
    if sev.len() > 0 {
        lemma_all_codes_cover(sev.drop_last());
        lemma_sum_six(sev.drop_last());
    }
}

/// A summary counts every finding of a run once: its counts add up to the number of findings.
pub proof fn law_summary_counts_every_finding(rs: Seq<CheckResult>)
    requires
        all_severities(rs).len() <= i32::MAX,
    ensures
        total_count(summary_of(rs)) == all_severities(rs).len(),
{
    lemma_counts_total(all_codes(), all_severities(rs));
    lemma_all_codes_cover(all_severities(rs));
}

/// Applying no hotfixes leaves the font as it is and reports no change.
pub proof fn law_no_hotfixes_no_change(font: Seq<u8>)
    ensures
        hotfixes_spec(font, false, Seq::empty()) == (Ok::<bool, ErrorView>(false), font),
{
}

/// Scaling a metric to the unitsPerEm it already has leaves it as it is.
proof fn lemma_scaled_same(v: int, u: int)
    requires
        u > 0,
    ensures
        scaled(v, u, u) == v,
{
    assert(v * u >= 0 ==> (2 * (v * u) + u) / (2 * u) == v) by (nonlinear_arith)
        requires
            u > 0,
    {
        if v * u >= 0 {
            assert(2 * (v * u) + u == v * (2 * u) + u);
            assert(0 <= u < 2 * u);
        }
    }
    assert(v * u < 0 ==> (2 * (-(v * u)) + u) / (2 * u) == -v) by (nonlinear_arith)
        requires
            u > 0,
    {
        if v * u < 0 {
            assert(2 * (-(v * u)) + u == (-v) * (2 * u) + u);
            assert(0 <= u < 2 * u);
        }
    }
}

/// Metrics scaled to the unitsPerEm they already have are the same metrics.
pub proof fn law_scaling_to_own_upm_changes_nothing(m: VerticalMetrics)
    ensures
        scale_to(m, m.upm) == m,
{
    if m.upm > 0 {
        let u = m.upm as int;
        lemma_scaled_same(m.os2_typo_ascender as int, u);
        lemma_scaled_same(m.os2_typo_descender as int, u);
        lemma_scaled_same(m.os2_typo_linegap as int, u);
        lemma_scaled_same(m.os2_win_ascent as int, u);
        lemma_scaled_same(m.os2_win_descent as int, u);
        lemma_scaled_same(m.hhea_ascent as int, u);
        lemma_scaled_same(m.hhea_descent as int, u);
        lemma_scaled_same(m.hhea_linegap as int, u);
    }
}

/// A CJK font compared with a served family whose Regular has the same vertical metrics shows
/// no regression.
pub proof fn law_no_regression_against_itself(m: VerticalMetrics)
    ensures
        regression_problems(m, scale_to(m, m.upm)) == Seq::<crate::status::StatusView>::empty(),
{
    law_scaling_to_own_upm_changes_nothing(m);
    assert(regression_problems(m, m) =~= Seq::<crate::status::StatusView>::empty());
}

} // verus!

verus! {

proof fn lemma_max_advance(a: Seq<u16>)
    ensures
        forall|i: int| 0 <= i < a.len() ==> a[i] <= crate::opentype::max_advance(a),
        crate::opentype::max_advance(a) == 0 || exists|i: int|
            0 <= i < a.len() && a[i] == crate::opentype::max_advance(a),
    decreases a.len(),
{
    if a.len() > 0 {
        lemma_max_advance(a.drop_last());
        let m = crate::opentype::max_advance(a.drop_last());
        assert forall|i: int| 0 <= i < a.len() implies a[i] <= crate::opentype::max_advance(a) by {
            if i < a.len() - 1 {
                assert(a[i] == a.drop_last()[i]);
            }
        }
        if a.last() <= m && m != 0 {
            let i = choose|i: int| 0 <= i < a.drop_last().len() && a.drop_last()[i] == m;
            assert(a[i] == m);
        }
        if a.last() > m {
            assert(a[a.len() - 1] == a.last());
        }
    }
}

/// The advance width check passes exactly when hhea's advanceWidthMax is the widest advance of
/// hmtx (0 when hmtx has none): no advance is wider, and it is one of them or 0. Otherwise its
/// one finding is the `mismatch` failure.
pub proof fn law_maxadvancewidth_passes_iff_widest(font: Seq<u8>)
    requires
        crate::font::spec_is_font(font),
        crate::font::spec_hhea(font) is Some,
        crate::font::spec_advances(font) is Some,
    ensures
        ({
            let w = crate::font::spec_hhea(font)->Some_0.advance_width_max;
            let a = crate::font::spec_advances(font)->Some_0;
            let widest = (forall|i: int| 0 <= i < a.len() ==> a[i] <= w) && (w == 0 || exists|i: int|
                0 <= i < a.len() && a[i] == w);
            &&& crate::opentype::maxadvancewidth_outcome(font) is Ok
            &&& widest ==> crate::opentype::maxadvancewidth_outcome(font)->Ok_0 == seq![crate::status::passed()]
            &&& !widest ==> {
                let s = crate::opentype::maxadvancewidth_outcome(font)->Ok_0;
                &&& s.len() == 1
                &&& s[0].severity == StatusCode::Fail
                &&& s[0].code == Some("mismatch"@)
                &&& exists|v: u16| {
                    &&& (forall|i: int| 0 <= i < a.len() ==> a[i] <= v)
                    &&& (v == 0 || exists|i: int| 0 <= i < a.len() && a[i] == v)
                    &&& s[0].message == Some("AdvanceWidthMax mismatch: expected "@ + decimal(v as nat)
                        + " from hmtx; got "@ + decimal(w as nat) + " for hhea"@)
                    &&& s[0].metadata matches Some(pv) && pv.table_tag == "hhea"@
                        && pv.field_name == Some("advanceWidthMax"@)
                        && pv.actual == Some(crate::status::MetaView::Int(w as int))
                        && pv.expected == Some(crate::status::MetaView::Int(v as int))
                }
            }
        }),
{
    let w = crate::font::spec_hhea(font)->Some_0.advance_width_max;
    let a = crate::font::spec_advances(font)->Some_0;
    lemma_max_advance(a);
    let m = crate::opentype::max_advance(a);
    let widest = (forall|i: int| 0 <= i < a.len() ==> a[i] <= w) && (w == 0 || exists|i: int|
        0 <= i < a.len() && a[i] == w);
    if widest {
        if m != 0 {
            let i = choose|i: int| 0 <= i < a.len() && a[i] == m;
            assert(a[i] <= w);
        }
        if w != 0 {
            let i = choose|i: int| 0 <= i < a.len() && a[i] == w;
            assert(a[i] <= m);
        }
        assert(m == w);
    } else {
        assert(m != w);
        assert(forall|i: int| 0 <= i < a.len() ==> a[i] <= m);
    }
}

/// The WWS check passes exactly when the fsSelection WWS bit (bit 8) is set exactly when the
/// font has no WWS family or subfamily name (IDs 21 and 22); with the bit set and such a name
/// present, it warns `wws-with-wws-names`, and with the bit clear and no such name,
/// `no-wws-without-wws-names`.
pub proof fn law_fsselection_wws(font: Seq<u8>)
    requires
        crate::font::spec_is_font(font),
        crate::font::spec_os2(font) is Some,
    ensures
        ({
            let wws = crate::font::spec_os2(font)->Some_0.fs_selection & 0x100 != 0;
            let names = crate::font::spec_name_strings(font, 21).len() > 0
                || crate::font::spec_name_strings(font, 22).len() > 0;
            let s = crate::opentype::fsselection_wws_outcome(font)->Ok_0;
            &&& crate::opentype::fsselection_wws_outcome(font) is Ok
            &&& (s == seq![crate::status::passed()]) <==> (wws != names)
            &&& (wws && names) ==> s.len() == 1 && s[0].severity == StatusCode::Warn
                && s[0].code == Some("wws-with-wws-names"@)
                && s[0].message == Some("OS/2 fsSelection WWS bit is set, but the font has name IDs 21/22 (WWS Family/Subfamily). The WWS bit should only be set when the font's naming is already WWS-conformant without needing IDs 21/22."@)
            &&& (!wws && !names) ==> s.len() == 1 && s[0].severity == StatusCode::Warn
                && s[0].code == Some("no-wws-without-wws-names"@)
                && s[0].message == Some("OS/2 fsSelection WWS bit is not set, and the font does not have name IDs 21/22 (WWS Family/Subfamily). If the font's naming is WWS-conformant, the WWS bit should be set."@)
        }),
{
}

} // verus!

verus! {

/// How many of the eight vertical metrics (the OS/2 typographic ascender, descender and line
/// gap, the OS/2 Windows ascent and descent, and hhea's ascender, descender and line gap) of two
/// fonts differ.
pub open spec fn differing_metrics(l: VerticalMetrics, r: VerticalMetrics) -> int {
    (if l.os2_typo_ascender != r.os2_typo_ascender { 1int } else { 0int })
        + (if l.os2_typo_descender != r.os2_typo_descender { 1int } else { 0int })
        + (if l.os2_typo_linegap != r.os2_typo_linegap { 1int } else { 0int })
        + (if l.os2_win_ascent != r.os2_win_ascent { 1int } else { 0int })
        + (if l.os2_win_descent != r.os2_win_descent { 1int } else { 0int })
        + (if l.hhea_ascent != r.hhea_ascent { 1int } else { 0int })
        + (if l.hhea_descent != r.hhea_descent { 1int } else { 0int })
        + (if l.hhea_linegap != r.hhea_linegap { 1int } else { 0int })
}

proof fn lemma_contains_concat<A>(a: Seq<A>, b: Seq<A>, x: A)
    ensures
        a.contains(x) ==> (a + b).contains(x),
        b.contains(x) ==> (a + b).contains(x),
{
    if a.contains(x) {
        let i = choose|i: int| 0 <= i < a.len() && a[i] == x;
        assert((a + b)[i] == x);
    }
    if b.contains(x) {
        let i = choose|i: int| 0 <= i < b.len() && b[i] == x;
        assert((a + b)[a.len() + i] == x);
    }
}

/// The failure that names a metric whose local value is not the served one.
pub open spec fn metric_failure(name: Seq<char>, local: Seq<char>, served: Seq<char>) -> crate::status::StatusView {
    crate::status::StatusView {
        severity: StatusCode::Fail,
        code: Some("cjk-metric-regression"@),
        message: Some(name + " is "@ + local + " when it should be "@ + served),
        metadata: None,
    }
}

proof fn lemma_in_one_of_eight<A>(o1: Seq<A>, o2: Seq<A>, o3: Seq<A>, o4: Seq<A>, o5: Seq<A>, o6: Seq<A>, o7: Seq<A>, o8: Seq<A>, x: A)
    requires
        o1.contains(x) || o2.contains(x) || o3.contains(x) || o4.contains(x) || o5.contains(x)
            || o6.contains(x) || o7.contains(x) || o8.contains(x),
    ensures
        (o1 + o2 + o3 + o4 + o5 + o6 + o7 + o8).contains(x),
{
    lemma_contains_concat(o1, o2, x);
    lemma_contains_concat(o1 + o2, o3, x);
    lemma_contains_concat(o1 + o2 + o3, o4, x);
    lemma_contains_concat(o1 + o2 + o3 + o4, o5, x);
    lemma_contains_concat(o1 + o2 + o3 + o4 + o5, o6, x);
    lemma_contains_concat(o1 + o2 + o3 + o4 + o5 + o6, o7, x);
    lemma_contains_concat(o1 + o2 + o3 + o4 + o5 + o6 + o7, o8, x);
}

/// The eight pieces of the comparison of two fonts' metrics, in order.
pub open spec fn regression_parts(l: VerticalMetrics, r: VerticalMetrics) -> Seq<Seq<crate::status::StatusView>> {
    seq![
        crate::outcome::only_if(l.os2_typo_ascender != r.os2_typo_ascender, metric_failure(
            "OS/2 sTypoAscender"@, signed_decimal(l.os2_typo_ascender as int), signed_decimal(r.os2_typo_ascender as int))),
        crate::outcome::only_if(l.os2_typo_descender != r.os2_typo_descender, metric_failure(
            "OS/2 sTypoDescender"@, signed_decimal(l.os2_typo_descender as int), signed_decimal(r.os2_typo_descender as int))),
        crate::outcome::only_if(l.os2_typo_linegap != r.os2_typo_linegap, metric_failure(
            "OS/2 sTypoLineGap"@, signed_decimal(l.os2_typo_linegap as int), signed_decimal(r.os2_typo_linegap as int))),
        crate::outcome::only_if(l.os2_win_ascent != r.os2_win_ascent, metric_failure(
            "OS/2 usWinAscent"@, decimal(l.os2_win_ascent as nat), decimal(r.os2_win_ascent as nat))),
        crate::outcome::only_if(l.os2_win_descent != r.os2_win_descent, metric_failure(
            "OS/2 usWinDescent"@, decimal(l.os2_win_descent as nat), decimal(r.os2_win_descent as nat))),
        crate::outcome::only_if(l.hhea_ascent != r.hhea_ascent, metric_failure(
            "hhea ascent"@, signed_decimal(l.hhea_ascent as int), signed_decimal(r.hhea_ascent as int))),
        crate::outcome::only_if(l.hhea_descent != r.hhea_descent, metric_failure(
            "hhea descent"@, signed_decimal(l.hhea_descent as int), signed_decimal(r.hhea_descent as int))),
        crate::outcome::only_if(l.hhea_linegap != r.hhea_linegap, metric_failure(
            "hhea lineGap"@, signed_decimal(l.hhea_linegap as int), signed_decimal(r.hhea_linegap as int))),
    ]
}

#[verifier::spinoff_prover]
#[verifier::rlimit(40)]
proof fn lemma_regression_parts(l: VerticalMetrics, r: VerticalMetrics)
    ensures
        ({
            let o = regression_parts(l, r);
            regression_problems(l, r) == o[0] + o[1] + o[2] + o[3] + o[4] + o[5] + o[6] + o[7]
        }),
{
}

/// Comparing a CJK font's metrics with the served ones gives one failure per differing metric,
/// so none exactly when all eight metrics are equal.
#[verifier::spinoff_prover]
#[verifier::rlimit(40)]
pub proof fn law_one_regression_per_differing_metric(l: VerticalMetrics, r: VerticalMetrics)
    ensures
        regression_problems(l, r).len() == differing_metrics(l, r),
        regression_problems(l, r).len() == 0 <==> (l.os2_typo_ascender == r.os2_typo_ascender
            && l.os2_typo_descender == r.os2_typo_descender && l.os2_typo_linegap == r.os2_typo_linegap
            && l.os2_win_ascent == r.os2_win_ascent && l.os2_win_descent == r.os2_win_descent
            && l.hhea_ascent == r.hhea_ascent && l.hhea_descent == r.hhea_descent
            && l.hhea_linegap == r.hhea_linegap),
{
    lemma_regression_parts(l, r);
}

/// Whether a finding is a `cjk-metric-regression` failure.
pub open spec fn is_regression_failure(s: crate::status::StatusView) -> bool {
    s.severity == StatusCode::Fail && s.code == Some("cjk-metric-regression"@)
}

proof fn lemma_all_concat(a: Seq<crate::status::StatusView>, b: Seq<crate::status::StatusView>)
    requires
        forall|i: int| 0 <= i < a.len() ==> is_regression_failure(#[trigger] a[i]),
        forall|i: int| 0 <= i < b.len() ==> is_regression_failure(#[trigger] b[i]),
    ensures
        forall|i: int| 0 <= i < (a + b).len() ==> is_regression_failure(#[trigger] (a + b)[i]),
{
    assert forall|i: int| 0 <= i < (a + b).len() implies is_regression_failure(#[trigger] (a + b)[i]) by {
        if i < a.len() {
            assert((a + b)[i] == a[i]);
        } else {
            assert((a + b)[i] == b[i - a.len()]);
        }
    }
}

/// Every finding of the comparison of two fonts' metrics is a `cjk-metric-regression` failure.
#[verifier::spinoff_prover]
#[verifier::rlimit(40)]
pub proof fn law_regressions_are_failures(l: VerticalMetrics, r: VerticalMetrics)
    ensures
        forall|i: int| 0 <= i < regression_problems(l, r).len() ==> is_regression_failure(
            #[trigger] regression_problems(l, r)[i],
        ),
{
    lemma_regression_parts(l, r);
    let o = regression_parts(l, r);
    assert forall|k: int, j: int| 0 <= k < 8 && 0 <= j < o[k].len() implies is_regression_failure(
        #[trigger] o[k][j],
    ) by {
        assert(o[k].len() <= 1);
    }
    assert(forall|j: int| 0 <= j < o[0].len() ==> is_regression_failure(#[trigger] o[0][j]));
    assert(forall|j: int| 0 <= j < o[1].len() ==> is_regression_failure(#[trigger] o[1][j]));
    lemma_all_concat(o[0], o[1]);
    assert(forall|j: int| 0 <= j < o[2].len() ==> is_regression_failure(#[trigger] o[2][j]));
    lemma_all_concat(o[0] + o[1], o[2]);
    assert(forall|j: int| 0 <= j < o[3].len() ==> is_regression_failure(#[trigger] o[3][j]));
    lemma_all_concat(o[0] + o[1] + o[2], o[3]);
    assert(forall|j: int| 0 <= j < o[4].len() ==> is_regression_failure(#[trigger] o[4][j]));
    lemma_all_concat(o[0] + o[1] + o[2] + o[3], o[4]);
    assert(forall|j: int| 0 <= j < o[5].len() ==> is_regression_failure(#[trigger] o[5][j]));
    lemma_all_concat(o[0] + o[1] + o[2] + o[3] + o[4], o[5]);
    assert(forall|j: int| 0 <= j < o[6].len() ==> is_regression_failure(#[trigger] o[6][j]));
    lemma_all_concat(o[0] + o[1] + o[2] + o[3] + o[4] + o[5], o[6]);
    assert(forall|j: int| 0 <= j < o[7].len() ==> is_regression_failure(#[trigger] o[7][j]));
    lemma_all_concat(o[0] + o[1] + o[2] + o[3] + o[4] + o[5] + o[6], o[7]);
}

/// For each metric of a CJK font that differs from the served one, the comparison has a
/// `cjk-metric-regression` failure that names the metric with the local and the served value.
#[verifier::spinoff_prover]
#[verifier::rlimit(40)]
pub proof fn law_each_differing_metric_is_named(l: VerticalMetrics, r: VerticalMetrics)
    ensures
        l.os2_typo_ascender != r.os2_typo_ascender ==> regression_problems(l, r).contains(metric_failure(
            "OS/2 sTypoAscender"@, signed_decimal(l.os2_typo_ascender as int), signed_decimal(r.os2_typo_ascender as int))),
        l.os2_typo_descender != r.os2_typo_descender ==> regression_problems(l, r).contains(metric_failure(
            "OS/2 sTypoDescender"@, signed_decimal(l.os2_typo_descender as int), signed_decimal(r.os2_typo_descender as int))),
        l.os2_typo_linegap != r.os2_typo_linegap ==> regression_problems(l, r).contains(metric_failure(
            "OS/2 sTypoLineGap"@, signed_decimal(l.os2_typo_linegap as int), signed_decimal(r.os2_typo_linegap as int))),
        l.os2_win_ascent != r.os2_win_ascent ==> regression_problems(l, r).contains(metric_failure(
            "OS/2 usWinAscent"@, decimal(l.os2_win_ascent as nat), decimal(r.os2_win_ascent as nat))),
        l.os2_win_descent != r.os2_win_descent ==> regression_problems(l, r).contains(metric_failure(
            "OS/2 usWinDescent"@, decimal(l.os2_win_descent as nat), decimal(r.os2_win_descent as nat))),
        l.hhea_ascent != r.hhea_ascent ==> regression_problems(l, r).contains(metric_failure(
            "hhea ascent"@, signed_decimal(l.hhea_ascent as int), signed_decimal(r.hhea_ascent as int))),
        l.hhea_descent != r.hhea_descent ==> regression_problems(l, r).contains(metric_failure(
            "hhea descent"@, signed_decimal(l.hhea_descent as int), signed_decimal(r.hhea_descent as int))),
        l.hhea_linegap != r.hhea_linegap ==> regression_problems(l, r).contains(metric_failure(
            "hhea lineGap"@, signed_decimal(l.hhea_linegap as int), signed_decimal(r.hhea_linegap as int))),
{
    lemma_regression_parts(l, r);
    let o = regression_parts(l, r);
    assert forall|k: int| 0 <= k < 8 && #[trigger] o[k].len() == 1 implies o[k].contains(o[k][0]) by {
        assert(o[k][0] == o[k][0]);
    }
    assert forall|k: int| 0 <= k < 8 && o[k].len() == 1 implies
        (o[0] + o[1] + o[2] + o[3] + o[4] + o[5] + o[6] + o[7]).contains(#[trigger] o[k][0]) by {
        lemma_in_one_of_eight(o[0], o[1], o[2], o[3], o[4], o[5], o[6], o[7], o[k][0]);
    }
}

} // verus!

verus! {

/// Running hotfixes reports a change when one was reported before them, unless one fails: the
/// reported flag only ever goes from "unchanged" to "changed".
pub proof fn law_hotfix_change_stays_reported(font: Seq<u8>, ids: Seq<Seq<char>>)
    ensures
        hotfixes_spec(font, true, ids).0 is Ok ==> hotfixes_spec(font, true, ids).0 == Ok::<bool, ErrorView>(true),
    decreases ids.len(),
{
    if ids.len() > 0 {
        match crate::hotfix::find_check(crate::hotfix::all_checks(), ids[0]) {
            None => law_hotfix_change_stays_reported(font, ids.drop_first()),
            Some(c) => match crate::hotfix::hotfix_spec(c, font) {
                None => law_hotfix_change_stays_reported(font, ids.drop_first()),
                Some((Ok(m), f)) => law_hotfix_change_stays_reported(f, ids.drop_first()),
                Some((Err(e), f)) => {},
            },
        }
    }
}

/// The flag a run of hotfixes starts from is or-ed into what it reports: a run started from
/// `any` reports what the same run started from "unchanged" reports, or `any`.
pub proof fn law_hotfix_flag_is_disjunction(font: Seq<u8>, any: bool, ids: Seq<Seq<char>>)
    ensures
        hotfixes_spec(font, any, ids).1 == hotfixes_spec(font, false, ids).1,
        hotfixes_spec(font, any, ids).0 == match hotfixes_spec(font, false, ids).0 {
            Ok(b) => Ok::<bool, ErrorView>(any || b),
            Err(e) => Err(e),
        },
    decreases ids.len(),
{
    if ids.len() > 0 {
        match crate::hotfix::find_check(crate::hotfix::all_checks(), ids[0]) {
            None => law_hotfix_flag_is_disjunction(font, any, ids.drop_first()),
            Some(c) => match crate::hotfix::hotfix_spec(c, font) {
                None => law_hotfix_flag_is_disjunction(font, any, ids.drop_first()),
                Some((Ok(m), f)) => {
                    law_hotfix_flag_is_disjunction(f, any || m, ids.drop_first());
                    law_hotfix_flag_is_disjunction(f, m, ids.drop_first());
                },
                Some((Err(e), f)) => {},
            },
        }
    }
}

/// Running two lists of hotfixes one after the other is running them as one list: the second
/// list starts from the font the first left, and the change reported is whether either list
/// changed the font; an error of the first list stops the run.
pub proof fn law_hotfix_runs_compose(font: Seq<u8>, ids1: Seq<Seq<char>>, ids2: Seq<Seq<char>>)
    ensures
        hotfixes_spec(font, false, ids1 + ids2) == match hotfixes_spec(font, false, ids1) {
            (Ok(b1), f1) => match hotfixes_spec(f1, false, ids2) {
                (Ok(b2), f2) => (Ok::<bool, ErrorView>(b1 || b2), f2),
                (Err(e), f2) => (Err::<bool, ErrorView>(e), f2),
            },
            (Err(e), f1) => (Err::<bool, ErrorView>(e), f1),
        },
    decreases ids1.len(),
{
    if ids1.len() == 0 {
        assert(ids1 + ids2 =~= ids2);
    } else {
        assert((ids1 + ids2)[0] == ids1[0]);
        assert((ids1 + ids2).drop_first() =~= ids1.drop_first() + ids2);
        match crate::hotfix::find_check(crate::hotfix::all_checks(), ids1[0]) {
            None => law_hotfix_runs_compose(font, ids1.drop_first(), ids2),
            Some(c) => match crate::hotfix::hotfix_spec(c, font) {
                None => law_hotfix_runs_compose(font, ids1.drop_first(), ids2),
                Some((Ok(m), f)) => {
                    law_hotfix_runs_compose(f, ids1.drop_first(), ids2);
                    law_hotfix_flag_is_disjunction(f, m, ids1.drop_first() + ids2);
                    law_hotfix_flag_is_disjunction(f, m, ids1.drop_first());
                    let r1 = hotfixes_spec(f, false, ids1.drop_first());
                    if r1.0 is Ok {
                        law_hotfix_flag_is_disjunction(r1.1, false, ids2);
                    }
                },
                Some((Err(e), f)) => {},
            },
        }
    }
}

/// A single hotfix run on its own reports exactly what that hotfix reports.
pub proof fn law_single_hotfix(font: Seq<u8>, id: Seq<char>)
    ensures
        hotfixes_spec(font, false, seq![id]) == match crate::hotfix::find_check(crate::hotfix::all_checks(), id) {
            None => (Ok::<bool, ErrorView>(false), font),
            Some(c) => match crate::hotfix::hotfix_spec(c, font) {
                None => (Ok::<bool, ErrorView>(false), font),
                Some((r, f)) => (r, f),
            },
        },
{
    reveal_with_fuel(hotfixes_spec, 2);
    assert(seq![id][0] == id);
    assert(seq![id].drop_first() =~= Seq::<Seq<char>>::empty());
}

} // verus!

verus! {

/// The code points of a family's first font that are reported as missing from a sibling are
/// exactly those that at least one sibling lacks.
pub proof fn law_first_font_codepoints_reported(my: Seq<u32>, sibs: Seq<Seq<u32>>, x: u32)
    ensures
        crate::gf_fonts::we_have_they_dont(my, sibs).contains(x) <==> (my.contains(x) && exists|k: int|
            0 <= k < sibs.len() && !(#[trigger] sibs[k]).contains(x)),
    decreases my.len(),
{
    if my.len() > 0 {
        law_first_font_codepoints_reported(my.drop_last(), sibs, x);
        let prev = crate::gf_fonts::we_have_they_dont(my.drop_last(), sibs);
        let cur = crate::gf_fonts::we_have_they_dont(my, sibs);
        assert(my =~= my.drop_last().push(my.last()));
        if cur.contains(x) {
            if !prev.contains(x) {
                let i = choose|i: int| 0 <= i < cur.len() && cur[i] == x;
                assert(cur != prev);
                assert(cur == prev.push(my.last()));
                if i < prev.len() {
                    assert(prev[i] == x);
                }
                assert(x == my.last());
                assert(my[my.len() - 1] == x);
            } else {
                let i = choose|i: int| 0 <= i < my.drop_last().len() && my.drop_last()[i] == x;
                assert(my[i] == x);
            }
        }
        if my.contains(x) && exists|k: int| 0 <= k < sibs.len() && !(#[trigger] sibs[k]).contains(x) {
            let i = choose|i: int| 0 <= i < my.len() && my[i] == x;
            if i < my.len() - 1 {
                assert(my.drop_last()[i] == x);
                if cur != prev {
                    assert(cur == prev.push(my.last()));
                    assert(cur[prev.len() as int] == my.last());
                    let j = choose|j: int| 0 <= j < prev.len() && prev[j] == x;
                    assert(cur[j] == x);
                }
            } else {
                assert(crate::gf_fonts::missing_in_some(x, sibs));
                if !prev.contains(x) {
                    assert(cur == prev.push(x));
                    assert(cur[prev.len() as int] == x);
                }
            }
        }
    }
}

proof fn lemma_extend_missing(acc: Seq<u32>, sib: Seq<u32>, my: Seq<u32>, x: u32)
    ensures
        crate::gf_fonts::extend_missing(acc, sib, my).contains(x) <==> (acc.contains(x) || (sib.contains(x)
            && !my.contains(x))),
    decreases sib.len(),
{
    if sib.len() > 0 {
        lemma_extend_missing(acc, sib.drop_last(), my, x);
        let prev = crate::gf_fonts::extend_missing(acc, sib.drop_last(), my);
        let cur = crate::gf_fonts::extend_missing(acc, sib, my);
        let y = sib.last();
        if !my.contains(y) && !prev.contains(y) {
            assert(cur == prev.push(y));
            if cur.contains(x) && !prev.contains(x) {
                let i = choose|i: int| 0 <= i < cur.len() && cur[i] == x;
                if i < prev.len() {
                    assert(prev[i] == x);
                }
                assert(sib[sib.len() - 1] == x);
            }
            if prev.contains(x) {
                let i = choose|i: int| 0 <= i < prev.len() && prev[i] == x;
                assert(cur[i] == x);
            }
            if x == y {
                assert(cur[prev.len() as int] == x);
            }
        } else {
            assert(cur == prev);
        }
        if sib.contains(x) {
            let i = choose|i: int| 0 <= i < sib.len() && sib[i] == x;
            if i < sib.len() - 1 {
                assert(sib.drop_last()[i] == x);
            }
        }
        if sib.drop_last().contains(x) {
            let i = choose|i: int| 0 <= i < sib.drop_last().len() && sib.drop_last()[i] == x;
            assert(sib[i] == x);
        }
    }
}

/// The code points reported as missing from a family's first font are exactly those that it
/// lacks and at least one sibling has.
pub proof fn law_sibling_codepoints_reported(my: Seq<u32>, sibs: Seq<Seq<u32>>, x: u32)
    ensures
        crate::gf_fonts::they_have_we_dont(my, sibs).contains(x) <==> (!my.contains(x) && exists|k: int|
            0 <= k < sibs.len() && (#[trigger] sibs[k]).contains(x)),
    decreases sibs.len(),
{
    if sibs.len() > 0 {
        law_sibling_codepoints_reported(my, sibs.drop_last(), x);
        lemma_extend_missing(crate::gf_fonts::they_have_we_dont(my, sibs.drop_last()), sibs.last(), my, x);
        if exists|k: int| 0 <= k < sibs.len() && (#[trigger] sibs[k]).contains(x) {
            let k = choose|k: int| 0 <= k < sibs.len() && (#[trigger] sibs[k]).contains(x);
            if k < sibs.len() - 1 {
                assert(sibs.drop_last()[k] == sibs[k]);
            }
        }
        if exists|k: int| 0 <= k < sibs.drop_last().len() && (#[trigger] sibs.drop_last()[k]).contains(x) {
            let k = choose|k: int| 0 <= k < sibs.drop_last().len() && (#[trigger] sibs.drop_last()[k]).contains(x);
            assert(sibs[k] == sibs.drop_last()[k]);
        }
    }
}

} // verus!

verus! {

/// The code points of the fonts of a family, in the order the check takes them: the first font
/// then its siblings.
pub open spec fn family_codepoints(ts: Seq<crate::testable::Testable>) -> Seq<Seq<u32>> {
    crate::gf_fonts::codepoints_at(ts, crate::font::font_positions(ts))
}

/// For a family of at least two fonts, the code point coverage check passes exactly when every
/// sibling maps the same code points as the first font; when the first font maps a code point
/// that some sibling lacks, the first finding is the `glyphset-diverges` failure listing such
/// code points, and among them that one.
pub proof fn law_equal_codepoint_coverage(ts: Seq<crate::testable::Testable>, x: u32, k: int)
    requires
        crate::font::font_positions(ts).len() >= 2,
    ensures
        ({
            let cps = family_codepoints(ts);
            let my = cps[0];
            let sibs = cps.drop_first();
            let name = ts[crate::font::font_positions(ts)[0] as int].filename@;
            let o = crate::gf_fonts::equal_codepoint_coverage_outcome(ts);
            &&& o is Ok
            &&& (o->Ok_0 == seq![crate::status::passed()]) <==> (forall|j: int, y: u32|
                0 <= j < sibs.len() ==> (#[trigger] sibs[j].contains(y) <==> my.contains(y)))
            &&& (0 <= k < sibs.len() && my.contains(x) && !sibs[k].contains(x)) ==> exists|w: Seq<u32>| {
                &&& w.contains(x)
                &&& forall|y: u32| #[trigger] w.contains(y) ==> my.contains(y) && exists|j: int|
                    0 <= j < sibs.len() && !(#[trigger] sibs[j]).contains(y)
                &&& o->Ok_0[0] == crate::status::plain(StatusCode::Fail, "glyphset-diverges"@,
                    "Font "@ + name + " has codepoints not present in sibling fonts: "@
                        + crate::gf_fonts::codepoint_list(w))
            }
        }),
{
    let cps = family_codepoints(ts);
    let my = cps[0];
    let sibs = cps.drop_first();
    let we = crate::gf_fonts::we_have_they_dont(my, sibs);
    let they = crate::gf_fonts::they_have_we_dont(my, sibs);
    let o = crate::gf_fonts::equal_codepoint_coverage_outcome(ts);
    assert forall|y: u32| we.contains(y) <==> (my.contains(y) && exists|j: int|
        0 <= j < sibs.len() && !(#[trigger] sibs[j]).contains(y)) by {
        law_first_font_codepoints_reported(my, sibs, y);
    }
    assert forall|y: u32| they.contains(y) <==> (!my.contains(y) && exists|j: int|
        0 <= j < sibs.len() && (#[trigger] sibs[j]).contains(y)) by {
        law_sibling_codepoints_reported(my, sibs, y);
    }
    let same = forall|j: int, y: u32| 0 <= j < sibs.len() ==> (#[trigger] sibs[j].contains(y) <==> my.contains(y));
    if same {
        if we.len() > 0 {
            assert(we.contains(we[0]));
            let j = choose|j: int| 0 <= j < sibs.len() && !(#[trigger] sibs[j]).contains(we[0]);
            assert(sibs[j].contains(we[0]) <==> my.contains(we[0]));
        }
        if they.len() > 0 {
            assert(they.contains(they[0]));
            let j = choose|j: int| 0 <= j < sibs.len() && (#[trigger] sibs[j]).contains(they[0]);
            assert(sibs[j].contains(they[0]) <==> my.contains(they[0]));
        }
    } else {
        let (j, y) = choose|j: int, y: u32| !(0 <= j < sibs.len() ==> (#[trigger] sibs[j].contains(y) <==> my.contains(y)));
        if my.contains(y) {
            assert(we.contains(y));
        } else {
            assert(they.contains(y));
        }
        assert(we.len() > 0 || they.len() > 0);
        assert(o->Ok_0 != seq![crate::status::passed()]) by {
            if we.len() > 0 {
                assert(o->Ok_0[0].severity == StatusCode::Fail);
            } else {
                assert(o->Ok_0[0].severity == StatusCode::Fail);
            }
        }
    }
    if 0 <= k < sibs.len() && my.contains(x) && !sibs[k].contains(x) {
        assert(we.contains(x));
        assert(we.len() > 0);
    }
}

} // verus!
