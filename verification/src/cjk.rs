//! Vertical metrics of CJK fonts: comparing a family's metrics with the same family as served
//! by Google Fonts. Fetching the served family is the caller's work; what is decided from the
//! local font, the listing and the fetched files is here.
use vstd::prelude::*;
use crate::config::Context;
use crate::font::{
    is_font, is_font_path, read_hhea, read_os2, read_units_per_em, spec_hhea, spec_is_font, spec_os2,
    spec_units_per_em, font_path,
};
use crate::gf_fonts::{is_cjk, is_cjk_font};
use crate::outcome::{ErrorView, not_a_font, not_a_font_error, only_if, outcome, push_when, unreadable, unreadable_error, skip};
use crate::status::{CheckError, Status, StatusCode, StatusView, plain, result_of, return_result, views};
use crate::testable::{Testable, file_stem, spec_file_stem};
use crate::text::{decimal, push_decimal, push_signed, push_str, signed_decimal, chars_of, str_eq};

verus! {

/// The vertical metrics of a font: its unitsPerEm and the ascenders, descenders and line gaps
/// of its OS/2 and hhea tables.
#[derive(Clone, Copy, Debug, PartialEq, Eq, Structural)]
pub struct VerticalMetrics {
    pub upm: u16,
    pub os2_typo_ascender: i16,
    pub os2_typo_descender: i16,
    pub os2_typo_linegap: i16,
    pub os2_win_ascent: u16,
    pub os2_win_descent: u16,
    pub hhea_ascent: i16,
    pub hhea_descent: i16,
    pub hhea_linegap: i16,
}

/// The vertical metrics of a font, or the error for the first of the head, OS/2 and hhea tables
/// that cannot be read.
pub open spec fn metrics_of(font: Seq<u8>) -> Result<VerticalMetrics, ErrorView> {
    match spec_units_per_em(font) {
        None => Err(unreadable("head"@)),
        Some(upm) => match spec_os2(font) {
            None => Err(unreadable("OS/2"@)),
            Some(o) => match spec_hhea(font) {
                None => Err(unreadable("hhea"@)),
                Some(h) => Ok(VerticalMetrics {
                    upm,
                    os2_typo_ascender: o.typo_ascender,
                    os2_typo_descender: o.typo_descender,
                    os2_typo_linegap: o.typo_line_gap,
                    os2_win_ascent: o.win_ascent,
                    os2_win_descent: o.win_descent,
                    hhea_ascent: h.ascender,
                    hhea_descent: h.descender,
                    hhea_linegap: h.line_gap,
                }),
            },
        },
    }
}

/// Reads the vertical metrics of a font.
pub fn vertical_metrics(font: &[u8]) -> (r: Result<VerticalMetrics, CheckError>)
    ensures
        match r {
            Ok(m) => metrics_of(font@) == Ok::<VerticalMetrics, ErrorView>(m),
            Err(e) => metrics_of(font@) == Err::<VerticalMetrics, ErrorView>(e@),
        },
{
    let upm = match read_units_per_em(font) {
        Some(u) => u,
        None => return Err(unreadable_error("head")),
    };
    let o = match read_os2(font) {
        Some(o) => o,
        None => return Err(unreadable_error("OS/2")),
    };
    let h = match read_hhea(font) {
        Some(h) => h,
        None => return Err(unreadable_error("hhea")),
    };
    Ok(VerticalMetrics {
        upm,
        os2_typo_ascender: o.typo_ascender,
        os2_typo_descender: o.typo_descender,
        os2_typo_linegap: o.typo_line_gap,
        os2_win_ascent: o.win_ascent,
        os2_win_descent: o.win_descent,
        hhea_ascent: h.ascender,
        hhea_descent: h.descender,
        hhea_linegap: h.line_gap,
    })
}

/// `v * to / from`, rounded to the nearest integer, halves away from zero (`from` positive).
pub open spec fn scaled(v: int, to: int, from: int) -> int {
    if v * to >= 0 {
        (2 * (v * to) + from) / (2 * from)
    } else {
        -((2 * (-(v * to)) + from) / (2 * from))
    }
}

/// An integer brought into the range of `i16`.
pub open spec fn clamp_i16(x: int) -> i16 {
    if x < i16::MIN {
        i16::MIN
    } else if x > i16::MAX {
        i16::MAX
    } else {
        x as i16
    }
}

/// An integer brought into the range of `u16`.
pub open spec fn clamp_u16(x: int) -> u16 {
    if x < 0 {
        0
    } else if x > u16::MAX {
        u16::MAX
    } else {
        x as u16
    }
}

/// Metrics scaled to another unitsPerEm, each rounded and kept in the range of its type;
/// metrics with a unitsPerEm of zero are left as they are.
pub open spec fn scale_to(m: VerticalMetrics, upm: u16) -> VerticalMetrics {
    if m.upm == 0 {
        m
    } else {
        VerticalMetrics {
            upm,
            os2_typo_ascender: clamp_i16(scaled(m.os2_typo_ascender as int, upm as int, m.upm as int)),
            os2_typo_descender: clamp_i16(scaled(m.os2_typo_descender as int, upm as int, m.upm as int)),
            os2_typo_linegap: clamp_i16(scaled(m.os2_typo_linegap as int, upm as int, m.upm as int)),
            os2_win_ascent: clamp_u16(scaled(m.os2_win_ascent as int, upm as int, m.upm as int)),
            os2_win_descent: clamp_u16(scaled(m.os2_win_descent as int, upm as int, m.upm as int)),
            hhea_ascent: clamp_i16(scaled(m.hhea_ascent as int, upm as int, m.upm as int)),
            hhea_descent: clamp_i16(scaled(m.hhea_descent as int, upm as int, m.upm as int)),
            hhea_linegap: clamp_i16(scaled(m.hhea_linegap as int, upm as int, m.upm as int)),
        }
    }
}

/// One metric scaled and rounded.
fn scale_one(v: i64, to: u16, from: u16) -> (r: i64)
    requires
        from > 0,
        -65536 < v < 65536,
    ensures
        r == scaled(v as int, to as int, from as int),
{
    let t: i64 = to as i64;
    assert(-65536 * 65536 < v * t < 65536 * 65536) by (nonlinear_arith)
        requires
            -65536 < v < 65536,
            0 <= t < 65536,
    ;
    let n: i64 = v * t;
    let f: i64 = from as i64;
    if n >= 0 {
        (2 * n + f) / (2 * f)
    } else {
        -((2 * (-n) + f) / (2 * f))
    }
}

fn to_i16(x: i64) -> (r: i16)
    ensures
        r == clamp_i16(x as int),
{
    if x < -32768 {
        -32768
    } else if x > 32767 {
        32767
    } else {
        x as i16
    }
}

fn to_u16(x: i64) -> (r: u16)
    ensures
        r == clamp_u16(x as int),
{
    if x < 0 {
        0
    } else if x > 65535 {
        65535
    } else {
        x as u16
    }
}

/// Scales metrics to another unitsPerEm.
pub fn scale_to_upm(m: &VerticalMetrics, upm: u16) -> (r: VerticalMetrics)
    ensures
        r == scale_to(*m, upm),
{
    if m.upm == 0 {
        return *m;
    }
    let from = m.upm;
    VerticalMetrics {
        upm,
        os2_typo_ascender: to_i16(scale_one(m.os2_typo_ascender as i64, upm, from)),
        os2_typo_descender: to_i16(scale_one(m.os2_typo_descender as i64, upm, from)),
        os2_typo_linegap: to_i16(scale_one(m.os2_typo_linegap as i64, upm, from)),
        os2_win_ascent: to_u16(scale_one(m.os2_win_ascent as i64, upm, from)),
        os2_win_descent: to_u16(scale_one(m.os2_win_descent as i64, upm, from)),
        hhea_ascent: to_i16(scale_one(m.hhea_ascent as i64, upm, from)),
        hhea_descent: to_i16(scale_one(m.hhea_descent as i64, upm, from)),
        hhea_linegap: to_i16(scale_one(m.hhea_linegap as i64, upm, from)),
    }
}

/// The failure for a metric that differs from the served family's.
pub open spec fn regression(name: Seq<char>, local: Seq<char>, remote: Seq<char>) -> StatusView {
    plain(StatusCode::Fail, "cjk-metric-regression"@, name + " is "@ + local + " when it should be "@ + remote)
}

/// A failure for each metric of `l` that differs from the one of `r`.
pub open spec fn regression_problems(l: VerticalMetrics, r: VerticalMetrics) -> Seq<StatusView> {
    only_if(l.os2_typo_ascender != r.os2_typo_ascender, regression("OS/2 sTypoAscender"@,
        signed_decimal(l.os2_typo_ascender as int), signed_decimal(r.os2_typo_ascender as int)))
    + only_if(l.os2_typo_descender != r.os2_typo_descender, regression("OS/2 sTypoDescender"@,
        signed_decimal(l.os2_typo_descender as int), signed_decimal(r.os2_typo_descender as int)))
    + only_if(l.os2_typo_linegap != r.os2_typo_linegap, regression("OS/2 sTypoLineGap"@,
        signed_decimal(l.os2_typo_linegap as int), signed_decimal(r.os2_typo_linegap as int)))
    + only_if(l.os2_win_ascent != r.os2_win_ascent, regression("OS/2 usWinAscent"@,
        decimal(l.os2_win_ascent as nat), decimal(r.os2_win_ascent as nat)))
    + only_if(l.os2_win_descent != r.os2_win_descent, regression("OS/2 usWinDescent"@,
        decimal(l.os2_win_descent as nat), decimal(r.os2_win_descent as nat)))
    + only_if(l.hhea_ascent != r.hhea_ascent, regression("hhea ascent"@,
        signed_decimal(l.hhea_ascent as int), signed_decimal(r.hhea_ascent as int)))
    + only_if(l.hhea_descent != r.hhea_descent, regression("hhea descent"@,
        signed_decimal(l.hhea_descent as int), signed_decimal(r.hhea_descent as int)))
    + only_if(l.hhea_linegap != r.hhea_linegap, regression("hhea lineGap"@,
        signed_decimal(l.hhea_linegap as int), signed_decimal(r.hhea_linegap as int)))
}

fn regression_signed(name: &str, local: i16, remote: i16) -> (s: Status)
    ensures
        s@ == regression(name@, signed_decimal(local as int), signed_decimal(remote as int)),
{
    let mut m = String::from_str(name);
    push_str(&mut m, " is ");
    push_signed(&mut m, local as i64);
    push_str(&mut m, " when it should be ");
    push_signed(&mut m, remote as i64);
    Status::with_message(StatusCode::Fail, "cjk-metric-regression", m)
}

fn regression_unsigned(name: &str, local: u16, remote: u16) -> (s: Status)
    ensures
        s@ == regression(name@, decimal(local as nat), decimal(remote as nat)),
{
    let mut m = String::from_str(name);
    push_str(&mut m, " is ");
    push_decimal(&mut m, local as u64);
    push_str(&mut m, " when it should be ");
    push_decimal(&mut m, remote as u64);
    Status::with_message(StatusCode::Fail, "cjk-metric-regression", m)
}

/// Compares a font's vertical metrics with those of the served family, scaled to the font's
/// unitsPerEm: a failure for each metric that differs.
pub fn cjk_metric_regressions(local: &VerticalMetrics, remote_scaled: &VerticalMetrics) -> (r: Vec<Status>)
    ensures
        views(r@) == regression_problems(*local, *remote_scaled),
{
    let l = local;
    let r = remote_scaled;
    let mut p: Vec<Status> = Vec::new();
    crate::outcome::push_when(&mut p, l.os2_typo_ascender != r.os2_typo_ascender,
        regression_signed("OS/2 sTypoAscender", l.os2_typo_ascender, r.os2_typo_ascender));
    crate::outcome::push_when(&mut p, l.os2_typo_descender != r.os2_typo_descender,
        regression_signed("OS/2 sTypoDescender", l.os2_typo_descender, r.os2_typo_descender));
    crate::outcome::push_when(&mut p, l.os2_typo_linegap != r.os2_typo_linegap,
        regression_signed("OS/2 sTypoLineGap", l.os2_typo_linegap, r.os2_typo_linegap));
    crate::outcome::push_when(&mut p, l.os2_win_ascent != r.os2_win_ascent,
        regression_unsigned("OS/2 usWinAscent", l.os2_win_ascent, r.os2_win_ascent));
    crate::outcome::push_when(&mut p, l.os2_win_descent != r.os2_win_descent,
        regression_unsigned("OS/2 usWinDescent", l.os2_win_descent, r.os2_win_descent));
    crate::outcome::push_when(&mut p, l.hhea_ascent != r.hhea_ascent,
        regression_signed("hhea ascent", l.hhea_ascent, r.hhea_ascent));
    crate::outcome::push_when(&mut p, l.hhea_descent != r.hhea_descent,
        regression_signed("hhea descent", l.hhea_descent, r.hhea_descent));
    crate::outcome::push_when(&mut p, l.hhea_linegap != r.hhea_linegap,
        regression_signed("hhea lineGap", l.hhea_linegap, r.hhea_linegap));
    assert(views(p@) =~= regression_problems(*local, *remote_scaled));
    p
}

/// What follows the last occurrence of `c` in `s`; all of `s` when `c` does not occur.
pub open spec fn after_last(s: Seq<char>, c: char) -> Seq<char>
    decreases s.len(),
{
    if s.len() == 0 {
        s
    } else if s.last() == c {
        Seq::empty()
    } else {
        after_last(s.drop_last(), c).push(s.last())
    }
}

/// The style a font file's name gives: what follows the last hyphen of the file's stem (the
/// whole stem when it has none), as in "Family-Regular.ttf".
pub open spec fn style_of(path: Seq<char>) -> Option<Seq<char>> {
    match spec_file_stem(path) {
        Some(stem) => Some(after_last(stem, '-')),
        None => None,
    }
}

/// The style a font file's name gives.
pub fn style(path: &str) -> (r: Option<String>)
    ensures
        crate::status::opt_text(r) == style_of(path@),
{
    let stem = match file_stem(path) {
        Some(s) => s,
        None => return None,
    };
    let cs = chars_of(stem.as_str());
    let mut start: usize = 0;
    for i in 0..cs.len()
        invariant
            start <= i,
            after_last(cs@.take(i as int), '-') == cs@.subrange(start as int, i as int),
    {
        assert(cs@.take(i + 1).drop_last() =~= cs@.take(i as int));
        if cs[i] == '-' {
            start = i + 1;
            assert(cs@.subrange(start as int, i + 1) =~= Seq::<char>::empty());
        } else {
            assert(cs@.subrange(start as int, i + 1) =~= cs@.subrange(start as int, i as int).push(cs@[i as int]));
        }
    }
    assert(cs@.take(cs.len() as int) =~= cs@);
    let mut rest: Vec<char> = Vec::new();
    for k in start..cs.len()
        invariant
            start <= cs.len(),
            rest@ == cs@.subrange(start as int, k as int),
    {
        rest.push(cs[k]);
        assert(rest@ =~= cs@.subrange(start as int, k + 1));
    }
    Some(crate::text::string_of(&rest))
}

/// Whether a file is a font binary of the Regular style.
pub open spec fn is_regular_font(t: Testable) -> bool {
    is_font_path(t.filename@) && spec_is_font(t.contents@) && style_of(t.filename@) == Some("Regular"@)
}

/// The position of the first Regular font binary from position `i` on.
pub open spec fn first_regular_from(ts: Seq<Testable>, i: int) -> Option<int>
    decreases ts.len() - i,
{
    if i < 0 || i >= ts.len() {
        None
    } else if is_regular_font(ts[i]) {
        Some(i)
    } else {
        first_regular_from(ts, i + 1)
    }
}

fn regular_font(t: &Testable) -> (r: bool)
    ensures
        r == is_regular_font(*t),
{
    if !font_path(t.filename.as_str()) || !is_font(t.contents.as_slice()) {
        return false;
    }
    match style(t.filename.as_str()) {
        Some(s) => str_eq(s.as_str(), "Regular"),
        None => false,
    }
}

/// The position of the first Regular font binary of a list.
pub fn first_regular(ts: &Vec<Testable>) -> (r: Option<usize>)
    ensures
        match r {
            Some(i) => first_regular_from(ts@, 0) == Some(i as int),
            None => first_regular_from(ts@, 0) is None,
        },
{
    let mut i: usize = 0;
    while i < ts.len()
        invariant
            i <= ts.len(),
            first_regular_from(ts@, 0) == first_regular_from(ts@, i as int),
        decreases ts.len() - i,
    {
        if regular_font(&ts[i]) {
            return Some(i);
        }
        i = i + 1;
    }
    None
}

/// The skips and errors that come before the served family is consulted: a file that is not a
/// font, a style other than Regular, a font that is not CJK, and disabled network access.
pub open spec fn regressions_precheck_outcome(t: Testable, ctx: Context) -> Result<(), ErrorView> {
    if !spec_is_font(t.contents@) {
        Err(not_a_font())
    } else if style_of(t.filename@) != Some("Regular"@) {
        Err(ErrorView::Skip("not-regular"@, "Skipping non-Regular style"@))
    } else if !is_cjk(t.contents@) {
        Err(ErrorView::Skip("not-cjk-font"@, "This check only applies to CJK fonts."@))
    } else if ctx.skip_network {
        Err(ErrorView::Skip("network-disabled"@, "Network access disabled"@))
    } else {
        Ok(())
    }
}

/// The skips and errors that come before the served family is consulted.
pub fn regressions_precheck(t: &Testable, ctx: &Context) -> (r: Result<(), CheckError>)
    ensures
        match r {
            Ok(()) => regressions_precheck_outcome(*t, *ctx) == Ok::<(), ErrorView>(()),
            Err(e) => regressions_precheck_outcome(*t, *ctx) == Err::<(), ErrorView>(e@),
        },
{
    if !is_font(t.contents.as_slice()) {
        return Err(not_a_font_error());
    }
    let regular = match style(t.filename.as_str()) {
        Some(s) => str_eq(s.as_str(), "Regular"),
        None => false,
    };
    if !regular {
        return Err(skip("not-regular", "Skipping non-Regular style"));
    }
    if !is_cjk_font(t.contents.as_slice()) {
        return Err(skip("not-cjk-font", "This check only applies to CJK fonts."));
    }
    if ctx.skip_network {
        return Err(skip("network-disabled", "Network access disabled"));
    }
    Ok(())
}

/// The content of an outside answer: a value or the text of an error.
pub open spec fn answer<T>(r: Result<T, String>) -> Result<T, Seq<char>> {
    match r {
        Ok(v) => Ok(v),
        Err(e) => Err(e@),
    }
}

/// What the CJK regressions check finds, given whether the family is listed on Google Fonts
/// and the files of the served family (or the errors that consulting them gave): after the
/// prechecks, the font is compared with the first Regular font of the served family.
pub open spec fn regressions_outcome(
    t: Testable,
    ctx: Context,
    listed: Result<bool, Seq<char>>,
    remote: Result<Seq<Testable>, Seq<char>>,
) -> Result<Seq<StatusView>, ErrorView> {
    match regressions_precheck_outcome(t, ctx) {
        Err(e) => Err(e),
        Ok(()) => match listed {
            Err(m) => Err(ErrorView::General(m)),
            Ok(false) => Err(ErrorView::Skip("not-listed-on-google-fonts"@,
                "Skipping check because font is not listed on Google Fonts"@)),
            Ok(true) => match remote {
                Err(m) => Err(ErrorView::General("Could not get remote style: "@ + m)),
                Ok(rs) => match first_regular_from(rs, 0) {
                    None => Err(ErrorView::General("Could not find remote Regular style"@)),
                    Some(i) => match metrics_of(rs[i].contents@) {
                        Err(e) => Err(e),
                        Ok(rm) => match metrics_of(t.contents@) {
                            Err(e) => Err(e),
                            Ok(lm) => Ok(result_of(regression_problems(lm, scale_to(rm, lm.upm)))),
                        },
                    },
                },
            },
        },
    }
}

/// Checks that the vertical metrics of a Regular CJK font match those of the same family on
/// Google Fonts, given whether the family is listed there and the served family's files.
pub fn cjk_vertical_metrics_regressions(
    t: &Testable,
    ctx: &Context,
    listed: &Result<bool, String>,
    remote: &Result<Vec<Testable>, String>,
) -> (r: Result<Vec<Status>, CheckError>)
    ensures
        outcome(r) == regressions_outcome(
            *t,
            *ctx,
            answer(*listed),
            match *remote {
                Ok(v) => Ok::<Seq<Testable>, Seq<char>>(v@),
                Err(e) => Err::<Seq<Testable>, Seq<char>>(e@),
            },
        ),
{
    regressions_precheck(t, ctx)?;
    match listed {
        Err(m) => return Err(CheckError::General(m.clone())),
        Ok(false) => return Err(skip(
            "not-listed-on-google-fonts",
            "Skipping check because font is not listed on Google Fonts",
        )),
        Ok(true) => {},
    }
    let rs = match remote {
        Err(m) => {
            let mut msg = String::from_str("Could not get remote style: ");
            push_str(&mut msg, m.as_str());
            return Err(CheckError::General(msg));
        },
        Ok(rs) => rs,
    };
    let i = match first_regular(rs) {
        Some(i) => i,
        None => return Err(CheckError::General(String::from_str("Could not find remote Regular style"))),
    };
    proof {
        lemma_first_regular_in_range(rs@, 0);
    }
    let rm = vertical_metrics(rs[i].contents.as_slice())?;
    let lm = vertical_metrics(t.contents.as_slice())?;
    let scaled = scale_to_upm(&rm, lm.upm);
    Ok(return_result(cjk_metric_regressions(&lm, &scaled)))
}

/// The first Regular font, when there is one, lies within the list.
proof fn lemma_first_regular_in_range(ts: Seq<Testable>, i: int)
    ensures
        first_regular_from(ts, i) matches Some(k) ==> 0 <= k < ts.len(),
    decreases ts.len() - i,
{
    if 0 <= i < ts.len() && !is_regular_font(ts[i]) {
        lemma_first_regular_in_range(ts, i + 1);
    }
}


/// The failure of the CJK vertical metrics check when OS/2 fsSelection bit 7
/// (USE_TYPO_METRICS) is clear.
pub open spec fn cjk_fs_selection_findings(fs_selection: u16) -> Seq<StatusView> {
    only_if(fs_selection & 0x80 == 0, plain(StatusCode::Fail, "bad-fselection-bit7"@, "OS/2 fsSelection bit 7 must be enabled"@))
}

/// Checks that OS/2 fsSelection bit 7 (USE_TYPO_METRICS) is set, as CJK fonts need.
pub fn cjk_fs_selection_check(fs_selection: u16) -> (r: Vec<Status>)
    ensures
        views(r@) == cjk_fs_selection_findings(fs_selection),
{
    let mut p: Vec<Status> = Vec::new();
    push_when(&mut p, fs_selection & 0x80 == 0, Status::new(StatusCode::Fail, "bad-fselection-bit7",
        "OS/2 fsSelection bit 7 must be enabled"));
    assert(views(p@) =~= cjk_fs_selection_findings(fs_selection));
    p
}

/// The failures of the CJK vertical metrics check for non-zero line gaps.
pub open spec fn cjk_line_gap_findings(m: VerticalMetrics) -> Seq<StatusView> {
    only_if(
        m.os2_typo_linegap != 0,
        plain(StatusCode::Fail, "bad-OS/2.sTypoLineGap"@,
            "OS/2.sTypoLineGap is "@ + signed_decimal(m.os2_typo_linegap as int) + "; it should be 0"@),
    ) + only_if(
        m.hhea_linegap != 0,
        plain(StatusCode::Fail, "bad-hhea.lineGap"@,
            "hhea.lineGap is "@ + signed_decimal(m.hhea_linegap as int) + "; it should be 0"@),
    )
}

/// Checks that the OS/2 and hhea line gaps of a CJK font are zero.
pub fn cjk_line_gap_check(m: &VerticalMetrics) -> (r: Vec<Status>)
    ensures
        views(r@) == cjk_line_gap_findings(*m),
{
    let mut p: Vec<Status> = Vec::new();
    let mut a = String::from_str("OS/2.sTypoLineGap is ");
    push_signed(&mut a, m.os2_typo_linegap as i64);
    push_str(&mut a, "; it should be 0");
    push_when(&mut p, m.os2_typo_linegap != 0, Status::with_message(StatusCode::Fail, "bad-OS/2.sTypoLineGap", a));
    let mut b = String::from_str("hhea.lineGap is ");
    push_signed(&mut b, m.hhea_linegap as i64);
    push_str(&mut b, "; it should be 0");
    push_when(&mut p, m.hhea_linegap != 0, Status::with_message(StatusCode::Fail, "bad-hhea.lineGap", b));
    assert(views(p@) =~= cjk_line_gap_findings(*m));
    p
}

/// The absolute value of a whole number.
pub open spec fn magnitude(x: int) -> int {
    if x < 0 {
        -x
    } else {
        x
    }
}

/// The failures of the CJK vertical metrics check when hhea's ascent and descent differ from
/// OS/2's typographic ones (the descents compared by absolute value).
pub open spec fn cjk_ascent_findings(m: VerticalMetrics) -> Seq<StatusView> {
    only_if(
        m.hhea_ascent != m.os2_typo_ascender,
        plain(StatusCode::Fail, "ascent-mismatch"@, "hhea.ascent must match OS/2.sTypoAscender"@),
    ) + only_if(
        magnitude(m.hhea_descent as int) != magnitude(m.os2_typo_descender as int),
        plain(StatusCode::Fail, "descent-mismatch"@, "hhea.descent must match absolute value of OS/2.sTypoDescender"@),
    )
}

/// Checks that hhea's ascent and descent match OS/2's typographic ones.
pub fn cjk_ascent_check(m: &VerticalMetrics) -> (r: Vec<Status>)
    ensures
        views(r@) == cjk_ascent_findings(*m),
{
    let mut p: Vec<Status> = Vec::new();
    push_when(&mut p, m.hhea_ascent != m.os2_typo_ascender, Status::new(StatusCode::Fail, "ascent-mismatch",
        "hhea.ascent must match OS/2.sTypoAscender"));
    let hd: i32 = if m.hhea_descent < 0 { -(m.hhea_descent as i32) } else { m.hhea_descent as i32 };
    let od: i32 = if m.os2_typo_descender < 0 { -(m.os2_typo_descender as i32) } else { m.os2_typo_descender as i32 };
    push_when(&mut p, hd != od, Status::new(StatusCode::Fail, "descent-mismatch",
        "hhea.descent must match absolute value of OS/2.sTypoDescender"));
    assert(views(p@) =~= cjk_ascent_findings(*m));
    p
}

/// What the CJK vertical metrics check decides before it measures glyphs: the font's family
/// name must be readable; with the network allowed, a family already listed on Google Fonts is
/// skipped (and an error in asking is the check's error); a font that is not CJK is skipped;
/// otherwise its vertical metrics, or the error for the first unreadable table.
pub open spec fn cjk_metrics_precheck_outcome(
    t: Testable,
    ctx: Context,
    listed: Result<bool, Seq<char>>,
) -> Result<VerticalMetrics, ErrorView> {
    if !spec_is_font(t.contents@) {
        Err(not_a_font())
    } else if crate::font::best_family(t.contents@) is None {
        Err(ErrorView::General("Font lacks a family name"@))
    } else if !ctx.skip_network && listed is Err {
        Err(ErrorView::General(listed->Err_0))
    } else if !ctx.skip_network && listed == Ok::<bool, Seq<char>>(true) {
        Err(ErrorView::Skip("already-onboarded"@,
            "Not checking vertical metrics for fonts already onboarded to Google Fonts"@))
    } else if !is_cjk(t.contents@) {
        Err(ErrorView::Skip("non-cjk"@, "Not checking non-CJK fonts"@))
    } else {
        metrics_of(t.contents@)
    }
}

/// The prechecks of the CJK vertical metrics check, given whether the font's family is listed
/// on Google Fonts (consulted only when the network is allowed): the font's vertical metrics
/// when it is to be measured.
pub fn cjk_metrics_precheck(t: &Testable, ctx: &Context, listed: &Result<bool, String>) -> (r: Result<VerticalMetrics, CheckError>)
    ensures
        match r {
            Ok(m) => cjk_metrics_precheck_outcome(*t, *ctx, answer(*listed)) == Ok::<VerticalMetrics, ErrorView>(m),
            Err(e) => cjk_metrics_precheck_outcome(*t, *ctx, answer(*listed)) == Err::<VerticalMetrics, ErrorView>(e@),
        },
{
    let font = t.contents.as_slice();
    if !is_font(font) {
        return Err(not_a_font_error());
    }
    if crate::font::best_familyname(font).is_none() {
        return Err(CheckError::General(String::from_str("Font lacks a family name")));
    }
    if !ctx.skip_network {
        match listed {
            Err(m) => return Err(CheckError::General(m.clone())),
            Ok(true) => return Err(skip(
                "already-onboarded",
                "Not checking vertical metrics for fonts already onboarded to Google Fonts",
            )),
            Ok(false) => {},
        }
    }
    if !is_cjk_font(font) {
        return Err(skip("non-cjk", "Not checking non-CJK fonts"));
    }
    vertical_metrics(font)
}

/// The failures of the CJK vertical metrics check for a missing vmtx or vhea table.
pub open spec fn cjk_vertical_table_findings(has_vmtx: bool, has_vhea: bool) -> Seq<StatusView> {
    only_if(!has_vmtx, plain(StatusCode::Fail, "missing-vmtx-table"@, "A vmtx table should be present"@))
        + only_if(!has_vhea, plain(StatusCode::Fail, "missing-vhea-table"@, "A vhea table should be present"@))
}

/// Checks that a CJK font has vmtx and vhea tables (tags `0x766D7478` and `0x76686561`).
pub fn cjk_vertical_table_check(t: &Testable) -> (r: Vec<Status>)
    ensures
        views(r@) == cjk_vertical_table_findings(
            crate::font::spec_has_table(t.contents@, 0x766D7478),
            crate::font::spec_has_table(t.contents@, 0x76686561),
        ),
{
    let mut p: Vec<Status> = Vec::new();
    let vmtx = crate::font::has_table(t.contents.as_slice(), 0x766D7478);
    let vhea = crate::font::has_table(t.contents.as_slice(), 0x76686561);
    push_when(&mut p, !vmtx, Status::new(StatusCode::Fail, "missing-vmtx-table", "A vmtx table should be present"));
    push_when(&mut p, !vhea, Status::new(StatusCode::Fail, "missing-vhea-table", "A vhea table should be present"));
    assert(views(p@) =~= cjk_vertical_table_findings(vmtx, vhea));
    p
}

/// The failure of the CJK vertical metrics check for a font without a BASE table: the idtp
/// baseline is asked for as well unless the font's glyphs are square.
pub open spec fn missing_base_finding(square: bool) -> StatusView {
    plain(StatusCode::Fail, "missing-BASE-table"@, if square {
        "A BASE table with correct icfb/icft/ideo/romn baselines should be present"@
    } else {
        "A BASE table with correct icfb/icft/ideo/romn and idtp baselines should be present"@
    })
}

/// The failure for a missing BASE table, given whether the font's glyphs are square.
pub fn missing_base_status(square: bool) -> (r: Status)
    ensures
        r@ == missing_base_finding(square),
{
    if square {
        Status::new(StatusCode::Fail, "missing-BASE-table",
            "A BASE table with correct icfb/icft/ideo/romn baselines should be present")
    } else {
        Status::new(StatusCode::Fail, "missing-BASE-table",
            "A BASE table with correct icfb/icft/ideo/romn and idtp baselines should be present")
    }
}

/// The BASE script tags (big-endian) of CJK scripts: hani, jpan, kore, bopo, hira, hang, jamo,
/// hant, kana, and DFLT, whose default baseline should be the CJK one too.
pub open spec fn cjk_script_tags() -> Seq<u32> {
    seq![0x68616e69, 0x6a70616e, 0x6b6f7265, 0x626f706f, 0x68697261, 0x68616e67, 0x6a616d6f, 0x68616e74, 0x6b616e61, 0x44464c54]
}

/// The default baseline a BASE script record should have: `ideo` (0x6964656f) for a CJK script,
/// `romn` (0x726f6d6e) for any other.
pub open spec fn expected_default_baseline_spec(script_tag: u32) -> u32 {
    if cjk_script_tags().contains(script_tag) {
        0x6964656f
    } else {
        0x726f6d6e
    }
}

/// The default baseline a BASE script record should have.
pub fn expected_default_baseline(script_tag: u32) -> (r: u32)
    ensures
        r == expected_default_baseline_spec(script_tag),
{
    let tags: [u32; 10] = [0x68616e69, 0x6a70616e, 0x6b6f7265, 0x626f706f, 0x68697261, 0x68616e67, 0x6a616d6f, 0x68616e74, 0x6b616e61, 0x44464c54];
    assert(tags@ == cjk_script_tags());
    let mut i: usize = 0;
    while i < 10
        invariant
            i <= 10,
            tags@ == cjk_script_tags(),
            forall|k: int| 0 <= k < i ==> tags@[k] != script_tag,
        decreases 10 - i,
    {
        if tags[i] == script_tag {
            assert(cjk_script_tags()[i as int] == script_tag);
            return 0x6964656f;
        }
        i = i + 1;
    }
    assert(!cjk_script_tags().contains(script_tag));
    0x726f6d6e
}
} // verus!
