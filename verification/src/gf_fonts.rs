//! Checks of the Google Fonts profile that read font binaries, and their hotfixes.
use vstd::prelude::*;
use crate::config::Context;
use crate::font::{
    AxisInfo, StatValueView, axis_display_name, best_subfamily, best_subfamilyname, fixed_text, is_font,
    is_variable, is_variable_font, read_axes, read_codepoints, read_instances, read_name_strings,
    read_os2, read_stat_axes, read_stat_values, spec_axes, spec_axis_display_name, spec_codepoints,
    spec_fixed_text, spec_instances, spec_is_font, spec_name_strings, spec_os2, spec_stat_axes,
    spec_stat_ok, spec_stat_values, spec_version_matches, stat_ok, tag_display, tag_text,
    version_matches, InstanceInfo,
};
use crate::googlefonts::{contains_vf, vf_word};
use crate::opentype::{apply_fs_selection, fix_view, fs_selection_fix, not_variable};
use crate::outcome::{
    ErrorView, flat_map, lemma_flat_map_step, not_a_font, not_a_font_error, only_if, outcome,
    push_when, skip, unreadable, unreadable_error,
};
use crate::status::{
    CheckError, MetaValue, MetaView, ProblemView, Status, StatusCode, StatusView, TableProblem,
    code_string, passed, plain, result_of, return_result, views, with_problem,
};
use crate::testable::Testable;
use crate::text::{decimal, push_decimal, push_str, str_eq};
use crate::words::{Splitter, has_word};

verus! {

/// The Unicode blocks whose code points make a font count as CJK.
pub open spec fn cjk_ranges() -> Seq<(u32, u32)> {
    seq![
        (0x1100u32, 0x11ffu32), (0x2e80, 0x2eff), (0x2f00, 0x2fdf), (0x2ff0, 0x2fff),
        (0x3000, 0x303f), (0x3040, 0x309f), (0x30a0, 0x30ff), (0x3100, 0x312f),
        (0x3130, 0x318f), (0x3190, 0x319f), (0x31a0, 0x31bf), (0x31c0, 0x31ef),
        (0x31f0, 0x31ff), (0x3200, 0x32ff), (0x3300, 0x33ff), (0x3400, 0x4dbf),
        (0x4e00, 0x9fff), (0xa960, 0xa97f), (0xac00, 0xd7af), (0xd7b0, 0xd7ff),
        (0xf900, 0xfaff), (0xfe30, 0xfe4f), (0xff00, 0xffef), (0x1b000, 0x1b0ff),
        (0x1b100, 0x1b12f), (0x1f200, 0x1f2ff), (0x20000, 0x2a6df), (0x2a700, 0x2b73f),
        (0x2b740, 0x2b81f), (0x2b820, 0x2ceaf), (0x2ceb0, 0x2ebef), (0x2f800, 0x2fa1f),
    ]
}

/// Whether a code point lies in a CJK block.
pub open spec fn is_cjk_codepoint(cp: u32) -> bool {
    exists|k: int| 0 <= k < cjk_ranges().len() && #[trigger] cjk_ranges()[k].0 <= cp <= cjk_ranges()[k].1
}

/// How many of the code points lie in CJK blocks.
pub open spec fn cjk_count(cps: Seq<u32>) -> nat
    decreases cps.len(),
{
    if cps.len() == 0 {
        0
    } else {
        cjk_count(cps.drop_last()) + if is_cjk_codepoint(cps.last()) {
            1nat
        } else {
            0nat
        }
    }
}

/// Whether a font is a CJK font: more than 150 of the code points it maps lie in CJK blocks.
pub open spec fn is_cjk(font: Seq<u8>) -> bool {
    cjk_count(spec_codepoints(font)) > 150
}

/// Whether a code point lies in one of the CJK ranges.
pub fn cjk_codepoint(cp: u32) -> (r: bool)
    ensures
        r == is_cjk_codepoint(cp),
{
    let ranges: Vec<(u32, u32)> = vec![
        (0x1100u32, 0x11ffu32), (0x2e80, 0x2eff), (0x2f00, 0x2fdf), (0x2ff0, 0x2fff),
        (0x3000, 0x303f), (0x3040, 0x309f), (0x30a0, 0x30ff), (0x3100, 0x312f),
        (0x3130, 0x318f), (0x3190, 0x319f), (0x31a0, 0x31bf), (0x31c0, 0x31ef),
        (0x31f0, 0x31ff), (0x3200, 0x32ff), (0x3300, 0x33ff), (0x3400, 0x4dbf),
        (0x4e00, 0x9fff), (0xa960, 0xa97f), (0xac00, 0xd7af), (0xd7b0, 0xd7ff),
        (0xf900, 0xfaff), (0xfe30, 0xfe4f), (0xff00, 0xffef), (0x1b000, 0x1b0ff),
        (0x1b100, 0x1b12f), (0x1f200, 0x1f2ff), (0x20000, 0x2a6df), (0x2a700, 0x2b73f),
        (0x2b740, 0x2b81f), (0x2b820, 0x2ceaf), (0x2ceb0, 0x2ebef), (0x2f800, 0x2fa1f),
    ];
    assert(ranges@ == cjk_ranges());
    let mut i: usize = 0;
    while i < ranges.len()
        invariant
            ranges@ == cjk_ranges(),
            i <= ranges.len(),
            forall|k: int| 0 <= k < i ==> !(#[trigger] cjk_ranges()[k].0 <= cp <= cjk_ranges()[k].1),
        decreases ranges.len() - i,
    {
        if ranges[i].0 <= cp && cp <= ranges[i].1 {
            assert(cjk_ranges()[i as int].0 <= cp <= cjk_ranges()[i as int].1);
            return true;
        }
        i = i + 1;
    }
    false
}

/// Whether a font is a CJK font.
pub fn is_cjk_font(font: &[u8]) -> (r: bool)
    ensures
        r == is_cjk(font@),
{
    let cps = read_codepoints(font);
    let mut n: usize = 0;
    for i in 0..cps.len()
        invariant
            cps@ == spec_codepoints(font@),
            n == cjk_count(cps@.take(i as int)),
            n <= i,
    {
        assert(cps@.take(i + 1).drop_last() =~= cps@.take(i as int));
        if cjk_codepoint(cps[i]) {
            n = n + 1;
        }
    }
    assert(cps@.take(cps.len() as int) =~= cps@);
    n > 150
}

/// The failure when fsSelection bit 7 is clear.
pub open spec fn typo_metrics_problem() -> StatusView {
    let msg = "OS/2.fsSelection bit 7 (USE_TYPO_METRICS) was NOT set."@;
    with_problem(
        StatusCode::Fail,
        "missing-os2-fsselection-bit7"@,
        msg,
        ProblemView {
            table_tag: "OS/2"@,
            field_name: Some("fsSelection"@),
            actual: Some(MetaView::Text("bit 7 not set"@)),
            expected: Some(MetaView::Text("bit 7 set (USE_TYPO_METRICS)"@)),
            message: msg,
        },
    )
}

/// What the USE_TYPO_METRICS check finds in a font.
pub open spec fn use_typo_metrics_outcome(font: Seq<u8>) -> Result<Seq<StatusView>, ErrorView> {
    if !spec_is_font(font) {
        Err(not_a_font())
    } else if is_cjk(font) {
        Err(ErrorView::Skip("cjk"@, "This check does not apply to CJK fonts."@))
    } else {
        match spec_os2(font) {
            None => Err(unreadable("OS/2"@)),
            Some(o) => Ok(result_of(only_if(o.fs_selection & 0x80 == 0, typo_metrics_problem()))),
        }
    }
}

/// Checks that fsSelection bit 7 (USE_TYPO_METRICS) is set, except in CJK fonts.
pub fn use_typo_metrics(t: &Testable, _context: &Context) -> (r: Result<Vec<Status>, CheckError>)
    ensures
        outcome(r) == use_typo_metrics_outcome(t.contents@),
{
    let font = t.contents.as_slice();
    if !is_font(font) {
        return Err(not_a_font_error());
    }
    if is_cjk_font(font) {
        return Err(skip("cjk", "This check does not apply to CJK fonts."));
    }
    let o = match read_os2(font) {
        Some(o) => o,
        None => return Err(unreadable_error("OS/2")),
    };
    let mut p: Vec<Status> = Vec::new();
    if o.fs_selection & 0x80 == 0 {
        let msg = code_string("OS/2.fsSelection bit 7 (USE_TYPO_METRICS) was NOT set.");
        let problem = TableProblem {
            table_tag: code_string("OS/2"),
            field_name: Some(code_string("fsSelection")),
            actual: Some(MetaValue::Text(code_string("bit 7 not set"))),
            expected: Some(MetaValue::Text(code_string("bit 7 set (USE_TYPO_METRICS)"))),
            message: msg.clone(),
        };
        p.push(Status::with_metadata(StatusCode::Fail, "missing-os2-fsselection-bit7", msg, problem));
    }
    assert(views(p@) =~= only_if(o.fs_selection & 0x80 == 0, typo_metrics_problem()));
    Ok(return_result(p))
}

/// What the USE_TYPO_METRICS hotfix reports and leaves: outside CJK fonts it sets bit 7.
pub open spec fn fix_use_typo_metrics_spec(font: Seq<u8>) -> (Result<bool, ErrorView>, Seq<u8>) {
    if !spec_is_font(font) {
        (Err(not_a_font()), font)
    } else if is_cjk(font) {
        (Ok(false), font)
    } else {
        match spec_os2(font) {
            None => (Err(unreadable("OS/2"@)), font),
            Some(o) => fs_selection_fix(font, o.fs_selection | 0x80),
        }
    }
}

/// Sets fsSelection bit 7 (USE_TYPO_METRICS), except in CJK fonts. When it reports a change,
/// the USE_TYPO_METRICS check passes on the fixed font unless that font counts as CJK.
pub fn fix_use_typo_metrics(t: &mut Testable) -> (r: Result<bool, CheckError>)
    ensures
        (fix_view(r), final(t).contents@) == fix_use_typo_metrics_spec(old(t).contents@),
        final(t).filename == old(t).filename,
        fix_view(r) == Ok::<bool, ErrorView>(true) && !is_cjk(final(t).contents@) ==> use_typo_metrics_outcome(
            final(t).contents@,
        ) == Ok::<Seq<StatusView>, ErrorView>(seq![passed()]),
{
    if !is_font(t.contents.as_slice()) {
        return Err(not_a_font_error());
    }
    if is_cjk_font(t.contents.as_slice()) {
        return Ok(false);
    }
    let o = match read_os2(t.contents.as_slice()) {
        Some(o) => o,
        None => return Err(unreadable_error("OS/2")),
    };
    let fs = o.fs_selection;
    let bits = fs | 0x80;
    let r = apply_fs_selection(t, bits);
    proof {
        if r is Ok {
            let n = ((bits & 0x3ff) as u16);
            assert(n & 0x80 != 0) by (bit_vector)
                requires
                    bits == fs | 0x80,
                    n == (bits & 0x3ff) as u16;
            assert(only_if(n & 0x80 == 0, typo_metrics_problem()) =~= Seq::<StatusView>::empty());
        }
    }
    r
}

/// The failure when the OBLIQUE bit is set.
pub open spec fn oblique_problem() -> StatusView {
    let msg = "The OS/2 fsSelection OBLIQUE bit (bit 9) is set. Google Fonts does not want this bit enabled. Oblique styles should use the Italic bit instead."@;
    with_problem(
        StatusCode::Fail,
        "oblique-bit-set"@,
        msg,
        ProblemView {
            table_tag: "OS/2"@,
            field_name: Some("fsSelection"@),
            actual: Some(MetaView::Text("OBLIQUE bit set"@)),
            expected: Some(MetaView::Text("OBLIQUE bit not set"@)),
            message: msg,
        },
    )
}

/// What the OBLIQUE bit check finds in a font.
pub open spec fn no_oblique_bit_outcome(font: Seq<u8>) -> Result<Seq<StatusView>, ErrorView> {
    if !spec_is_font(font) {
        Err(not_a_font())
    } else {
        match spec_os2(font) {
            None => Err(unreadable("OS/2"@)),
            Some(o) => Ok(result_of(only_if(o.fs_selection & 0x200 != 0, oblique_problem()))),
        }
    }
}

/// Checks that the OS/2 fsSelection OBLIQUE bit (bit 9) is clear.
pub fn no_oblique_bit(t: &Testable, _context: &Context) -> (r: Result<Vec<Status>, CheckError>)
    ensures
        outcome(r) == no_oblique_bit_outcome(t.contents@),
{
    let font = t.contents.as_slice();
    if !is_font(font) {
        return Err(not_a_font_error());
    }
    let o = match read_os2(font) {
        Some(o) => o,
        None => return Err(unreadable_error("OS/2")),
    };
    let mut p: Vec<Status> = Vec::new();
    if o.fs_selection & 0x200 != 0 {
        let msg = code_string("The OS/2 fsSelection OBLIQUE bit (bit 9) is set. Google Fonts does not want this bit enabled. Oblique styles should use the Italic bit instead.");
        let problem = TableProblem {
            table_tag: code_string("OS/2"),
            field_name: Some(code_string("fsSelection")),
            actual: Some(MetaValue::Text(code_string("OBLIQUE bit set"))),
            expected: Some(MetaValue::Text(code_string("OBLIQUE bit not set"))),
            message: msg.clone(),
        };
        p.push(Status::with_metadata(StatusCode::Fail, "oblique-bit-set", msg, problem));
    }
    assert(views(p@) =~= only_if(o.fs_selection & 0x200 != 0, oblique_problem()));
    Ok(return_result(p))
}

/// What the OBLIQUE bit hotfix reports and leaves: it clears bit 9.
pub open spec fn fix_no_oblique_bit_spec(font: Seq<u8>) -> (Result<bool, ErrorView>, Seq<u8>) {
    if !spec_is_font(font) {
        (Err(not_a_font()), font)
    } else {
        match spec_os2(font) {
            None => (Err(unreadable("OS/2"@)), font),
            Some(o) => fs_selection_fix(font, o.fs_selection & 0xfdff),
        }
    }
}

/// Clears the OS/2 fsSelection OBLIQUE bit. When it reports a change, the OBLIQUE bit check
/// passes on the fixed font.
pub fn fix_no_oblique_bit(t: &mut Testable) -> (r: Result<bool, CheckError>)
    ensures
        (fix_view(r), final(t).contents@) == fix_no_oblique_bit_spec(old(t).contents@),
        final(t).filename == old(t).filename,
        fix_view(r) == Ok::<bool, ErrorView>(true) ==> no_oblique_bit_outcome(final(t).contents@)
            == Ok::<Seq<StatusView>, ErrorView>(seq![passed()]),
{
    if !is_font(t.contents.as_slice()) {
        return Err(not_a_font_error());
    }
    let o = match read_os2(t.contents.as_slice()) {
        Some(o) => o,
        None => return Err(unreadable_error("OS/2")),
    };
    let fs = o.fs_selection;
    let bits = fs & 0xfdff;
    let r = apply_fs_selection(t, bits);
    proof {
        if r is Ok {
            let n = ((bits & 0x3ff) as u16);
            assert(n & 0x200 == 0) by (bit_vector)
                requires
                    bits == fs & 0xfdff,
                    n == (bits & 0x3ff) as u16;
            assert(only_if(n & 0x200 != 0, oblique_problem()) =~= Seq::<StatusView>::empty());
        }
    }
    r
}

} // verus!

verus! {

/// The tag of the optical size axis.
pub const OPSZ: u32 = 0x6f70_737a;

/// The position of the first axis with the tag.
pub open spec fn position_of(tags: Seq<u32>, tag: u32) -> Option<nat>
    decreases tags.len(),
{
    if tags.len() == 0 {
        None
    } else if tags[0] == tag {
        Some(0)
    } else {
        match position_of(tags.drop_first(), tag) {
            Some(i) => Some(i + 1),
            None => None,
        }
    }
}

fn find_position(tags: &Vec<u32>, tag: u32) -> (r: Option<usize>)
    ensures
        match r {
            Some(i) => position_of(tags@, tag) == Some(i as nat),
            None => position_of(tags@, tag) is None,
        },
{
    let mut i: usize = 0;
    while i < tags.len()
        invariant
            i <= tags.len(),
            forall|k: int| 0 <= k < i ==> tags@[k] != tag,
        decreases tags.len() - i,
    {
        if tags[i] == tag {
            proof {
                lemma_position_found(tags@, tag, i as int);
            }
            return Some(i);
        }
        i = i + 1;
    }
    proof {
        lemma_position_absent(tags@, tag);
    }
    None
}

proof fn lemma_position_found(tags: Seq<u32>, tag: u32, i: int)
    requires
        0 <= i < tags.len(),
        tags[i] == tag,
        forall|k: int| 0 <= k < i ==> tags[k] != tag,
    ensures
        position_of(tags, tag) == Some(i as nat),
    decreases i,
{
    if i > 0 {
        lemma_position_found(tags.drop_first(), tag, i - 1);
    }
}

proof fn lemma_position_absent(tags: Seq<u32>, tag: u32)
    requires
        forall|k: int| 0 <= k < tags.len() ==> tags[k] != tag,
    ensures
        position_of(tags, tag) is None,
    decreases tags.len(),
{
    if tags.len() > 0 {
        lemma_position_absent(tags.drop_first(), tag);
    }
}

/// Whether one of the (axis, value) pairs names the axis.
pub open spec fn names_axis(keys: Seq<(u16, i32)>, idx: u16) -> bool {
    exists|k: int| 0 <= k < keys.len() && #[trigger] keys[k].0 == idx
}

/// Whether an axis value concerns the axis: for format 4, any of its pairs; otherwise its
/// single pair.
pub open spec fn value_concerns(v: StatValueView, idx: u16) -> bool {
    if v.format4 {
        names_axis(v.keys, idx)
    } else {
        v.keys.len() > 0 && v.keys[0].0 == idx
    }
}

/// How an axis value is written in messages: its value, or "Format4".
pub open spec fn value_text(v: StatValueView) -> Seq<char> {
    if v.format4 {
        "Format4"@
    } else {
        spec_fixed_text(v.keys[0].1)
    }
}

/// The warning for an elidable optical size value.
pub open spec fn elidable_problem(value: Seq<char>) -> StatusView {
    let msg = "STAT table 'opsz' axis value '"@ + value
        + "' is marked as elidable. Optical size values should not be elidable."@;
    with_problem(
        StatusCode::Warn,
        "elidable-opsz"@,
        msg,
        ProblemView {
            table_tag: "STAT"@,
            field_name: Some("opsz axis value "@ + value),
            actual: Some(MetaView::Text("ELIDABLE_AXIS_VALUE_NAME set"@)),
            expected: Some(MetaView::Text("ELIDABLE_AXIS_VALUE_NAME not set"@)),
            message: msg,
        },
    )
}

/// The warning, if any, for one axis value.
pub open spec fn elidable_problems(idx: u16) -> spec_fn(StatValueView) -> Seq<StatusView> {
    |v: StatValueView| only_if(value_concerns(v, idx) && v.flags & 0x2 != 0, elidable_problem(value_text(v)))
}

/// What the elided optical size check finds in a font.
pub open spec fn opsz_not_elided_outcome(font: Seq<u8>) -> Result<Seq<StatusView>, ErrorView> {
    if !spec_is_font(font) {
        Err(not_a_font())
    } else if !spec_stat_ok(font) {
        Err(ErrorView::Skip("no-stat"@, "Font has no STAT table."@))
    } else {
        match spec_stat_axes(font) {
            None => Err(unreadable("STAT"@)),
            Some(axes) => match position_of(axes, OPSZ) {
                None => Err(ErrorView::Skip("no-opsz"@, "Font has no 'opsz' axis in STAT table."@)),
                Some(i) => Ok(
                    result_of(
                        match spec_stat_values(font) {
                            Some(vals) => flat_map(vals, elidable_problems(i as u16)),
                            None => Seq::empty(),
                        },
                    ),
                ),
            },
        }
    }
}

fn concerns(v: &crate::font::StatValue, idx: u16) -> (r: bool)
    ensures
        r == value_concerns(v@, idx),
{
    if v.format4 {
        let mut k: usize = 0;
        while k < v.keys.len()
            invariant
                v.format4,
                k <= v.keys.len(),
                forall|j: int| 0 <= j < k ==> v.keys@[j].0 != idx,
            decreases v.keys.len() - k,
        {
            if v.keys[k].0 == idx {
                assert(v.keys@[k as int].0 == idx);
                return true;
            }
            k = k + 1;
        }
        false
    } else {
        v.keys.len() > 0 && v.keys[0].0 == idx
    }
}

/// Checks that no STAT axis value of the optical size axis is marked elidable.
pub fn opsz_not_elided(t: &Testable, _context: &Context) -> (r: Result<Vec<Status>, CheckError>)
    ensures
        outcome(r) == opsz_not_elided_outcome(t.contents@),
{
    let font = t.contents.as_slice();
    if !is_font(font) {
        return Err(not_a_font_error());
    }
    if !stat_ok(font) {
        return Err(skip("no-stat", "Font has no STAT table."));
    }
    let axes = match read_stat_axes(font) {
        Some(a) => a,
        None => return Err(unreadable_error("STAT")),
    };
    let idx = match find_position(&axes, OPSZ) {
        Some(i) => i as u16,
        None => return Err(skip("no-opsz", "Font has no 'opsz' axis in STAT table.")),
    };
    let mut p: Vec<Status> = Vec::new();
    if let Some(vals) = read_stat_values(font) {
        let ghost vv = vals@.map_values(|x: crate::font::StatValue| x@);
        for i in 0..vals.len()
            invariant
                vv == vals@.map_values(|x: crate::font::StatValue| x@),
                views(p@) == flat_map(vv.take(i as int), elidable_problems(idx)),
        {
            proof {
                lemma_flat_map_step(vv, elidable_problems(idx), i as int);
            }
            let v = &vals[i];
            if concerns(v, idx) && v.flags & 0x2 != 0 {
                let value = if v.format4 {
                    code_string("Format4")
                } else {
                    fixed_text(v.keys[0].1)
                };
                let mut msg = String::from_str("STAT table 'opsz' axis value '");
                push_str(&mut msg, value.as_str());
                push_str(&mut msg, "' is marked as elidable. Optical size values should not be elidable.");
                let mut field = String::from_str("opsz axis value ");
                push_str(&mut field, value.as_str());
                let problem = TableProblem {
                    table_tag: code_string("STAT"),
                    field_name: Some(field),
                    actual: Some(MetaValue::Text(code_string("ELIDABLE_AXIS_VALUE_NAME set"))),
                    expected: Some(MetaValue::Text(code_string("ELIDABLE_AXIS_VALUE_NAME not set"))),
                    message: msg.clone(),
                };
                let s = Status::with_metadata(StatusCode::Warn, "elidable-opsz", msg, problem);
                let ghost before = views(p@);
                p.push(s);
                assert(views(p@) =~= before + seq![s@]);
            } else {
                assert(views(p@) =~= views(p@) + Seq::<StatusView>::empty());
            }
        }
        assert(vv.take(vals.len() as int) =~= vv);
    }
    Ok(return_result(p))
}

/// The parametric axis tags.
pub open spec fn parametric_axes() -> Seq<&'static str> {
    seq!["XOPQ", "XTRA", "XTFI", "YOPQ", "YTAS", "YTDE", "YTFI", "YTLC", "YTUC"]
}

/// Whether a tag names a parametric axis.
pub open spec fn is_parametric(tag: Seq<char>) -> bool {
    exists|k: int| 0 <= k < parametric_axes().len() && #[trigger] parametric_axes()[k]@ == tag
}

fn parametric(tag: &str) -> (r: bool)
    ensures
        r == is_parametric(tag@),
{
    let names = vec!["XOPQ", "XTRA", "XTFI", "YOPQ", "YTAS", "YTDE", "YTFI", "YTLC", "YTUC"];
    assert(names@ == parametric_axes());
    let mut i: usize = 0;
    while i < names.len()
        invariant
            names@ == parametric_axes(),
            i <= names.len(),
            forall|k: int| 0 <= k < i ==> #[trigger] parametric_axes()[k]@ != tag@,
        decreases names.len() - i,
    {
        if str_eq(names[i], tag) {
            assert(parametric_axes()[i as int]@ == tag@);
            return true;
        }
        i = i + 1;
    }
    false
}

/// The failure for a parametric axis that is not hidden.
pub open spec fn parametric_problem(tag: Seq<char>) -> StatusView {
    let shown = match spec_axis_display_name(tag) {
        Some(n) => n,
        None => tag,
    };
    let msg = "Parametric axis '"@ + tag + "' ("@ + shown
        + ") does not have the HIDDEN_AXIS flag set. Parametric axes should be hidden from end users."@;
    with_problem(
        StatusCode::Fail,
        "parametric-not-hidden"@,
        msg,
        ProblemView {
            table_tag: "fvar"@,
            field_name: Some("axis '"@ + tag + "' flags"@),
            actual: Some(MetaView::Text("HIDDEN_AXIS not set"@)),
            expected: Some(MetaView::Text("HIDDEN_AXIS set"@)),
            message: msg,
        },
    )
}

/// The failure, if any, for one axis.
pub open spec fn parametric_problems() -> spec_fn(AxisInfo) -> Seq<StatusView> {
    |a: AxisInfo| only_if(is_parametric(tag_display(a.tag)) && a.flags & 1 == 0, parametric_problem(tag_display(a.tag)))
}

/// What the hidden parametric axes check finds in a font.
pub open spec fn parametric_axes_hidden_outcome(font: Seq<u8>) -> Result<Seq<StatusView>, ErrorView> {
    if !spec_is_font(font) {
        Err(not_a_font())
    } else if !is_variable(font) {
        Err(not_variable("Font is not a variable font."@))
    } else {
        Ok(result_of(flat_map(spec_axes(font), parametric_problems())))
    }
}

/// Checks that each parametric axis of fvar has the HIDDEN_AXIS flag.
pub fn parametric_axes_hidden(t: &Testable, _context: &Context) -> (r: Result<Vec<Status>, CheckError>)
    ensures
        outcome(r) == parametric_axes_hidden_outcome(t.contents@),
{
    let font = t.contents.as_slice();
    if !is_font(font) {
        return Err(not_a_font_error());
    }
    if !is_variable_font(font) {
        return Err(skip("not-variable", "Font is not a variable font."));
    }
    let axes = read_axes(font);
    let mut p: Vec<Status> = Vec::new();
    for i in 0..axes.len()
        invariant
            axes@ == spec_axes(font@),
            views(p@) == flat_map(axes@.take(i as int), parametric_problems()),
    {
        proof {
            lemma_flat_map_step(axes@, parametric_problems(), i as int);
        }
        let a = axes[i];
        let tag = tag_text(a.tag);
        if parametric(tag.as_str()) && a.flags & 1 == 0 {
            let shown = match axis_display_name(tag.as_str()) {
                Some(n) => n,
                None => tag.clone(),
            };
            let mut msg = String::from_str("Parametric axis '");
            push_str(&mut msg, tag.as_str());
            push_str(&mut msg, "' (");
            push_str(&mut msg, shown.as_str());
            push_str(&mut msg, ") does not have the HIDDEN_AXIS flag set. Parametric axes should be hidden from end users.");
            let mut field = String::from_str("axis '");
            push_str(&mut field, tag.as_str());
            push_str(&mut field, "' flags");
            let problem = TableProblem {
                table_tag: code_string("fvar"),
                field_name: Some(field),
                actual: Some(MetaValue::Text(code_string("HIDDEN_AXIS not set"))),
                expected: Some(MetaValue::Text(code_string("HIDDEN_AXIS set"))),
                message: msg.clone(),
            };
            let s = Status::with_metadata(StatusCode::Fail, "parametric-not-hidden", msg, problem);
            let ghost before = views(p@);
            p.push(s);
            assert(views(p@) =~= before + seq![s@]);
        } else {
            assert(views(p@) =~= views(p@) + Seq::<StatusView>::empty());
        }
    }
    assert(axes@.take(axes.len() as int) =~= axes@);
    Ok(return_result(p))
}

} // verus!

verus! {

/// How an instance is named in messages: the first string of its subfamily name ID, or
/// `instance #i`.
pub open spec fn instance_label(font: Seq<u8>, index: int, inst: InstanceInfo) -> Seq<char> {
    if spec_name_strings(font, inst.subfamily_name_id).len() > 0 {
        spec_name_strings(font, inst.subfamily_name_id)[0]
    } else {
        "instance #"@ + decimal(index as nat)
    }
}

/// The failures for the instances without a PostScript name, in order.
pub open spec fn instance_problems(font: Seq<u8>, insts: Seq<InstanceInfo>) -> Seq<StatusView>
    decreases insts.len(),
{
    if insts.len() == 0 {
        Seq::empty()
    } else {
        let i = insts.len() - 1;
        instance_problems(font, insts.drop_last()) + only_if(
            insts.last().postscript_name_id is None,
            plain(
                StatusCode::Fail,
                "missing-ps-name"@,
                "Named instance '"@ + instance_label(font, i, insts.last()) + "' (index "@ + decimal(i as nat)
                    + ") lacks a PostScript name entry."@,
            ),
        )
    }
}

/// What the instance PostScript name check finds in a font.
pub open spec fn fvar_instance_ps_names_outcome(font: Seq<u8>) -> Result<Seq<StatusView>, ErrorView> {
    if !spec_is_font(font) {
        Err(not_a_font())
    } else if !is_variable(font) {
        Err(not_variable("Not a variable font"@))
    } else if spec_instances(font).len() == 0 {
        Err(ErrorView::Skip("no-instances"@, "Font has no named instances."@))
    } else {
        Ok(result_of(instance_problems(font, spec_instances(font))))
    }
}

/// Checks that each named instance of fvar has a PostScript name ID.
pub fn fvar_instance_ps_names(t: &Testable, _context: &Context) -> (r: Result<Vec<Status>, CheckError>)
    ensures
        outcome(r) == fvar_instance_ps_names_outcome(t.contents@),
{
    let font = t.contents.as_slice();
    if !is_font(font) {
        return Err(not_a_font_error());
    }
    if !is_variable_font(font) {
        return Err(skip("not-variable", "Not a variable font"));
    }
    let insts = read_instances(font);
    if insts.len() == 0 {
        return Err(skip("no-instances", "Font has no named instances."));
    }
    let mut p: Vec<Status> = Vec::new();
    for i in 0..insts.len()
        invariant
            insts@ == spec_instances(font@),
            views(p@) == instance_problems(font@, insts@.take(i as int)),
    {
        assert(insts@.take(i + 1).drop_last() =~= insts@.take(i as int));
        let inst = insts[i];
        if inst.postscript_name_id.is_none() {
            let names = read_name_strings(font, inst.subfamily_name_id);
            let label = if names.len() > 0 {
                names[0].clone()
            } else {
                let mut l = String::from_str("instance #");
                push_decimal(&mut l, i as u64);
                l
            };
            proof {
                if names@.len() > 0 {
                    assert(names@.map_values(|s: String| s@)[0] == names@[0]@);
                }
            }
            let mut msg = String::from_str("Named instance '");
            push_str(&mut msg, label.as_str());
            push_str(&mut msg, "' (index ");
            push_decimal(&mut msg, i as u64);
            push_str(&mut msg, ") lacks a PostScript name entry.");
            let s = Status::with_message(StatusCode::Fail, "missing-ps-name", msg);
            let ghost before = views(p@);
            p.push(s);
            assert(views(p@) =~= before + seq![s@]);
        } else {
            assert(views(p@) =~= views(p@) + Seq::<StatusView>::empty());
        }
    }
    assert(insts@.take(insts.len() as int) =~= insts@);
    Ok(return_result(p))
}

/// The failure for a version string that does not follow "Version X.Y".
pub open spec fn version_problem(s: Seq<char>) -> StatusView {
    plain(
        StatusCode::Fail,
        "bad-version-strings"@,
        "The NameID.VERSION_STRING (nameID=5) value must follow the pattern \"Version X.Y\" with X.Y greater than or equal to 1.000.\nThe \"Version\" prefix is a recommendation given by the OpenType spec.\nCurrent version string is: \""@
            + s + "\""@,
    )
}

/// The failure, if any, for one version string.
pub open spec fn version_problems() -> spec_fn(Seq<char>) -> Seq<StatusView> {
    |s: Seq<char>| only_if(!spec_version_matches(s), version_problem(s))
}

/// What the version format check finds in a font.
pub open spec fn version_format_outcome(font: Seq<u8>) -> Result<Seq<StatusView>, ErrorView> {
    if !spec_is_font(font) {
        Err(not_a_font())
    } else {
        Ok(result_of(flat_map(spec_name_strings(font, 5), version_problems())))
    }
}

/// Checks that each version string (name ID 5) follows "Version X.Y" with X at least 1.
pub fn version_format(t: &Testable, _context: &Context) -> (r: Result<Vec<Status>, CheckError>)
    ensures
        outcome(r) == version_format_outcome(t.contents@),
{
    let font = t.contents.as_slice();
    if !is_font(font) {
        return Err(not_a_font_error());
    }
    let strs = read_name_strings(font, 5);
    let ghost texts = strs@.map_values(|s: String| s@);
    let mut p: Vec<Status> = Vec::new();
    for i in 0..strs.len()
        invariant
            texts == strs@.map_values(|s: String| s@),
            texts == spec_name_strings(font@, 5),
            views(p@) == flat_map(texts.take(i as int), version_problems()),
    {
        proof {
            lemma_flat_map_step(texts, version_problems(), i as int);
        }
        let s = strs[i].as_str();
        let mut msg = String::from_str("The NameID.VERSION_STRING (nameID=5) value must follow the pattern \"Version X.Y\" with X.Y greater than or equal to 1.000.\nThe \"Version\" prefix is a recommendation given by the OpenType spec.\nCurrent version string is: \"");
        push_str(&mut msg, s);
        push_str(&mut msg, "\"");
        push_when(&mut p, !version_matches(s), Status::with_message(StatusCode::Fail, "bad-version-strings", msg));
    }
    assert(texts.take(strs.len() as int) =~= texts);
    Ok(return_result(p))
}

/// The failure for a family name containing the word "VF".
pub open spec fn vf_problem(code: Seq<char>, what: Seq<char>, field: Seq<char>, name: Seq<char>) -> StatusView {
    let msg = what + " '"@ + name + "' contains 'VF'. Google Fonts does not allow 'VF' in family names."@;
    with_problem(
        StatusCode::Fail,
        code,
        msg,
        ProblemView {
            table_tag: "name"@,
            field_name: Some(field),
            actual: Some(MetaView::Text(name)),
            expected: Some(MetaView::Text("name without 'VF'"@)),
            message: msg,
        },
    )
}

/// The failure, if any, for one family name (name ID 1).
pub open spec fn family_vf_problems() -> spec_fn(Seq<char>) -> Seq<StatusView> {
    |n: Seq<char>| only_if(
        has_word(Splitter::Whitespace, false, n, vf_word()),
        vf_problem("vf-in-family-name"@, "Family name"@, "nameID FAMILY_NAME"@, n),
    )
}

/// The failure, if any, for one typographic family name (name ID 16).
pub open spec fn typo_vf_problems() -> spec_fn(Seq<char>) -> Seq<StatusView> {
    |n: Seq<char>| only_if(
        has_word(Splitter::Whitespace, false, n, vf_word()),
        vf_problem("vf-in-typographic-family-name"@, "Typographic family name"@, "nameID TYPOGRAPHIC_FAMILY_NAME"@, n),
    )
}

/// What the "VF" in family names check finds in a font.
pub open spec fn no_vf_in_name_outcome(font: Seq<u8>) -> Result<Seq<StatusView>, ErrorView> {
    if !spec_is_font(font) {
        Err(not_a_font())
    } else {
        Ok(
            result_of(
                flat_map(spec_name_strings(font, 1), family_vf_problems()) + flat_map(
                    spec_name_strings(font, 16),
                    typo_vf_problems(),
                ),
            ),
        )
    }
}

fn vf_status(code: &str, what: &str, field: &str, name: &str) -> (s: Status)
    ensures
        s@ == vf_problem(code@, what@, field@, name@),
{
    let mut msg = String::from_str(what);
    push_str(&mut msg, " '");
    push_str(&mut msg, name);
    push_str(&mut msg, "' contains 'VF'. Google Fonts does not allow 'VF' in family names.");
    let problem = TableProblem {
        table_tag: code_string("name"),
        field_name: Some(code_string(field)),
        actual: Some(MetaValue::Text(code_string(name))),
        expected: Some(MetaValue::Text(code_string("name without 'VF'"))),
        message: msg.clone(),
    };
    Status::with_metadata(StatusCode::Fail, code, msg, problem)
}

/// Checks that no family name (IDs 1 and 16) contains the word "VF".
pub fn no_vf_in_name(t: &Testable, _context: &Context) -> (r: Result<Vec<Status>, CheckError>)
    ensures
        outcome(r) == no_vf_in_name_outcome(t.contents@),
{
    let font = t.contents.as_slice();
    if !is_font(font) {
        return Err(not_a_font_error());
    }
    let fams = read_name_strings(font, 1);
    let ghost ft = fams@.map_values(|s: String| s@);
    let mut p: Vec<Status> = Vec::new();
    for i in 0..fams.len()
        invariant
            ft == fams@.map_values(|s: String| s@),
            views(p@) == flat_map(ft.take(i as int), family_vf_problems()),
    {
        proof {
            lemma_flat_map_step(ft, family_vf_problems(), i as int);
        }
        let n = fams[i].as_str();
        push_when(&mut p, contains_vf(n), vf_status("vf-in-family-name", "Family name", "nameID FAMILY_NAME", n));
    }
    assert(ft.take(fams.len() as int) =~= ft);
    let ghost first = views(p@);
    let typos = read_name_strings(font, 16);
    let ghost tt = typos@.map_values(|s: String| s@);
    for i in 0..typos.len()
        invariant
            tt == typos@.map_values(|s: String| s@),
            views(p@) == first + flat_map(tt.take(i as int), typo_vf_problems()),
    {
        proof {
            lemma_flat_map_step(tt, typo_vf_problems(), i as int);
        }
        let n = typos[i].as_str();
        push_when(&mut p, contains_vf(n), vf_status("vf-in-typographic-family-name", "Typographic family name", "nameID TYPOGRAPHIC_FAMILY_NAME", n));
        assert(views(p@) =~= first + flat_map(tt.take(i + 1), typo_vf_problems()));
    }
    assert(tt.take(typos.len() as int) =~= tt);
    Ok(return_result(p))
}

} // verus!

verus! {

/// What google-fonts-axisregistry's `build_name_table` gives for a font: the font with a
/// name table following the Google Fonts naming scheme, or an error message.
pub uninterp spec fn spec_built_name_table(font: Seq<u8>) -> Result<Seq<u8>, Seq<char>>;

/// What google-fonts-axisregistry's `build_fvar_instances` gives for a font.
pub uninterp spec fn spec_built_fvar_instances(font: Seq<u8>) -> Result<Seq<u8>, Seq<char>>;

/// What google-fonts-axisregistry's `build_stat` gives for a font without siblings.
pub uninterp spec fn spec_built_stat(font: Seq<u8>) -> Result<Seq<u8>, Seq<char>>;

/// `build_name_table` from google-fonts-axisregistry, with the family and style names read
/// from the font, no siblings and the default renaming. The result is named.
#[verifier::external_body]
fn built_name_table(font: &[u8]) -> (r: Result<Vec<u8>, String>)
    ensures
        match r {
            Ok(v) => spec_built_name_table(font@) == Ok::<Seq<u8>, Seq<char>>(v@),
            Err(e) => spec_built_name_table(font@) == Err::<Seq<u8>, Seq<char>>(e@),
        },
{
    google_fonts_axisregistry::build_name_table(font, None, None, &[], None).map_err(|e| e.to_string())
}

/// `build_fvar_instances` from google-fonts-axisregistry, with the registry's defaults. The
/// result is named.
#[verifier::external_body]
fn built_fvar_instances(font: &[u8]) -> (r: Result<Vec<u8>, String>)
    ensures
        match r {
            Ok(v) => spec_built_fvar_instances(font@) == Ok::<Seq<u8>, Seq<char>>(v@),
            Err(e) => spec_built_fvar_instances(font@) == Err::<Seq<u8>, Seq<char>>(e@),
        },
{
    google_fonts_axisregistry::build_fvar_instances(font, None).map_err(|e| e.to_string())
}

/// `build_stat` from google-fonts-axisregistry, with no siblings. The result is named.
#[verifier::external_body]
fn built_stat(font: &[u8]) -> (r: Result<Vec<u8>, String>)
    ensures
        match r {
            Ok(v) => spec_built_stat(font@) == Ok::<Seq<u8>, Seq<char>>(v@),
            Err(e) => spec_built_stat(font@) == Err::<Seq<u8>, Seq<char>>(e@),
        },
{
    google_fonts_axisregistry::build_stat(font, &[]).map_err(|e| e.to_string())
}

/// The font as Google Fonts would name it: its name table rebuilt and, for a variable font,
/// its fvar instances and STAT table too.
pub open spec fn expected_font(font: Seq<u8>) -> Result<Seq<u8>, Seq<char>> {
    match spec_built_name_table(font) {
        Err(e) => Err(e),
        Ok(b) => if is_variable(font) {
            match spec_built_fvar_instances(b) {
                Err(e) => Err(e),
                Ok(b2) => spec_built_stat(b2),
            }
        } else {
            Ok(b)
        },
    }
}

/// Builds the font as Google Fonts would name it.
pub fn build_expected_font(font: &[u8]) -> (r: Result<Vec<u8>, String>)
    ensures
        match r {
            Ok(v) => expected_font(font@) == Ok::<Seq<u8>, Seq<char>>(v@),
            Err(e) => expected_font(font@) == Err::<Seq<u8>, Seq<char>>(e@),
        },
{
    let b = built_name_table(font)?;
    if is_variable_font(font) {
        let b2 = built_fvar_instances(b.as_slice())?;
        built_stat(b2.as_slice())
    } else {
        Ok(b)
    }
}

/// The tag of the glyf table.
pub const GLYF: u32 = 0x676c_7966;

/// The tag of the CFF table.
pub const CFF: u32 = 0x4346_4620;

/// The tag of the CFF2 table.
pub const CFF2: u32 = 0x4346_4632;

/// A failure about the weight class, with its own message in the metadata.
pub open spec fn weight_problem(style: Seq<char>, wanted: nat, value: u16, expected: MetaView, note: Seq<char>) -> StatusView {
    with_problem(
        StatusCode::Fail,
        "bad-value"@,
        "Best SubFamily name is '"@ + style + "'. Expected OS/2 usWeightClass is "@ + decimal(wanted) + ", got "@
            + decimal(value as nat) + "."@,
        ProblemView {
            table_tag: "OS/2"@,
            field_name: Some("usWeightClass"@),
            actual: Some(MetaView::Int(value as int)),
            expected: Some(expected),
            message: note,
        },
    )
}

/// The failures about a weight class, given the expected value, the style name, whether the
/// font is variable and whether it has TrueType (glyf) or CFF outlines.
pub open spec fn gf_weight_problems(
    value: u16,
    expected: u16,
    style: Seq<char>,
    variable: bool,
    truetype: bool,
    cff: bool,
) -> Seq<StatusView> {
    if variable {
        only_if(
            value != expected,
            weight_problem(style, expected as nat, value, MetaView::Int(expected as int),
                "OS/2 usWeightClass does not match expected value for variable font"@),
        )
    } else if crate::text::contains(style, "Thin"@) {
        only_if(
            truetype && value != 100 && value != 250,
            weight_problem(style, expected as nat, value, MetaView::IntList(seq![100i64, 250i64]),
                "OS/2 usWeightClass is invalid for Thin weight TrueType"@),
        ) + only_if(
            cff && value != 250,
            weight_problem(style, 250, value, MetaView::Int(250), "OS/2 usWeightClass is invalid for Thin weight CFF"@),
        )
    } else if crate::text::contains(style, "ExtraLight"@) {
        only_if(
            truetype && value != 200 && value != 275,
            weight_problem(style, expected as nat, value, MetaView::IntList(seq![200i64, 275i64]),
                "OS/2 usWeightClass is invalid for ExtraLight weight TrueType"@),
        ) + only_if(
            cff && value != 275,
            weight_problem(style, 275, value, MetaView::Int(275), "OS/2 usWeightClass is invalid for ExtraLight weight CFF"@),
        )
    } else {
        only_if(
            value != expected,
            weight_problem(style, expected as nat, value, MetaView::Int(expected as int),
                "OS/2 usWeightClass does not match subfamily name"@),
        )
    }
}

/// What the Google Fonts weight class check finds in a font.
pub open spec fn gf_weightclass_outcome(font: Seq<u8>) -> Result<Seq<StatusView>, ErrorView> {
    if !spec_is_font(font) {
        Err(not_a_font())
    } else {
        match spec_os2(font) {
            None => Err(unreadable("OS/2"@)),
            Some(o) => match expected_font(font) {
                Err(e) => Err(ErrorView::General(e)),
                Ok(ef) => match spec_os2(ef) {
                    None => Err(unreadable("OS/2"@)),
                    Some(eo) => {
                        let style = match best_subfamily(font) {
                            Some(s) => s,
                            None => "Regular"@,
                        };
                        let truetype = crate::font::spec_has_table(font, GLYF);
                        let cff = !truetype && (crate::font::spec_has_table(font, CFF)
                            || crate::font::spec_has_table(font, CFF2));
                        Ok(result_of(gf_weight_problems(o.weight_class, eo.weight_class, style, is_variable(font), truetype, cff)))
                    },
                },
            },
        }
    }
}

fn weight_status(style: &str, wanted: u64, value: u16, expected: MetaValue, note: &str) -> (s: Status)
    ensures
        s@ == weight_problem(style@, wanted as nat, value, expected@, note@),
{
    let mut msg = String::from_str("Best SubFamily name is '");
    push_str(&mut msg, style);
    push_str(&mut msg, "'. Expected OS/2 usWeightClass is ");
    push_decimal(&mut msg, wanted);
    push_str(&mut msg, ", got ");
    push_decimal(&mut msg, value as u64);
    push_str(&mut msg, ".");
    let problem = TableProblem {
        table_tag: code_string("OS/2"),
        field_name: Some(code_string("usWeightClass")),
        actual: Some(MetaValue::Int(value as i64)),
        expected: Some(expected),
        message: code_string(note),
    };
    Status::with_metadata(StatusCode::Fail, "bad-value", msg, problem)
}

/// Checks OS/2 usWeightClass against the value Google Fonts' naming gives for the font's
/// style.
pub fn weightclass(t: &Testable, _context: &Context) -> (r: Result<Vec<Status>, CheckError>)
    ensures
        outcome(r) == gf_weightclass_outcome(t.contents@),
{
    let font = t.contents.as_slice();
    if !is_font(font) {
        return Err(not_a_font_error());
    }
    let value = match read_os2(font) {
        Some(o) => o.weight_class,
        None => return Err(unreadable_error("OS/2")),
    };
    let ef = match build_expected_font(font) {
        Ok(b) => b,
        Err(e) => return Err(CheckError::General(e)),
    };
    let expected = match read_os2(ef.as_slice()) {
        Some(o) => o.weight_class,
        None => return Err(unreadable_error("OS/2")),
    };
    let style = match best_subfamilyname(font) {
        Some(s) => s,
        None => String::from_str("Regular"),
    };
    let st = style.as_str();
    let truetype = crate::font::has_table(font, GLYF);
    let cff = !truetype && (crate::font::has_table(font, CFF) || crate::font::has_table(font, CFF2));
    let mut p: Vec<Status> = Vec::new();
    if is_variable_font(font) {
        push_when(&mut p, value != expected, weight_status(st, expected as u64, value, MetaValue::Int(expected as i64),
            "OS/2 usWeightClass does not match expected value for variable font"));
    } else if crate::text::str_contains(st, "Thin") {
        push_when(&mut p, truetype && value != 100 && value != 250, weight_status(st, expected as u64, value,
            MetaValue::IntList(vec![100i64, 250i64]), "OS/2 usWeightClass is invalid for Thin weight TrueType"));
        push_when(&mut p, cff && value != 250, weight_status(st, 250, value, MetaValue::Int(250),
            "OS/2 usWeightClass is invalid for Thin weight CFF"));
    } else if crate::text::str_contains(st, "ExtraLight") {
        push_when(&mut p, truetype && value != 200 && value != 275, weight_status(st, expected as u64, value,
            MetaValue::IntList(vec![200i64, 275i64]), "OS/2 usWeightClass is invalid for ExtraLight weight TrueType"));
        push_when(&mut p, cff && value != 275, weight_status(st, 275, value, MetaValue::Int(275),
            "OS/2 usWeightClass is invalid for ExtraLight weight CFF"));
    } else {
        push_when(&mut p, value != expected, weight_status(st, expected as u64, value, MetaValue::Int(expected as i64),
            "OS/2 usWeightClass does not match subfamily name"));
    }
    assert(views(p@) =~= gf_weight_problems(value, expected, st@, crate::font::is_variable(font@), truetype, cff));
    Ok(return_result(p))
}

} // verus!

verus! {

/// Whether some sibling lacks the code point.
pub open spec fn missing_in_some(x: u32, sibs: Seq<Seq<u32>>) -> bool {
    exists|k: int| 0 <= k < sibs.len() && !(#[trigger] sibs[k]).contains(x)
}

/// The code points of the first font that some sibling lacks, once each, in the first font's
/// order.
pub open spec fn we_have_they_dont(my: Seq<u32>, sibs: Seq<Seq<u32>>) -> Seq<u32>
    decreases my.len(),
{
    if my.len() == 0 {
        Seq::empty()
    } else {
        let prev = we_have_they_dont(my.drop_last(), sibs);
        let x = my.last();
        if missing_in_some(x, sibs) && !prev.contains(x) {
            prev.push(x)
        } else {
            prev
        }
    }
}

/// `acc` followed by the code points of a sibling that the first font lacks and `acc` does not
/// hold, once each, in the sibling's order.
pub open spec fn extend_missing(acc: Seq<u32>, sib: Seq<u32>, my: Seq<u32>) -> Seq<u32>
    decreases sib.len(),
{
    if sib.len() == 0 {
        acc
    } else {
        let prev = extend_missing(acc, sib.drop_last(), my);
        let x = sib.last();
        if !my.contains(x) && !prev.contains(x) {
            prev.push(x)
        } else {
            prev
        }
    }
}

/// The code points of the siblings that the first font lacks, once each, sibling by sibling.
pub open spec fn they_have_we_dont(my: Seq<u32>, sibs: Seq<Seq<u32>>) -> Seq<u32>
    decreases sibs.len(),
{
    if sibs.len() == 0 {
        Seq::empty()
    } else {
        extend_missing(they_have_we_dont(my, sibs.drop_last()), sibs.last(), my)
    }
}

/// Code points written `U+XXXX` and joined with ", ".
pub open spec fn codepoint_list(cps: Seq<u32>) -> Seq<char> {
    crate::text::comma_joined(cps.map_values(|x: u32| "U+"@ + crate::text::hex_padded(x as nat, 4)))
}

/// The code points of the fonts at the given positions.
pub open spec fn codepoints_at(ts: Seq<Testable>, pos: Seq<usize>) -> Seq<Seq<u32>> {
    pos.map_values(|i: usize| spec_codepoints(ts[i as int].contents@))
}

/// The failures about the code points of a family: its first font's name, its code points and
/// its siblings' ones.
pub open spec fn coverage_problems(name: Seq<char>, my: Seq<u32>, sibs: Seq<Seq<u32>>) -> Seq<StatusView> {
    let we = we_have_they_dont(my, sibs);
    let they = they_have_we_dont(my, sibs);
    only_if(
        we.len() > 0,
        plain(StatusCode::Fail, "glyphset-diverges"@,
            "Font "@ + name + " has codepoints not present in sibling fonts: "@ + codepoint_list(we)),
    ) + only_if(
        they.len() > 0,
        plain(StatusCode::Fail, "glyphset-diverges"@,
            "Other fonts have codepoints not present in "@ + name + ": "@ + codepoint_list(they)),
    )
}

/// What the equal code point coverage check finds in a family.
pub open spec fn equal_codepoint_coverage_outcome(ts: Seq<Testable>) -> Result<Seq<StatusView>, ErrorView> {
    let pos = crate::font::font_positions(ts);
    if pos.len() < 2 {
        Err(ErrorView::Skip("no-siblings"@,
            "This check requires at least two sibling fonts to compare codepoint coverage."@))
    } else {
        let cps = codepoints_at(ts, pos);
        Ok(result_of(coverage_problems(ts[pos[0] as int].filename@, cps[0], cps.drop_first())))
    }
}

/// The code points of a list, as a hash set.
pub fn set_of(v: &Vec<u32>) -> (s: std::collections::HashSet<u32>)
    ensures
        s@ == v@.to_set(),
{
    broadcast use vstd::std_specs::hash::group_hash_axioms;
    let mut s: std::collections::HashSet<u32> = std::collections::HashSet::new();
    for i in 0..v.len()
        invariant
            s@ == v@.take(i as int).to_set(),
    {
        s.insert(v[i]);
        proof {
            assert(v@.take(i + 1) =~= v@.take(i as int).push(v@[i as int]));
            v@.take(i as int).lemma_push_to_set_commute(v@[i as int]);
        }
    }
    assert(v@.take(v.len() as int) =~= v@);
    s
}

fn push_codepoint_list(m: &mut String, cps: &Vec<u32>)
    ensures
        final(m)@ == old(m)@ + codepoint_list(cps@),
{
    let mut labels: Vec<String> = Vec::new();
    for i in 0..cps.len()
        invariant
            labels@.map_values(|s: String| s@) == cps@.take(i as int).map_values(
                |x: u32| "U+"@ + crate::text::hex_padded(x as nat, 4),
            ),
    {
        let mut l = String::from_str("U+");
        crate::text::push_hex_padded(&mut l, cps[i] as u64, 4);
        let ghost before = labels@.map_values(|s: String| s@);
        labels.push(l);
        assert(labels@.map_values(|s: String| s@) =~= before.push(l@));
        assert(cps@.take(i + 1).map_values(|x: u32| "U+"@ + crate::text::hex_padded(x as nat, 4))
            =~= cps@.take(i as int).map_values(|x: u32| "U+"@ + crate::text::hex_padded(x as nat, 4)).push(l@));
    }
    assert(cps@.take(cps.len() as int) =~= cps@);
    crate::text::push_comma_joined(m, &labels);
}

/// Checks that all fonts of a family map the same code points.
pub fn equal_codepoint_coverage(c: &crate::testable::TestableCollection, _context: &Context) -> (r: Result<Vec<Status>, CheckError>)
    ensures
        outcome(r) == equal_codepoint_coverage_outcome(c.testables@),
{
    broadcast use vstd::std_specs::hash::group_hash_axioms;
    broadcast use vstd::seq_lib::group_seq_properties;
    let ts = &c.testables;
    let pos = crate::font::fonts_of(ts);
    if pos.len() < 2 {
        return Err(skip("no-siblings", "This check requires at least two sibling fonts to compare codepoint coverage."));
    }
    let ghost cps = codepoints_at(ts@, pos@);
    let ghost sibs = cps.drop_first();
    let first = &ts[pos[0]];
    let my = read_codepoints(first.contents.as_slice());
    let my_set = set_of(&my);
    let mut sib_cps: Vec<Vec<u32>> = Vec::new();
    let mut sib_sets: Vec<std::collections::HashSet<u32>> = Vec::new();
    for k in 1..pos.len()
        invariant
            pos@ == crate::font::font_positions(ts@),
            forall|j: int| 0 <= j < pos@.len() ==> pos@[j] < ts@.len(),
            cps == codepoints_at(ts@, pos@),
            sibs == cps.drop_first(),
            1 <= k <= pos.len(),
            sib_cps@.len() == k - 1,
            sib_sets@.len() == k - 1,
            forall|j: int| 0 <= j < k - 1 ==> (#[trigger] sib_cps@[j])@ == sibs[j],
            forall|j: int| 0 <= j < k - 1 ==> (#[trigger] sib_sets@[j])@ == sibs[j].to_set(),
    {
        let v = read_codepoints(ts[pos[k]].contents.as_slice());
        let s = set_of(&v);
        sib_sets.push(s);
        sib_cps.push(v);
    }
    // The code points of the first font that some sibling lacks.
    let mut we: Vec<u32> = Vec::new();
    let mut listed: std::collections::HashSet<u32> = std::collections::HashSet::new();
    for i in 0..my.len()
        invariant
            sib_sets@.len() == sibs.len(),
            forall|j: int| 0 <= j < sibs.len() ==> (#[trigger] sib_sets@[j])@ == sibs[j].to_set(),
            we@ == we_have_they_dont(my@.take(i as int), sibs),
            listed@ == we@.to_set(),
    {
        assert(my@.take(i + 1).drop_last() =~= my@.take(i as int));
        let x = my[i];
        let mut missing = false;
        let mut k: usize = 0;
        while k < sib_sets.len()
            invariant
                sib_sets@.len() == sibs.len(),
                forall|j: int| 0 <= j < sibs.len() ==> (#[trigger] sib_sets@[j])@ == sibs[j].to_set(),
                k <= sib_sets.len(),
                missing == exists|j: int| 0 <= j < k && !(#[trigger] sibs[j]).contains(x),
            decreases sib_sets.len() - k,
        {
            if !sib_sets[k].contains(&x) {
                assert(!sibs[k as int].contains(x));
                missing = true;
            }
            k = k + 1;
        }
        if missing && !listed.contains(&x) {
            proof {
                we@.lemma_push_to_set_commute(x);
            }
            we.push(x);
            listed.insert(x);
        }
    }
    assert(my@.take(my.len() as int) =~= my@);
    // The code points of the siblings that the first font lacks.
    let mut they: Vec<u32> = Vec::new();
    let mut seen: std::collections::HashSet<u32> = std::collections::HashSet::new();
    for k in 0..sib_cps.len()
        invariant
            sib_cps@.len() == sibs.len(),
            forall|j: int| 0 <= j < sibs.len() ==> (#[trigger] sib_cps@[j])@ == sibs[j],
            my_set@ == my@.to_set(),
            they@ == they_have_we_dont(my@, sibs.take(k as int)),
            seen@ == they@.to_set(),
    {
        assert(sibs.take(k + 1).drop_last() =~= sibs.take(k as int));
        let sib = &sib_cps[k];
        let ghost acc = they@;
        for i in 0..sib.len()
            invariant
                my_set@ == my@.to_set(),
                they@ == extend_missing(acc, sib@.take(i as int), my@),
                seen@ == they@.to_set(),
        {
            assert(sib@.take(i + 1).drop_last() =~= sib@.take(i as int));
            let x = sib[i];
            if !my_set.contains(&x) && !seen.contains(&x) {
                proof {
                    they@.lemma_push_to_set_commute(x);
                }
                they.push(x);
                seen.insert(x);
            }
        }
        assert(sib@.take(sib.len() as int) =~= sib@);
    }
    assert(sibs.take(sibs.len() as int) =~= sibs);
    let name = first.filename.as_str();
    let mut p: Vec<Status> = Vec::new();
    if we.len() > 0 {
        let mut m = String::from_str("Font ");
        push_str(&mut m, name);
        push_str(&mut m, " has codepoints not present in sibling fonts: ");
        push_codepoint_list(&mut m, &we);
        p.push(Status::with_message(StatusCode::Fail, "glyphset-diverges", m));
    }
    let ghost mid = views(p@);
    if they.len() > 0 {
        let mut m = String::from_str("Other fonts have codepoints not present in ");
        push_str(&mut m, name);
        push_str(&mut m, ": ");
        push_codepoint_list(&mut m, &they);
        p.push(Status::with_message(StatusCode::Fail, "glyphset-diverges", m));
    }
    assert(views(p@) =~= coverage_problems(name@, my@, sibs));
    Ok(return_result(p))
}

} // verus!
