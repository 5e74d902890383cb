//! Checks of the Monotype profile: the embedding bits, the sanity of the vertical metrics,
//! and whether the weight and width classes fit the style names.
use vstd::prelude::*;
use crate::config::{ConfigValue, Context, get_spec, local_config_spec, lookup, lookup_entry};
use crate::font::{
    best_family, best_familyname, best_subfamily, best_subfamilyname, is_font, read_hhea, read_os2, spec_hhea, spec_is_font, spec_os2,
    HheaInfo, Os2Info,
};
use crate::outcome::{
    ErrorView, just_one, not_a_font, not_a_font_error, outcome, push_when, skip, unreadable,
    unreadable_error, only_if,
};
use crate::status::{
    CheckError, Status, StatusCode, StatusView, passed, plain, result_of, return_result, views,
};
use crate::testable::Testable;
use crate::text::{
    comma_joined, contains, debug_str, decimal, push_decimal, push_signed, push_str, signed_decimal, spec_debug_str,
    spec_lowercase, str_contains, to_lowercase,
};
use crate::words::{Splitter, has_part, has_word};

verus! {

/// The name Monotype gives to an fsType value.
pub open spec fn fs_type_name(v: u16) -> Seq<char> {
    if v == 0 {
        "Installable Embedding (0)"@
    } else if v == 2 {
        "Restricted License Embedding (2)"@
    } else if v == 4 {
        "Print & Preview (4)"@
    } else if v == 8 {
        "Editable Embedding (8)"@
    } else {
        "Unknown"@
    }
}

/// The name Monotype gives to an fsType value.
pub fn fs_type_val_name(v: u16) -> (r: &'static str)
    ensures
        r@ == fs_type_name(v),
{
    match v {
        0 => "Installable Embedding (0)",
        2 => "Restricted License Embedding (2)",
        4 => "Print & Preview (4)",
        8 => "Editable Embedding (8)",
        _ => "Unknown",
    }
}

/// The skip message when no fsType value is configured.
pub open spec fn no_fstype_message() -> Seq<char> {
    "Add the `fstype_value` key to a `fontspector.toml` file on your font project directory to enable this check.\nYou'll also need to use the `--configuration` flag when invoking fontspector"@
}

/// What the fsType check finds, given a font and the check's configuration.
pub open spec fn fstype_outcome(font: Seq<u8>, config: ConfigValue) -> Result<
    Seq<StatusView>,
    ErrorView,
> {
    if !spec_is_font(font) {
        Err(not_a_font())
    } else {
        match get_spec(config, "fstype_value"@) {
            None => Err(ErrorView::Skip("no-fstype-value"@, no_fstype_message())),
            Some(ConfigValue::UInt(n)) => match spec_os2(font) {
                None => Err(unreadable("OS/2"@)),
                Some(o) => if o.fs_type == n as u16 {
                    Ok(seq![passed()])
                } else {
                    Ok(
                        seq![plain(
                            StatusCode::Fail,
                            "fstype"@,
                            "OS/2 fsType must be set to "@ + fs_type_name(n as u16) + ", found "@
                                + fs_type_name(o.fs_type) + " instead."@,
                        )],
                    )
                },
            },
            Some(_) => Err(
                ErrorView::Skip(
                    "invalid-fstype-value"@,
                    "The `fstype_value` key in the configuration file must be an integer."@,
                ),
            ),
        }
    }
}

/// Checks OS/2 fsType against the value configured for `monotype/fstype` (key `fstype_value`,
/// taken modulo 2^16).
pub fn fstype(t: &Testable, context: &Context) -> (r: Result<Vec<Status>, CheckError>)
    ensures
        outcome(r) == fstype_outcome(t.contents@, local_config_spec(*context, "monotype/fstype"@)),
{
    let font = t.contents.as_slice();
    if !is_font(font) {
        return Err(not_a_font_error());
    }
    let config = context.local_config("monotype/fstype");
    let expected = match config.get("fstype_value") {
        None => {
            return Err(
                skip(
                    "no-fstype-value",
                    "Add the `fstype_value` key to a `fontspector.toml` file on your font project directory to enable this check.\nYou'll also need to use the `--configuration` flag when invoking fontspector",
                ),
            )
        },
        Some(v) => match v.as_u64() {
            Some(n) => n as u16,
            None => {
                return Err(
                    skip(
                        "invalid-fstype-value",
                        "The `fstype_value` key in the configuration file must be an integer.",
                    ),
                )
            },
        },
    };
    let os2 = match read_os2(font) {
        Some(o) => o,
        None => return Err(unreadable_error("OS/2")),
    };
    if os2.fs_type == expected {
        Ok(just_one(Status::pass()))
    } else {
        let mut msg = String::from_str("OS/2 fsType must be set to ");
        push_str(&mut msg, fs_type_val_name(expected));
        push_str(&mut msg, ", found ");
        push_str(&mut msg, fs_type_val_name(os2.fs_type));
        push_str(&mut msg, " instead.");
        Ok(just_one(Status::with_message(StatusCode::Fail, "fstype", msg)))
    }
}

/// A failure about one vertical metric: its name, its value and what it should be.
pub open spec fn metric_fail(code: Seq<char>, name: Seq<char>, value: int, should: Seq<char>) -> StatusView {
    plain(StatusCode::Fail, code, name + " is "@ + signed_decimal(value) + "; it should be "@ + should)
}

/// The problems with the vertical metrics of OS/2 and hhea, in the order they are checked.
pub open spec fn vertical_metrics_problems(o: Os2Info, h: HheaInfo) -> Seq<StatusView> {
    only_if(
        o.typo_ascender <= 0,
        metric_fail("bad-os2-typo-ascender"@, "OS/2.sTypoAscender"@, o.typo_ascender as int, "strictly positive"@),
    ) + only_if(
        o.typo_descender >= 0,
        metric_fail("bad-os2-typo-descender"@, "OS/2.sTypoDescender"@, o.typo_descender as int, "strictly negative"@),
    ) + only_if(
        o.typo_line_gap < 0,
        metric_fail("bad-os2-typo-linegap"@, "OS/2.sTypoLineGap"@, o.typo_line_gap as int, "non-negative"@),
    ) + only_if(
        o.win_ascent == 0,
        metric_fail("bad-os2-win-ascent"@, "OS/2.usWinAscent"@, o.win_ascent as int, "strictly positive"@),
    ) + only_if(
        o.win_descent == 0,
        metric_fail("bad-os2-win-descent"@, "OS/2.usWinDescent"@, o.win_descent as int, "strictly positive"@),
    ) + only_if(
        h.ascender <= 0,
        metric_fail("bad-hhea-ascent"@, "hhea.ascent"@, h.ascender as int, "strictly positive"@),
    ) + only_if(
        h.descender >= 0,
        metric_fail("bad-hhea-descent"@, "hhea.descent"@, h.descender as int, "strictly negative"@),
    ) + only_if(
        h.line_gap < 0,
        metric_fail("bad-hhea-linegap"@, "hhea.lineGap"@, h.line_gap as int, "non-negative"@),
    )
}

/// What the vertical metrics check finds in a font.
pub open spec fn vertical_metrics_outcome(font: Seq<u8>) -> Result<Seq<StatusView>, ErrorView> {
    if !spec_is_font(font) {
        Err(not_a_font())
    } else {
        match spec_os2(font) {
            None => Err(unreadable("OS/2"@)),
            Some(o) => match spec_hhea(font) {
                None => Err(unreadable("hhea"@)),
                Some(h) => Ok(result_of(vertical_metrics_problems(o, h))),
            },
        }
    }
}

fn metric_status(code: &str, name: &str, value: i64, should: &str) -> (s: Status)
    ensures
        s@ == metric_fail(code@, name@, value as int, should@),
{
    let mut msg = String::from_str(name);
    push_str(&mut msg, " is ");
    push_signed(&mut msg, value);
    push_str(&mut msg, "; it should be ");
    push_str(&mut msg, should);
    Status::with_message(StatusCode::Fail, code, msg)
}

/// Checks that the typographic ascender, the ascents and the descents have the expected
/// signs, and that the line gaps are not negative.
pub fn vertical_metrics_sane(t: &Testable, _context: &Context) -> (r: Result<Vec<Status>, CheckError>)
    ensures
        outcome(r) == vertical_metrics_outcome(t.contents@),
{
    let font = t.contents.as_slice();
    if !is_font(font) {
        return Err(not_a_font_error());
    }
    let o = match read_os2(font) {
        Some(o) => o,
        None => return Err(unreadable_error("OS/2")),
    };
    let h = match read_hhea(font) {
        Some(h) => h,
        None => return Err(unreadable_error("hhea")),
    };
    let mut p: Vec<Status> = Vec::new();
    let ghost start = views(p@);
    push_when(&mut p, o.typo_ascender <= 0, metric_status("bad-os2-typo-ascender", "OS/2.sTypoAscender", o.typo_ascender as i64, "strictly positive"));
    push_when(&mut p, o.typo_descender >= 0, metric_status("bad-os2-typo-descender", "OS/2.sTypoDescender", o.typo_descender as i64, "strictly negative"));
    push_when(&mut p, o.typo_line_gap < 0, metric_status("bad-os2-typo-linegap", "OS/2.sTypoLineGap", o.typo_line_gap as i64, "non-negative"));
    push_when(&mut p, o.win_ascent == 0, metric_status("bad-os2-win-ascent", "OS/2.usWinAscent", o.win_ascent as i64, "strictly positive"));
    push_when(&mut p, o.win_descent == 0, metric_status("bad-os2-win-descent", "OS/2.usWinDescent", o.win_descent as i64, "strictly positive"));
    push_when(&mut p, h.ascender <= 0, metric_status("bad-hhea-ascent", "hhea.ascent", h.ascender as i64, "strictly positive"));
    push_when(&mut p, h.descender >= 0, metric_status("bad-hhea-descent", "hhea.descent", h.descender as i64, "strictly negative"));
    push_when(&mut p, h.line_gap < 0, metric_status("bad-hhea-linegap", "hhea.lineGap", h.line_gap as i64, "non-negative"));
    assert(views(p@) =~= vertical_metrics_problems(o, h));
    Ok(return_result(p))
}

} // verus!

verus! {

/// The text of each string of a list.
pub open spec fn str_views(v: Seq<&str>) -> Seq<Seq<char>> {
    v.map_values(|s: &str| s@)
}

/// The style names Monotype prefers for a weight class.
pub open spec fn preferred_weight_names(w: u16) -> Option<Seq<&'static str>> {
    if w == 50 {
        Some(seq!["Hairline", "Hair", "Hl"])
    } else if w == 100 {
        Some(seq!["Thin", "Th"])
    } else if w == 200 {
        Some(seq!["ExtraLight", "XLight", "XtraLt", "XLt"])
    } else if w == 300 {
        Some(seq!["Light", "Lt"])
    } else if w == 350 {
        Some(seq!["SemiLight", "SmLt"])
    } else if w == 400 {
        Some(seq!["Regular", "Reg"])
    } else if w == 500 {
        Some(seq!["Medium", "Md", "Med"])
    } else if w == 600 {
        Some(seq!["SemiBold", "SmBd"])
    } else if w == 700 {
        Some(seq!["Bold", "Bd"])
    } else if w == 800 {
        Some(seq!["ExtraBold", "XBold", "XtraBold", "XBd"])
    } else if w == 900 {
        Some(seq!["Black", "Blk", "Bl"])
    } else if w == 950 {
        Some(seq!["ExtraBlack", "XBlack", "XtraBlack", "XBlk", "XBl"])
    } else {
        None
    }
}

/// Other style names in use for a weight class.
pub open spec fn other_weight_names(w: u16) -> Option<Seq<&'static str>> {
    if w == 100 {
        Some(seq!["UltraLight", "Ultra-Light", "UltraLt", "ULt"])
    } else if w == 350 {
        Some(seq!["Book"])
    } else if w == 400 {
        Some(seq!["Book"])
    } else if w == 900 {
        Some(seq!["Heavy", "Hv"])
    } else if w == 950 {
        Some(seq!["UltraBlack", "Ultra-Black", "UltraBlk", "UBlk"])
    } else {
        None
    }
}

/// The style names Monotype prefers for a weight class.
pub fn get_preferred_weight_name(w: u16) -> (r: Option<Vec<&'static str>>)
    ensures
        match r {
            Some(v) => preferred_weight_names(w) == Some(v@),
            None => preferred_weight_names(w) is None,
        },
{
    match w {
        50 => Some(vec!["Hairline", "Hair", "Hl"]),
        100 => Some(vec!["Thin", "Th"]),
        200 => Some(vec!["ExtraLight", "XLight", "XtraLt", "XLt"]),
        300 => Some(vec!["Light", "Lt"]),
        350 => Some(vec!["SemiLight", "SmLt"]),
        400 => Some(vec!["Regular", "Reg"]),
        500 => Some(vec!["Medium", "Md", "Med"]),
        600 => Some(vec!["SemiBold", "SmBd"]),
        700 => Some(vec!["Bold", "Bd"]),
        800 => Some(vec!["ExtraBold", "XBold", "XtraBold", "XBd"]),
        900 => Some(vec!["Black", "Blk", "Bl"]),
        950 => Some(vec!["ExtraBlack", "XBlack", "XtraBlack", "XBlk", "XBl"]),
        _ => None,
    }
}

/// Other style names in use for a weight class.
pub fn get_other_weight_name(w: u16) -> (r: Option<Vec<&'static str>>)
    ensures
        match r {
            Some(v) => other_weight_names(w) == Some(v@),
            None => other_weight_names(w) is None,
        },
{
    match w {
        100 => Some(vec!["UltraLight", "Ultra-Light", "UltraLt", "ULt"]),
        350 => Some(vec!["Book"]),
        400 => Some(vec!["Book"]),
        900 => Some(vec!["Heavy", "Hv"]),
        950 => Some(vec!["UltraBlack", "Ultra-Black", "UltraBlk", "UBlk"]),
        _ => None,
    }
}

} // verus!

verus! {

/// Whether one of the names is one of the parts of the text split at spaces.
pub open spec fn any_part(text: Seq<char>, names: Seq<&str>) -> bool {
    exists|k: int| 0 <= k < names.len() && has_word(Splitter::Space, false, text, #[trigger] names[k]@)
}

/// Whether one of the names is one of the parts of the text split at spaces.
pub fn has_any_part(text: &str, names: &Vec<&str>) -> (r: bool)
    ensures
        r == any_part(text@, names@),
{
    let mut i: usize = 0;
    while i < names.len()
        invariant
            i <= names.len(),
            forall|k: int| 0 <= k < i ==> !has_word(Splitter::Space, false, text@, #[trigger] names@[k]@),
        decreases names.len() - i,
    {
        if has_part(text, names[i]) {
            return true;
        }
        i = i + 1;
    }
    false
}

/// The style names that point to a weight class: its preferred names, then the others.
pub open spec fn weight_indicators(w: u16) -> Seq<&'static str> {
    (match preferred_weight_names(w) {
        Some(v) => v,
        None => Seq::empty(),
    }) + (match other_weight_names(w) {
        Some(v) => v,
        None => Seq::empty(),
    })
}

/// Whether a lower-cased style name contains, lower-cased, a name of a weight other than 400.
pub open spec fn mentions_other_weight(low: Seq<char>) -> bool {
    exists|w: u16, k: int|
        1 <= w <= 1000 && w != 400 && 0 <= k < weight_indicators(w).len() && contains(
            low,
            spec_lowercase(#[trigger] weight_indicators(w)[k]@),
        )
}

/// Whether a style name denotes the regular weight: its lower-case form contains "regular",
/// or no name of another weight.
pub open spec fn is_regular_weight_spec(style: Seq<char>) -> bool {
    contains(spec_lowercase(style), "regular"@) || !mentions_other_weight(spec_lowercase(style))
}

fn indicators(w: u16) -> (r: Vec<&'static str>)
    ensures
        r@ == weight_indicators(w),
{
    let mut r: Vec<&'static str> = match get_preferred_weight_name(w) {
        Some(v) => v,
        None => Vec::new(),
    };
    if let Some(mut o) = get_other_weight_name(w) {
        r.append(&mut o);
    }
    assert(r@ =~= weight_indicators(w));
    r
}

/// Whether a style name denotes the regular weight.
pub fn is_regular_weight(style_name: &str) -> (r: bool)
    ensures
        r == is_regular_weight_spec(style_name@),
{
    let low = to_lowercase(style_name);
    if str_contains(low.as_str(), "regular") {
        return true;
    }
    let mut w: u16 = 1;
    while w <= 1000
        invariant
            1 <= w <= 1001,
            low@ == spec_lowercase(style_name@),
            !contains(low@, "regular"@),
            forall|v: u16, k: int|
                1 <= v < w && v != 400 && 0 <= k < weight_indicators(v).len() ==> !contains(
                    low@,
                    spec_lowercase(#[trigger] weight_indicators(v)[k]@),
                ),
        decreases 1001 - w,
    {
        if w != 400 {
            let names = indicators(w);
            let mut i: usize = 0;
            while i < names.len()
                invariant
                    i <= names.len(),
                    names@ == weight_indicators(w),
                    1 <= w <= 1000,
                    w != 400,
                    low@ == spec_lowercase(style_name@),
                    !contains(low@, "regular"@),
                    forall|k: int| 0 <= k < i ==> !contains(low@, spec_lowercase(#[trigger] names@[k]@)),
                decreases names.len() - i,
            {
                let ind = to_lowercase(names[i]);
                if str_contains(low.as_str(), ind.as_str()) {
                    assert(contains(low@, spec_lowercase(weight_indicators(w)[i as int]@)));
                    return false;
                }
                i = i + 1;
            }
        }
        w = w + 1;
    }
    true
}

/// The message for a weight class that no style name matches.
pub open spec fn unknown_weight_message(value: u16) -> Seq<char> {
    "OS/2 usWeightClass "@ + decimal(value as nat)
        + " does not match specifications. We expect: Hairline 50, Thin 100, ExtraLight 200, Light 300, Regular 400, Medium 500, SemiBold 600, Bold 700, ExtraBold 800, Black 900, ExtraBlack 950."@
}

/// The message for a weight class that CSS cannot express.
pub open spec fn css_weight_message() -> Seq<char> {
    "CSS only supports one of the following OS/2 weight class values '100, 200, 300, 400, 500, 600, 700, 800, 900'. If the font family has more than 9 weights, this does not work for any weight."@
}

/// The finding of the weight class check for a weight class and a style name.
pub open spec fn weightclass_status(value: u16, style: Seq<char>) -> StatusView {
    if !(1 <= value <= 1000) {
        plain(
            StatusCode::Fail,
            "bad-weight-class-value"@,
            "OS/2 usWeightClass "@ + decimal(value as nat) + " is outside the expected range of 1-1000."@,
        )
    } else if value == 400 && is_regular_weight_spec(style) {
        passed()
    } else {
        match preferred_weight_names(value) {
            Some(names) => if any_part(style, names) {
                if value % 100 != 0 {
                    plain(StatusCode::Warn, "bad-weight-class-value-for-css"@, css_weight_message())
                } else {
                    passed()
                }
            } else if other_weight_names(value) matches Some(others) && any_part(style, others) {
                plain(
                    StatusCode::Warn,
                    "weight-class-name-value-mismatch-other"@,
                    "For OS/2 usWeightClass "@ + decimal(value as nat) + " we expect "@ + names[0]@
                        + ", but got '"@ + style + "'."@,
                )
            } else {
                plain(
                    StatusCode::Fail,
                    "weight-class-name-value-mismatch"@,
                    "For OS/2 usWeightClass "@ + decimal(value as nat) + " we expect '"@ + names[0]@
                        + "', but got '"@ + style
                        + "'. Either usWeightClass is wrong or style name. Please investigate."@,
                )
            },
            None => plain(StatusCode::Fail, "bad-weight-class-value"@, unknown_weight_message(value)),
        }
    }
}

/// What the weight class check finds in a font; a font without a subfamily name counts as
/// "Regular".
pub open spec fn weightclass_outcome(font: Seq<u8>) -> Result<Seq<StatusView>, ErrorView> {
    if !spec_is_font(font) {
        Err(not_a_font())
    } else {
        match spec_os2(font) {
            None => Err(unreadable("OS/2"@)),
            Some(o) => Ok(
                seq![weightclass_status(
                    o.weight_class,
                    match best_subfamily(font) {
                        Some(s) => s,
                        None => "Regular"@,
                    },
                )],
            ),
        }
    }
}

fn value_message(prefix: &str, value: u16, suffix: &str) -> (r: String)
    ensures
        r@ == prefix@ + decimal(value as nat) + suffix@,
{
    let mut m = String::from_str(prefix);
    push_decimal(&mut m, value as u64);
    push_str(&mut m, suffix);
    m
}

/// Checks that OS/2 usWeightClass fits the font's best subfamily name.
pub fn weightclass(t: &Testable, _context: &Context) -> (r: Result<Vec<Status>, CheckError>)
    ensures
        outcome(r) == weightclass_outcome(t.contents@),
{
    let font = t.contents.as_slice();
    if !is_font(font) {
        return Err(not_a_font_error());
    }
    let value = match read_os2(font) {
        Some(o) => o.weight_class,
        None => return Err(unreadable_error("OS/2")),
    };
    let style = match best_subfamilyname(font) {
        Some(s) => s,
        None => String::from_str("Regular"),
    };
    let st = style.as_str();
    if !(1 <= value && value <= 1000) {
        let m = value_message("OS/2 usWeightClass ", value, " is outside the expected range of 1-1000.");
        return Ok(just_one(Status::with_message(StatusCode::Fail, "bad-weight-class-value", m)));
    }
    if value == 400 && is_regular_weight(st) {
        return Ok(just_one(Status::pass()));
    }
    match get_preferred_weight_name(value) {
        Some(names) => {
            if has_any_part(st, &names) {
                if value % 100 != 0 {
                    return Ok(just_one(Status::new(StatusCode::Warn, "bad-weight-class-value-for-css",
                        "CSS only supports one of the following OS/2 weight class values '100, 200, 300, 400, 500, 600, 700, 800, 900'. If the font family has more than 9 weights, this does not work for any weight.")));
                }
                return Ok(just_one(Status::pass()));
            }
            let preferred = names[0];
            if let Some(others) = get_other_weight_name(value) {
                if has_any_part(st, &others) {
                    let mut m = value_message("For OS/2 usWeightClass ", value, " we expect ");
                    push_str(&mut m, preferred);
                    push_str(&mut m, ", but got '");
                    push_str(&mut m, st);
                    push_str(&mut m, "'.");
                    return Ok(just_one(Status::with_message(StatusCode::Warn, "weight-class-name-value-mismatch-other", m)));
                }
            }
            let mut m = value_message("For OS/2 usWeightClass ", value, " we expect '");
            push_str(&mut m, preferred);
            push_str(&mut m, "', but got '");
            push_str(&mut m, st);
            push_str(&mut m, "'. Either usWeightClass is wrong or style name. Please investigate.");
            Ok(just_one(Status::with_message(StatusCode::Fail, "weight-class-name-value-mismatch", m)))
        },
        None => {
            let m = value_message("OS/2 usWeightClass ", value,
                " does not match specifications. We expect: Hairline 50, Thin 100, ExtraLight 200, Light 300, Regular 400, Medium 500, SemiBold 600, Bold 700, ExtraBold 800, Black 900, ExtraBlack 950.");
            Ok(just_one(Status::with_message(StatusCode::Fail, "bad-weight-class-value", m)))
        },
    }
}

} // verus!

verus! {

/// The style names Monotype prefers for a width class.
pub open spec fn preferred_width_names(w: u16) -> Option<Seq<&'static str>> {
    if w == 1 {
        Some(seq!["ExtraCompressed", "ExtraComp", "XComp", "XCm"])
    } else if w == 2 {
        Some(seq!["Compressed", "Comp", "Cm"])
    } else if w == 3 {
        Some(seq!["Condensed", "Cond", "Cn"])
    } else if w == 4 {
        Some(seq!["SemiCondensed", "SemiCond", "SmCond", "SmCn"])
    } else if w == 5 {
        Some(seq!["Normal"])
    } else if w == 6 {
        Some(seq!["SemiExtended", "SemiExt", "SmExt"])
    } else if w == 7 {
        Some(seq!["Extended", "Ext"])
    } else if w == 8 {
        Some(seq!["Wide", "Wd"])
    } else if w == 9 {
        Some(seq!["ExtraWide", "XWide", "XtraWd", "XWd"])
    } else {
        None
    }
}

/// Other style names in use for a width class.
pub open spec fn other_width_names(w: u16) -> Option<Seq<&'static str>> {
    if w == 1 {
        Some(seq!["ExtraCompressed", "XXCond", "Ultra-Condensed", "Ultra-Cond", "XCm", "XComp", "ExtraComp"])
    } else if w == 2 {
        Some(seq!["Compressed", "XCond", "Extra-Condensed", "Extra-Cond", "Cm", "Comp"])
    } else if w == 3 {
        Some(seq!["Condensed", "Cond", "Cn"])
    } else if w == 4 {
        Some(seq!["SemiCondensed", "SemiCond", "Semi-Cond", "Semi-Condensed", "SmCond", "SmCn", "Narrow", "Nar"])
    } else if w == 5 {
        Some(seq!["Normal"])
    } else if w == 6 {
        Some(seq!["SemiExtended", "SemiWide", "Semi-Wide", "Semi-Expanded", "SemiExt", "SmExt"])
    } else if w == 7 {
        Some(seq!["Extended", "Wide", "Expanded", "Ext"])
    } else if w == 8 {
        Some(seq!["Wide", "XWide", "Extra-Wide", "Extra-Expanded", "Wd", "ExtraExpanded", "Extra-expanded",
            "XExpanded", "ExtraExp", "XExp", "ExtraExtended", "XExtended", "ExtraExt", "XExt"])
    } else if w == 9 {
        Some(seq!["ExtraWide", "XtraWd", "XWd", "XXWide", "Ultra-Wide", "Ultra-Expanded", "UltraExpanded",
            "Ultra-expanded", "UExpanded", "UltraExp", "UExp"])
    } else {
        None
    }
}

/// The style names Monotype prefers for a width class.
pub fn get_preferred_width_name(w: u16) -> (r: Option<Vec<&'static str>>)
    ensures
        match r {
            Some(v) => preferred_width_names(w) == Some(v@),
            None => preferred_width_names(w) is None,
        },
{
    match w {
        1 => Some(vec!["ExtraCompressed", "ExtraComp", "XComp", "XCm"]),
        2 => Some(vec!["Compressed", "Comp", "Cm"]),
        3 => Some(vec!["Condensed", "Cond", "Cn"]),
        4 => Some(vec!["SemiCondensed", "SemiCond", "SmCond", "SmCn"]),
        5 => Some(vec!["Normal"]),
        6 => Some(vec!["SemiExtended", "SemiExt", "SmExt"]),
        7 => Some(vec!["Extended", "Ext"]),
        8 => Some(vec!["Wide", "Wd"]),
        9 => Some(vec!["ExtraWide", "XWide", "XtraWd", "XWd"]),
        _ => None,
    }
}

/// Other style names in use for a width class.
pub fn get_other_width_name(w: u16) -> (r: Option<Vec<&'static str>>)
    ensures
        match r {
            Some(v) => other_width_names(w) == Some(v@),
            None => other_width_names(w) is None,
        },
{
    match w {
        1 => Some(vec!["ExtraCompressed", "XXCond", "Ultra-Condensed", "Ultra-Cond", "XCm", "XComp", "ExtraComp"]),
        2 => Some(vec!["Compressed", "XCond", "Extra-Condensed", "Extra-Cond", "Cm", "Comp"]),
        3 => Some(vec!["Condensed", "Cond", "Cn"]),
        4 => Some(vec!["SemiCondensed", "SemiCond", "Semi-Cond", "Semi-Condensed", "SmCond", "SmCn", "Narrow", "Nar"]),
        5 => Some(vec!["Normal"]),
        6 => Some(vec!["SemiExtended", "SemiWide", "Semi-Wide", "Semi-Expanded", "SemiExt", "SmExt"]),
        7 => Some(vec!["Extended", "Wide", "Expanded", "Ext"]),
        8 => Some(vec!["Wide", "XWide", "Extra-Wide", "Extra-Expanded", "Wd", "ExtraExpanded", "Extra-expanded",
            "XExpanded", "ExtraExp", "XExp", "ExtraExtended", "XExtended", "ExtraExt", "XExt"]),
        9 => Some(vec!["ExtraWide", "XtraWd", "XWd", "XXWide", "Ultra-Wide", "Ultra-Expanded", "UltraExpanded",
            "Ultra-expanded", "UExpanded", "UltraExp", "UExp"]),
        _ => None,
    }
}

/// The texts of a list of configuration values, when they are all texts.
pub open spec fn all_texts(items: Seq<ConfigValue>) -> Option<Seq<Seq<char>>>
    decreases items.len(),
{
    if items.len() == 0 {
        Some(Seq::empty())
    } else {
        match (all_texts(items.drop_last()), items.last()) {
            (Some(prev), ConfigValue::Str(s)) => Some(prev.push(s@)),
            _ => None,
        }
    }
}

/// The width names configured for a width class: the texts listed under its number, when
/// the class is 1 to 9 and the entry is a list of texts.
pub open spec fn custom_width_names(entries: Seq<(String, ConfigValue)>, w: u16) -> Option<Seq<Seq<char>>> {
    if !(1 <= w <= 9) {
        None
    } else {
        match lookup(entries, decimal(w as nat)) {
            Some(ConfigValue::Array(items)) => all_texts(items@),
            _ => None,
        }
    }
}

fn decimal_string(n: u64) -> (r: String)
    ensures
        r@ == decimal(n as nat),
{
    let mut s = String::new();
    push_decimal(&mut s, n);
    s
}

/// The width names configured for a width class.
pub fn get_custom_width_name(w: u16, entries: &Vec<(String, ConfigValue)>) -> (r: Option<Vec<String>>)
    ensures
        match r {
            Some(v) => custom_width_names(entries@, w) == Some(v@.map_values(|s: String| s@)),
            None => custom_width_names(entries@, w) is None,
        },
{
    if !(1 <= w && w <= 9) {
        return None;
    }
    let key = decimal_string(w as u64);
    match lookup_entry(entries, key.as_str()) {
        Some(ConfigValue::Array(items)) => {
            let mut out: Vec<String> = Vec::new();
            for i in 0..items.len()
                invariant
                    1 <= w <= 9,
                    custom_width_names(entries@, w) == all_texts(items@),
                    all_texts(items@.take(i as int)) == Some(out@.map_values(|s: String| s@)),
            {
                proof {
                    assert(items@.take(i + 1).drop_last() =~= items@.take(i as int));
                }
                match &items[i] {
                    ConfigValue::Str(s) => {
                        let ghost before = out@.map_values(|s: String| s@);
                        out.push(s.clone());
                        assert(out@.map_values(|s: String| s@) =~= before.push(s@));
                    },
                    _ => {
                        proof {
                            lemma_all_texts_none(items@, i as int);
                        }
                        return None;
                    },
                }
            }
            assert(items@.take(items.len() as int) =~= items@);
            Some(out)
        },
        _ => None,
    }
}

proof fn lemma_all_texts_none(items: Seq<ConfigValue>, i: int)
    requires
        0 <= i < items.len(),
        !(items[i] is Str),
    ensures
        all_texts(items) is None,
    decreases items.len(),
{
    if i < items.len() - 1 {
        lemma_all_texts_none(items.drop_last(), i);
    }
}

/// The lower-case fragments that mark a width other than normal.
pub open spec fn non_normal_indicators() -> Seq<&'static str> {
    seq!["cond", "wide", "expand", "extend", "comp", "cm", "cn", "wd"]
}

/// Whether a full name denotes the normal width: its lower-case form contains no fragment of
/// another width.
pub open spec fn is_normal_width_spec(full_name: Seq<char>) -> bool {
    forall|k: int|
        0 <= k < non_normal_indicators().len() ==> !contains(
            spec_lowercase(full_name),
            #[trigger] non_normal_indicators()[k]@,
        )
}

/// Whether a full name denotes the normal width.
pub fn is_normal_width(full_name: &str) -> (r: bool)
    ensures
        r == is_normal_width_spec(full_name@),
{
    let low = to_lowercase(full_name);
    let inds = vec!["cond", "wide", "expand", "extend", "comp", "cm", "cn", "wd"];
    assert(inds@ == non_normal_indicators());
    let mut i: usize = 0;
    while i < inds.len()
        invariant
            i <= inds.len(),
            inds@ == non_normal_indicators(),
            low@ == spec_lowercase(full_name@),
            forall|k: int| 0 <= k < i ==> !contains(low@, #[trigger] inds@[k]@),
        decreases inds.len() - i,
    {
        if str_contains(low.as_str(), inds[i]) {
            return false;
        }
        i = i + 1;
    }
    true
}

/// How std's `Debug` writes a list of texts.
pub open spec fn debug_list(items: Seq<Seq<char>>) -> Seq<char> {
    "["@ + comma_joined(items.map_values(|s: Seq<char>| spec_debug_str(s))) + "]"@
}

/// Appends the texts written as `Debug` writes a list of strings.
pub fn push_debug_list(m: &mut String, items: &Vec<String>)
    ensures
        final(m)@ == old(m)@ + debug_list(items@.map_values(|s: String| s@)),
{
    let ghost start = m@;
    let ghost texts = items@.map_values(|s: String| s@);
    push_str(m, "[");
    for i in 0..items.len()
        invariant
            texts == items@.map_values(|s: String| s@),
            m@ == start + "["@ + comma_joined(texts.take(i as int).map_values(|s: Seq<char>| spec_debug_str(s))),
    {
        let d = debug_str(items[i].as_str());
        proof {
            let dt = texts.take(i + 1).map_values(|s: Seq<char>| spec_debug_str(s));
            assert(dt.drop_last() =~= texts.take(i as int).map_values(|s: Seq<char>| spec_debug_str(s)));
            assert(dt.last() == spec_debug_str(items@[i as int]@));
        }
        if i > 0 {
            push_str(m, ", ");
        }
        push_str(m, d.as_str());
        proof {
            let dt = texts.take(i + 1).map_values(|s: Seq<char>| spec_debug_str(s));
            if i == 0 {
                assert(dt.len() == 1);
                assert(texts.take(0).map_values(|s: Seq<char>| spec_debug_str(s)) =~= Seq::<Seq<char>>::empty());
            }
        }
    }
    push_str(m, "]");
    assert(texts.take(items.len() as int) =~= texts);
}

/// Whether one of the texts is one of the parts of the text split at spaces.
pub open spec fn any_text_part(text: Seq<char>, names: Seq<Seq<char>>) -> bool {
    exists|k: int| 0 <= k < names.len() && has_word(Splitter::Space, false, text, #[trigger] names[k])
}

fn has_any_text_part(text: &str, names: &Vec<String>) -> (r: bool)
    ensures
        r == any_text_part(text@, names@.map_values(|s: String| s@)),
{
    let ghost ns = names@.map_values(|s: String| s@);
    let mut i: usize = 0;
    while i < names.len()
        invariant
            i <= names.len(),
            ns == names@.map_values(|s: String| s@),
            forall|k: int| 0 <= k < i ==> !has_word(Splitter::Space, false, text@, #[trigger] ns[k]),
        decreases names.len() - i,
    {
        if has_part(text, names[i].as_str()) {
            assert(has_word(Splitter::Space, false, text@, ns[i as int]));
            return true;
        }
        i = i + 1;
    }
    false
}

fn owned_all(v: &Vec<&str>) -> (r: Vec<String>)
    ensures
        r@.map_values(|s: String| s@) == str_views(v@),
{
    let mut out: Vec<String> = Vec::new();
    for i in 0..v.len()
        invariant
            out@.map_values(|s: String| s@) == str_views(v@.take(i as int)),
    {
        out.push(String::from_str(v[i]));
        assert(str_views(v@.take(i + 1)) =~= str_views(v@.take(i as int)).push(v@[i as int]@));
        assert(out@.map_values(|s: String| s@) =~= str_views(v@.take(i + 1)));
    }
    assert(v@.take(v.len() as int) =~= v@);
    out
}

} // verus!

verus! {

/// The first width class among `i..=9` without an entry in the configuration.
pub open spec fn first_missing_key(entries: Seq<(String, ConfigValue)>, i: nat) -> Option<nat>
    decreases 10 - i,
{
    if i > 9 {
        None
    } else if lookup(entries, decimal(i)) is None {
        Some(i)
    } else {
        first_missing_key(entries, i + 1)
    }
}

/// The width class whose entry a configuration lacks, if it is an object that lacks one.
pub open spec fn missing_width_key(config: ConfigValue) -> Option<nat> {
    match config {
        ConfigValue::Object(entries) => first_missing_key(entries@, 1),
        _ => None,
    }
}

/// The names expected for a width class: the configured ones when the configuration is an
/// object, the preferred ones otherwise.
pub open spec fn expected_width_names(config: ConfigValue, w: u16) -> Option<Seq<Seq<char>>> {
    match config {
        ConfigValue::Object(entries) => custom_width_names(entries@, w),
        _ => match preferred_width_names(w) {
            Some(v) => Some(str_views(v)),
            None => None,
        },
    }
}

/// The finding of the width class check for a width class, a full name and the expected names.
pub open spec fn widthclass_status(value: u16, full: Seq<char>, expected: Option<Seq<Seq<char>>>) -> StatusView {
    if value == 5 && is_normal_width_spec(full) {
        passed()
    } else {
        match expected {
            Some(names) => if any_text_part(full, names) {
                passed()
            } else if other_width_names(value) matches Some(others) && any_part(full, others) {
                plain(
                    StatusCode::Warn,
                    "width-class-name-value-mismatch-other"@,
                    "For OS/2 usWidthClass "@ + decimal(value as nat) + " we expect "@ + debug_list(names)
                        + ", but got '"@ + full + "'."@,
                )
            } else {
                plain(
                    StatusCode::Fail,
                    "width-class-name-value-mismatch"@,
                    "For OS/2 usWidthClass "@ + decimal(value as nat) + " we expect "@ + debug_list(names)
                        + ", but got '"@ + full
                        + "'. Either usWidthClass is wrong or style name. Please investigate."@,
                )
            },
            None => plain(
                StatusCode::Fail,
                "bad-width-class-value"@,
                "OS/2 usWidthClass "@ + decimal(value as nat)
                    + " is not in the range allowed by the OpenType spec (1-9)."@,
            ),
        }
    }
}

/// What the width class check finds in a font, given the check's configuration.
pub open spec fn widthclass_outcome(font: Seq<u8>, config: ConfigValue) -> Result<Seq<StatusView>, ErrorView> {
    match missing_width_key(config) {
        Some(i) => Ok(
            seq![plain(
                StatusCode::Fail,
                "invalid-config"@,
                "Missing key '"@ + decimal(i) + "' in local configuration for monotype/widthclass."@,
            )],
        ),
        None => if !spec_is_font(font) {
            Err(not_a_font())
        } else {
            match spec_os2(font) {
                None => Err(unreadable("OS/2"@)),
                Some(o) => match best_family(font) {
                    None => Ok(
                        seq![plain(StatusCode::Fail, "missing-family-name"@, "Could not determine the family name of the font."@)],
                    ),
                    Some(fam) => match best_subfamily(font) {
                        None => Ok(
                            seq![plain(StatusCode::Fail, "missing-subfamily-name"@, "Could not determine the subfamily name of the font."@)],
                        ),
                        Some(sub) => Ok(
                            seq![widthclass_status(o.width_class, fam + " "@ + sub, expected_width_names(config, o.width_class))],
                        ),
                    },
                },
            }
        },
    }
}

fn missing_key(entries: &Vec<(String, ConfigValue)>) -> (r: Option<u64>)
    ensures
        match r {
            Some(i) => first_missing_key(entries@, 1) == Some(i as nat),
            None => first_missing_key(entries@, 1) is None,
        },
{
    let mut i: u64 = 1;
    while i <= 9
        invariant
            1 <= i <= 10,
            first_missing_key(entries@, 1) == first_missing_key(entries@, i as nat),
        decreases 10 - i,
    {
        let key = decimal_string(i);
        if lookup_entry(entries, key.as_str()).is_none() {
            return Some(i);
        }
        i = i + 1;
    }
    None
}

/// Checks that OS/2 usWidthClass fits the font's full name, using the width names
/// configured for `monotype/widthclass` when there are any.
pub fn widthclass(t: &Testable, context: &Context) -> (r: Result<Vec<Status>, CheckError>)
    ensures
        outcome(r) == widthclass_outcome(t.contents@, local_config_spec(*context, "monotype/widthclass"@)),
{
    let config = context.local_config("monotype/widthclass");
    if let ConfigValue::Object(entries) = config {
        if let Some(i) = missing_key(entries) {
            let mut m = String::from_str("Missing key '");
            push_decimal(&mut m, i);
            push_str(&mut m, "' in local configuration for monotype/widthclass.");
            return Ok(just_one(Status::with_message(StatusCode::Fail, "invalid-config", m)));
        }
    }
    let font = t.contents.as_slice();
    if !is_font(font) {
        return Err(not_a_font_error());
    }
    let value = match read_os2(font) {
        Some(o) => o.width_class,
        None => return Err(unreadable_error("OS/2")),
    };
    let fam = match best_familyname(font) {
        Some(f) => f,
        None => return Ok(just_one(Status::new(StatusCode::Fail, "missing-family-name", "Could not determine the family name of the font."))),
    };
    let sub = match best_subfamilyname(font) {
        Some(s) => s,
        None => return Ok(just_one(Status::new(StatusCode::Fail, "missing-subfamily-name", "Could not determine the subfamily name of the font."))),
    };
    let mut full = fam.clone();
    push_str(&mut full, " ");
    push_str(&mut full, sub.as_str());
    let fs = full.as_str();
    let expected: Option<Vec<String>> = match config {
        ConfigValue::Object(entries) => get_custom_width_name(value, entries),
        _ => match get_preferred_width_name(value) {
            Some(v) => Some(owned_all(&v)),
            None => None,
        },
    };
    if value == 5 && is_normal_width(fs) {
        return Ok(just_one(Status::pass()));
    }
    match expected {
        Some(names) => {
            if has_any_text_part(fs, &names) {
                return Ok(just_one(Status::pass()));
            }
            if let Some(others) = get_other_width_name(value) {
                if has_any_part(fs, &others) {
                    let mut m = value_message("For OS/2 usWidthClass ", value, " we expect ");
                    push_debug_list(&mut m, &names);
                    push_str(&mut m, ", but got '");
                    push_str(&mut m, fs);
                    push_str(&mut m, "'.");
                    return Ok(just_one(Status::with_message(StatusCode::Warn, "width-class-name-value-mismatch-other", m)));
                }
            }
            let mut m = value_message("For OS/2 usWidthClass ", value, " we expect ");
            push_debug_list(&mut m, &names);
            push_str(&mut m, ", but got '");
            push_str(&mut m, fs);
            push_str(&mut m, "'. Either usWidthClass is wrong or style name. Please investigate.");
            Ok(just_one(Status::with_message(StatusCode::Fail, "width-class-name-value-mismatch", m)))
        },
        None => {
            let m = value_message("OS/2 usWidthClass ", value, " is not in the range allowed by the OpenType spec (1-9).");
            Ok(just_one(Status::with_message(StatusCode::Fail, "bad-width-class-value", m)))
        },
    }
}

} // verus!
