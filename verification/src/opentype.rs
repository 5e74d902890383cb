//! Checks of the OpenType profile: fvar ranges, advance widths, vendor ID, weight class,
//! fsSelection bits and STAT axis values.
use vstd::prelude::*;
use crate::config::{ConfigValue, Context, get_spec, local_config_spec};
use crate::font::{
    AxisInfo, StatValueView, f32_text, fixed_as_u16, is_font, is_variable, is_variable_font, read_advances,
    read_axes, read_hhea, read_os2, read_stat_axes, read_stat_values, rebuild_with_fs_selection,
    spec_advances, spec_axes, spec_f32_text, spec_fixed_as_u16, spec_hhea, spec_is_font, spec_os2,
    spec_name_strings, read_name_strings, read_italic_angle, read_units_per_em, spec_italic_angle,
    spec_units_per_em, spec_stat_axes, spec_stat_ok, spec_stat_values,
    spec_with_fs_selection, stat_ok, tag_display,
    tag_text,
};
use crate::outcome::{
    ErrorView, flat_map, just_one, lemma_flat_map_step, not_a_font, not_a_font_error, only_if, outcome,
    push_when, skip, unreadable, unreadable_error,
};
use crate::status::{
    CheckError, MetaValue, MetaView, ProblemView, Status, StatusCode, StatusView, TableProblem,
    code_string, passed, plain, result_of, return_result, views, with_problem,
};
use crate::testable::Testable;
use crate::text::{comma_joined, decimal, push_decimal, push_signed, push_str, signed_decimal};

verus! {

/// The skip for a font that is not variable.
pub open spec fn not_variable(message: Seq<char>) -> ErrorView {
    ErrorView::Skip("not-variable"@, message)
}

/// The failure for an axis whose default lies outside its range.
pub open spec fn default_problem(a: AxisInfo) -> Seq<StatusView> {
    only_if(
        a.default < a.min || a.default > a.max,
        plain(
            StatusCode::Fail,
            "invalid-default"@,
            "The default value ("@ + spec_f32_text(a.default) + ") for the '"@ + tag_display(a.tag)
                + "' axis is outside the range ["@ + spec_f32_text(a.min) + ", "@ + spec_f32_text(a.max)
                + "]."@,
        ),
    )
}

/// [`default_problem`] as a function value.
pub open spec fn default_problems() -> spec_fn(AxisInfo) -> Seq<StatusView> {
    |a: AxisInfo| default_problem(a)
}

/// What the fvar default check finds in a font. Values are compared as fixed-point numbers.
pub open spec fn valid_default_outcome(font: Seq<u8>) -> Result<Seq<StatusView>, ErrorView> {
    if !spec_is_font(font) {
        Err(not_a_font())
    } else if !is_variable(font) {
        Err(not_variable("Font is not a variable font."@))
    } else {
        Ok(result_of(flat_map(spec_axes(font), default_problems())))
    }
}

/// Checks that the default value of each fvar axis lies within the axis range.
pub fn valid_default(t: &Testable, _context: &Context) -> (r: Result<Vec<Status>, CheckError>)
    ensures
        outcome(r) == valid_default_outcome(t.contents@),
{
    let font = t.contents.as_slice();
    if !is_font(font) {
        return Err(not_a_font_error());
    }
    if !is_variable_font(font) {
        return Err(skip("not-variable", "Font is not a variable font."));
    }
    let axes = read_axes(font);
    let mut p: Vec<Status> = Vec::new();
    for i in 0..axes.len()
        invariant
            axes@ == spec_axes(font@),
            views(p@) == flat_map(axes@.take(i as int), default_problems()),
    {
        proof {
            lemma_flat_map_step(axes@, default_problems(), i as int);
        }
        let a = axes[i];
        let mut m = String::from_str("The default value (");
        push_str(&mut m, f32_text(a.default).as_str());
        push_str(&mut m, ") for the '");
        push_str(&mut m, tag_text(a.tag).as_str());
        push_str(&mut m, "' axis is outside the range [");
        push_str(&mut m, f32_text(a.min).as_str());
        push_str(&mut m, ", ");
        push_str(&mut m, f32_text(a.max).as_str());
        push_str(&mut m, "].");
        push_when(&mut p, a.default < a.min || a.default > a.max, Status::with_message(StatusCode::Fail, "invalid-default", m));
    }
    assert(axes@.take(axes.len() as int) =~= axes@);
    Ok(return_result(p))
}

/// The failure for an axis whose maximum is not above its minimum.
pub open spec fn range_problem(a: AxisInfo) -> Seq<StatusView> {
    only_if(
        a.max <= a.min,
        plain(
            StatusCode::Fail,
            "invalid-range"@,
            "The '"@ + tag_display(a.tag) + "' axis has maxValue ("@ + spec_f32_text(a.max)
                + ") <= minValue ("@ + spec_f32_text(a.min)
                + "). This defines no usable variation range."@,
        ),
    )
}

/// [`range_problem`] as a function value.
pub open spec fn range_problems() -> spec_fn(AxisInfo) -> Seq<StatusView> {
    |a: AxisInfo| range_problem(a)
}

/// What the fvar range check finds in a font. Values are compared as fixed-point numbers.
pub open spec fn valid_range_outcome(font: Seq<u8>) -> Result<Seq<StatusView>, ErrorView> {
    if !spec_is_font(font) {
        Err(not_a_font())
    } else if !is_variable(font) {
        Err(not_variable("Font is not a variable font."@))
    } else {
        Ok(result_of(flat_map(spec_axes(font), range_problems())))
    }
}

/// Checks that the maximum of each fvar axis lies above its minimum.
pub fn valid_range(t: &Testable, _context: &Context) -> (r: Result<Vec<Status>, CheckError>)
    ensures
        outcome(r) == valid_range_outcome(t.contents@),
{
    let font = t.contents.as_slice();
    if !is_font(font) {
        return Err(not_a_font_error());
    }
    if !is_variable_font(font) {
        return Err(skip("not-variable", "Font is not a variable font."));
    }
    let axes = read_axes(font);
    let mut p: Vec<Status> = Vec::new();
    for i in 0..axes.len()
        invariant
            axes@ == spec_axes(font@),
            views(p@) == flat_map(axes@.take(i as int), range_problems()),
    {
        proof {
            lemma_flat_map_step(axes@, range_problems(), i as int);
        }
        let a = axes[i];
        let mut m = String::from_str("The '");
        push_str(&mut m, tag_text(a.tag).as_str());
        push_str(&mut m, "' axis has maxValue (");
        push_str(&mut m, f32_text(a.max).as_str());
        push_str(&mut m, ") <= minValue (");
        push_str(&mut m, f32_text(a.min).as_str());
        push_str(&mut m, "). This defines no usable variation range.");
        push_when(&mut p, a.max <= a.min, Status::with_message(StatusCode::Fail, "invalid-range", m));
    }
    assert(axes@.take(axes.len() as int) =~= axes@);
    Ok(return_result(p))
}

/// The largest advance width, or 0 for none.
pub open spec fn max_advance(a: Seq<u16>) -> u16
    decreases a.len(),
{
    if a.len() == 0 {
        0
    } else {
        let m = max_advance(a.drop_last());
        if a.last() > m {
            a.last()
        } else {
            m
        }
    }
}

/// The message when hhea's advanceWidthMax differs from the widest advance of hmtx.
pub open spec fn advance_message(hmtx_max: u16, hhea_max: u16) -> Seq<char> {
    "AdvanceWidthMax mismatch: expected "@ + decimal(hmtx_max as nat) + " from hmtx; got "@
        + decimal(hhea_max as nat) + " for hhea"@
}

/// What the advance width check finds in a font.
pub open spec fn maxadvancewidth_outcome(font: Seq<u8>) -> Result<Seq<StatusView>, ErrorView> {
    if !spec_is_font(font) {
        Err(not_a_font())
    } else {
        match spec_hhea(font) {
            None => Err(unreadable("hhea"@)),
            Some(h) => match spec_advances(font) {
                None => Err(unreadable("hmtx"@)),
                Some(a) => {
                    let widest = max_advance(a);
                    let msg = advance_message(widest, h.advance_width_max);
                    Ok(
                        result_of(
                            only_if(
                                widest != h.advance_width_max,
                                with_problem(
                                    StatusCode::Fail,
                                    "mismatch"@,
                                    msg,
                                    ProblemView {
                                        table_tag: "hhea"@,
                                        field_name: Some("advanceWidthMax"@),
                                        actual: Some(MetaView::Int(h.advance_width_max as int)),
                                        expected: Some(MetaView::Int(widest as int)),
                                        message: msg,
                                    },
                                ),
                            ),
                        ),
                    )
                },
            },
        }
    }
}

fn widest_advance(a: &Vec<u16>) -> (r: u16)
    ensures
        r == max_advance(a@),
{
    let mut m: u16 = 0;
    for i in 0..a.len()
        invariant
            m == max_advance(a@.take(i as int)),
    {
        assert(a@.take(i + 1).drop_last() =~= a@.take(i as int));
        if a[i] > m {
            m = a[i];
        }
    }
    assert(a@.take(a.len() as int) =~= a@);
    m
}

fn advance_text(hmtx_max: u16, hhea_max: u16) -> (r: String)
    ensures
        r@ == advance_message(hmtx_max, hhea_max),
{
    let mut m = String::from_str("AdvanceWidthMax mismatch: expected ");
    push_decimal(&mut m, hmtx_max as u64);
    push_str(&mut m, " from hmtx; got ");
    push_decimal(&mut m, hhea_max as u64);
    push_str(&mut m, " for hhea");
    m
}

/// Checks that hhea's advanceWidthMax is the widest advance of hmtx.
pub fn maxadvancewidth(t: &Testable, _context: &Context) -> (r: Result<Vec<Status>, CheckError>)
    ensures
        outcome(r) == maxadvancewidth_outcome(t.contents@),
{
    let font = t.contents.as_slice();
    if !is_font(font) {
        return Err(not_a_font_error());
    }
    let h = match read_hhea(font) {
        Some(h) => h,
        None => return Err(unreadable_error("hhea")),
    };
    let a = match read_advances(font) {
        Some(a) => a,
        None => return Err(unreadable_error("hmtx")),
    };
    let widest = widest_advance(&a);
    let mut p: Vec<Status> = Vec::new();
    if widest != h.advance_width_max {
        let msg = advance_text(widest, h.advance_width_max);
        let problem = TableProblem {
            table_tag: code_string("hhea"),
            field_name: Some(code_string("advanceWidthMax")),
            actual: Some(MetaValue::Int(h.advance_width_max as i64)),
            expected: Some(MetaValue::Int(widest as i64)),
            message: msg.clone(),
        };
        p.push(Status::with_metadata(StatusCode::Fail, "mismatch", msg, problem));
    }
    proof {
        let msg = advance_message(widest, h.advance_width_max);
        assert(views(p@) =~= only_if(
            widest != h.advance_width_max,
            with_problem(
                StatusCode::Fail,
                "mismatch"@,
                msg,
                ProblemView {
                    table_tag: "hhea"@,
                    field_name: Some("advanceWidthMax"@),
                    actual: Some(MetaView::Int(h.advance_width_max as int)),
                    expected: Some(MetaView::Int(widest as int)),
                    message: msg,
                },
            ),
        ));
    }
    Ok(return_result(p))
}

/// The skip message when no vendor ID is configured.
pub open spec fn no_vendor_message() -> Seq<char> {
    "Add the `vendor_id` key to a `fontspector.toml` file on your font project directory to enable this check.\nYou'll also need to use the `--configuration` flag when invoking fontspector"@
}

/// The failure for a vendor ID that differs from the configured one.
pub open spec fn vendor_problem(found: Seq<char>, wanted: Seq<char>) -> StatusView {
    let msg = "OS/2 achVendID value '"@ + found + "' does not match configuration value '"@ + wanted
        + "'"@;
    with_problem(
        StatusCode::Fail,
        "bad-vendor-id"@,
        msg,
        ProblemView {
            table_tag: "OS/2"@,
            field_name: Some("achVendID"@),
            actual: Some(MetaView::Text(found)),
            expected: Some(MetaView::Text(wanted)),
            message: msg,
        },
    )
}

/// What the vendor ID check finds in a font, given the check's configuration.
pub open spec fn vendor_id_outcome(font: Seq<u8>, config: ConfigValue) -> Result<Seq<StatusView>, ErrorView> {
    if !spec_is_font(font) {
        Err(not_a_font())
    } else {
        match get_spec(config, "vendor_id"@) {
            None => Err(ErrorView::Skip("no-vendor-id"@, no_vendor_message())),
            Some(ConfigValue::Str(wanted)) => match spec_os2(font) {
                None => Err(unreadable("OS/2"@)),
                Some(o) => Ok(
                    result_of(
                        only_if(
                            tag_display(o.vendor_id) != wanted@,
                            vendor_problem(tag_display(o.vendor_id), wanted@),
                        ),
                    ),
                ),
            },
            Some(_) => Err(
                ErrorView::Skip(
                    "invalid-vendor-id"@,
                    "The `vendor_id` key in the configuration file must be a string."@,
                ),
            ),
        }
    }
}

/// Checks OS/2 achVendID against the value configured for `opentype/vendor_id` (key
/// `vendor_id`).
pub fn vendor_id(t: &Testable, context: &Context) -> (r: Result<Vec<Status>, CheckError>)
    ensures
        outcome(r) == vendor_id_outcome(t.contents@, local_config_spec(*context, "opentype/vendor_id"@)),
{
    let font = t.contents.as_slice();
    if !is_font(font) {
        return Err(not_a_font_error());
    }
    let config = context.local_config("opentype/vendor_id");
    let wanted = match config.get("vendor_id") {
        None => {
            return Err(
                skip(
                    "no-vendor-id",
                    "Add the `vendor_id` key to a `fontspector.toml` file on your font project directory to enable this check.\nYou'll also need to use the `--configuration` flag when invoking fontspector",
                ),
            )
        },
        Some(v) => match v.as_str() {
            Some(s) => s,
            None => {
                return Err(
                    skip(
                        "invalid-vendor-id",
                        "The `vendor_id` key in the configuration file must be a string.",
                    ),
                )
            },
        },
    };
    let o = match read_os2(font) {
        Some(o) => o,
        None => return Err(unreadable_error("OS/2")),
    };
    let found = tag_text(o.vendor_id);
    let mut p: Vec<Status> = Vec::new();
    if !crate::text::str_eq(found.as_str(), wanted) {
        let mut msg = String::from_str("OS/2 achVendID value '");
        push_str(&mut msg, found.as_str());
        push_str(&mut msg, "' does not match configuration value '");
        push_str(&mut msg, wanted);
        push_str(&mut msg, "'");
        let problem = TableProblem {
            table_tag: code_string("OS/2"),
            field_name: Some(code_string("achVendID")),
            actual: Some(MetaValue::Text(found.clone())),
            expected: Some(MetaValue::Text(code_string(wanted))),
            message: msg.clone(),
        };
        p.push(Status::with_metadata(StatusCode::Fail, "bad-vendor-id", msg, problem));
    }
    proof {
        assert(views(p@) =~= only_if(found@ != wanted@, vendor_problem(found@, wanted@)));
    }
    Ok(return_result(p))
}

/// The tag of the weight axis.
pub const WGHT: u32 = 0x7767_6874;

/// The first axis with the given tag.
pub open spec fn find_axis(axes: Seq<AxisInfo>, tag: u32) -> Option<AxisInfo>
    decreases axes.len(),
{
    if axes.len() == 0 {
        None
    } else if axes[0].tag == tag {
        Some(axes[0])
    } else {
        find_axis(axes.drop_first(), tag)
    }
}

/// Finds the first axis with the given tag.
pub fn first_axis(axes: &Vec<AxisInfo>, tag: u32) -> (r: Option<AxisInfo>)
    ensures
        r == find_axis(axes@, tag),
{
    let mut i: usize = 0;
    assert(axes@.skip(0) =~= axes@);
    while i < axes.len()
        invariant
            i <= axes.len(),
            find_axis(axes@, tag) == find_axis(axes@.skip(i as int), tag),
        decreases axes.len() - i,
    {
        assert(axes@.skip(i as int).drop_first() =~= axes@.skip(i + 1));
        if axes[i].tag == tag {
            return Some(axes[i]);
        }
        i = i + 1;
    }
    None
}

/// The failure for a weight class that differs from the fvar default of the weight axis.
pub open spec fn weight_fvar_problem(os2_value: u16, default: i32) -> StatusView {
    let msg = "OS/2 usWeightClass is "@ + decimal(os2_value as nat) + ", but fvar default is "@
        + spec_f32_text(default);
    with_problem(
        StatusCode::Fail,
        "bad-weight-class"@,
        msg,
        ProblemView {
            table_tag: "OS/2"@,
            field_name: Some("usWeightClass"@),
            actual: Some(MetaView::Int(os2_value as int)),
            expected: Some(MetaView::Fixed(default)),
            message: msg,
        },
    )
}

/// What the weight class and fvar check finds in a font.
pub open spec fn weight_class_fvar_outcome(font: Seq<u8>) -> Result<Seq<StatusView>, ErrorView> {
    if !spec_is_font(font) {
        Err(not_a_font())
    } else if !is_variable(font) {
        Err(not_variable("Not a variable font"@))
    } else {
        match find_axis(spec_axes(font), WGHT) {
            None => Err(ErrorView::Skip("no-wght"@, "No 'wght' axis"@)),
            Some(a) => match spec_os2(font) {
                None => Err(ErrorView::Skip("no-os2"@, "No OS/2 table"@)),
                Some(o) => Ok(
                    result_of(
                        only_if(
                            o.weight_class != spec_fixed_as_u16(a.default),
                            weight_fvar_problem(o.weight_class, a.default),
                        ),
                    ),
                ),
            },
        }
    }
}

/// Checks that OS/2 usWeightClass is the default of the fvar weight axis.
pub fn weight_class_fvar(t: &Testable, _context: &Context) -> (r: Result<Vec<Status>, CheckError>)
    ensures
        outcome(r) == weight_class_fvar_outcome(t.contents@),
{
    let font = t.contents.as_slice();
    if !is_font(font) {
        return Err(not_a_font_error());
    }
    if !is_variable_font(font) {
        return Err(skip("not-variable", "Not a variable font"));
    }
    let axes = read_axes(font);
    let a = match first_axis(&axes, WGHT) {
        Some(a) => a,
        None => return Err(skip("no-wght", "No 'wght' axis")),
    };
    let o = match read_os2(font) {
        Some(o) => o,
        None => return Err(skip("no-os2", "No OS/2 table")),
    };
    let mut p: Vec<Status> = Vec::new();
    if o.weight_class != fixed_as_u16(a.default) {
        let mut msg = String::from_str("OS/2 usWeightClass is ");
        push_decimal(&mut msg, o.weight_class as u64);
        push_str(&mut msg, ", but fvar default is ");
        push_str(&mut msg, f32_text(a.default).as_str());
        let problem = TableProblem {
            table_tag: code_string("OS/2"),
            field_name: Some(code_string("usWeightClass")),
            actual: Some(MetaValue::Int(o.weight_class as i64)),
            expected: Some(MetaValue::Fixed(a.default)),
            message: msg.clone(),
        };
        p.push(Status::with_metadata(StatusCode::Fail, "bad-weight-class", msg, problem));
    }
    proof {
        assert(views(p@) =~= only_if(
            o.weight_class != spec_fixed_as_u16(a.default),
            weight_fvar_problem(o.weight_class, a.default),
        ));
    }
    Ok(return_result(p))
}

} // verus!

verus! {

/// The warning when the WWS bit is set although name IDs 21 or 22 exist.
pub open spec fn wws_with_names_message() -> Seq<char> {
    "OS/2 fsSelection WWS bit is set, but the font has name IDs 21/22 (WWS Family/Subfamily). The WWS bit should only be set when the font's naming is already WWS-conformant without needing IDs 21/22."@
}

/// The warning when the WWS bit is clear although name IDs 21 and 22 are absent.
pub open spec fn no_wws_message() -> Seq<char> {
    "OS/2 fsSelection WWS bit is not set, and the font does not have name IDs 21/22 (WWS Family/Subfamily). If the font's naming is WWS-conformant, the WWS bit should be set."@
}

/// What the WWS bit check finds in a font.
pub open spec fn fsselection_wws_outcome(font: Seq<u8>) -> Result<Seq<StatusView>, ErrorView> {
    if !spec_is_font(font) {
        Err(not_a_font())
    } else {
        match spec_os2(font) {
            None => Err(unreadable("OS/2"@)),
            Some(o) => {
                let wws_set = o.fs_selection & 0x100 != 0;
                let has_names = spec_name_strings(font, 21).len() > 0 || spec_name_strings(font, 22).len() > 0;
                Ok(
                    result_of(
                        only_if(wws_set && has_names, plain(StatusCode::Warn, "wws-with-wws-names"@, wws_with_names_message()))
                            + only_if(!wws_set && !has_names, plain(StatusCode::Warn, "no-wws-without-wws-names"@, no_wws_message())),
                    ),
                )
            },
        }
    }
}

/// Checks that the OS/2 fsSelection WWS bit is set exactly when the font has no WWS names
/// (IDs 21 and 22).
pub fn fsselection_wws(t: &Testable, _context: &Context) -> (r: Result<Vec<Status>, CheckError>)
    ensures
        outcome(r) == fsselection_wws_outcome(t.contents@),
{
    let font = t.contents.as_slice();
    if !is_font(font) {
        return Err(not_a_font_error());
    }
    let o = match read_os2(font) {
        Some(o) => o,
        None => return Err(unreadable_error("OS/2")),
    };
    let wws_set = o.fs_selection & 0x100 != 0;
    let has_names = read_name_strings(font, 21).len() > 0 || read_name_strings(font, 22).len() > 0;
    let mut p: Vec<Status> = Vec::new();
    push_when(&mut p, wws_set && has_names, Status::new(StatusCode::Warn, "wws-with-wws-names",
        "OS/2 fsSelection WWS bit is set, but the font has name IDs 21/22 (WWS Family/Subfamily). The WWS bit should only be set when the font's naming is already WWS-conformant without needing IDs 21/22."));
    push_when(&mut p, !wws_set && !has_names, Status::new(StatusCode::Warn, "no-wws-without-wws-names",
        "OS/2 fsSelection WWS bit is not set, and the font does not have name IDs 21/22 (WWS Family/Subfamily). If the font's naming is WWS-conformant, the WWS bit should be set."));
    assert(views(p@) =~= Seq::<StatusView>::empty() + only_if(wws_set && has_names, plain(StatusCode::Warn, "wws-with-wws-names"@, wws_with_names_message()))
        + only_if(!wws_set && !has_names, plain(StatusCode::Warn, "no-wws-without-wws-names"@, no_wws_message())));
    Ok(return_result(p))
}

/// The warning for an fsSelection bit of OS/2 version 4 set in an older OS/2 table.
pub open spec fn v4_flag_problem(version: u16, name: Seq<char>) -> StatusView {
    let msg = "OS/2 version is "@ + decimal(version as nat) + ", but fsSelection "@ + name
        + " is set. This bit requires OS/2 version >= 4."@;
    with_problem(
        StatusCode::Warn,
        "v4-flag-in-old-os2"@,
        msg,
        ProblemView {
            table_tag: "OS/2"@,
            field_name: Some("version / fsSelection"@),
            actual: Some(MetaView::Json("{\"flag\":\""@ + name + "\",\"version\":"@ + decimal(version as nat) + "}"@)),
            expected: Some(MetaView::Text("version >= 4 for this flag"@)),
            message: msg,
        },
    )
}

/// The warnings for the version 4 bits set in an OS/2 table older than version 4.
pub open spec fn v4_flag_problems(version: u16, fs: u16) -> Seq<StatusView> {
    only_if(version < 4 && fs & 0x80 == 0x80, v4_flag_problem(version, "USE_TYPO_METRICS (bit 7)"@))
        + only_if(version < 4 && fs & 0x100 == 0x100, v4_flag_problem(version, "WWS (bit 8)"@))
        + only_if(version < 4 && fs & 0x200 == 0x200, v4_flag_problem(version, "OBLIQUE (bit 9)"@))
}

/// What the OS/2 version check finds in a font.
pub open spec fn os2_version_fsselection_outcome(font: Seq<u8>) -> Result<Seq<StatusView>, ErrorView> {
    if !spec_is_font(font) {
        Err(not_a_font())
    } else {
        match spec_os2(font) {
            None => Err(unreadable("OS/2"@)),
            Some(o) => Ok(result_of(v4_flag_problems(o.version, o.fs_selection))),
        }
    }
}

fn v4_flag_status(version: u16, name: &str) -> (s: Status)
    ensures
        s@ == v4_flag_problem(version, name@),
{
    let mut msg = String::from_str("OS/2 version is ");
    push_decimal(&mut msg, version as u64);
    push_str(&mut msg, ", but fsSelection ");
    push_str(&mut msg, name);
    push_str(&mut msg, " is set. This bit requires OS/2 version >= 4.");
    let mut json = String::from_str("{\"flag\":\"");
    push_str(&mut json, name);
    push_str(&mut json, "\",\"version\":");
    push_decimal(&mut json, version as u64);
    push_str(&mut json, "}");
    let problem = TableProblem {
        table_tag: code_string("OS/2"),
        field_name: Some(code_string("version / fsSelection")),
        actual: Some(MetaValue::Json(json)),
        expected: Some(MetaValue::Text(code_string("version >= 4 for this flag"))),
        message: msg.clone(),
    };
    Status::with_metadata(StatusCode::Warn, "v4-flag-in-old-os2", msg, problem)
}

/// Checks that the fsSelection bits 7, 8 and 9 are set only in OS/2 tables of version 4 or
/// later.
pub fn os2_version_fsselection(t: &Testable, _context: &Context) -> (r: Result<Vec<Status>, CheckError>)
    ensures
        outcome(r) == os2_version_fsselection_outcome(t.contents@),
{
    let font = t.contents.as_slice();
    if !is_font(font) {
        return Err(not_a_font_error());
    }
    let o = match read_os2(font) {
        Some(o) => o,
        None => return Err(unreadable_error("OS/2")),
    };
    let v = o.version;
    let fs = o.fs_selection;
    let mut p: Vec<Status> = Vec::new();
    push_when(&mut p, v < 4 && fs & 0x80 == 0x80, v4_flag_status(v, "USE_TYPO_METRICS (bit 7)"));
    push_when(&mut p, v < 4 && fs & 0x100 == 0x100, v4_flag_status(v, "WWS (bit 8)"));
    push_when(&mut p, v < 4 && fs & 0x200 == 0x200, v4_flag_status(v, "OBLIQUE (bit 9)"));
    assert(views(p@) =~= v4_flag_problems(v, fs));
    Ok(return_result(p))
}

/// The error when a font cannot be written back after a fix.
pub open spec fn rebuild_failed() -> ErrorView {
    ErrorView::General("The font could not be rebuilt"@)
}

/// What a hotfix that rewrites fsSelection reports and leaves: the outcome, and the font's
/// bytes afterwards.
pub open spec fn fs_selection_fix(font: Seq<u8>, bits: u16) -> (Result<bool, ErrorView>, Seq<u8>) {
    match spec_with_fs_selection(font, bits) {
        Some(nb) => (Ok(true), nb),
        None => (Err(rebuild_failed()), font),
    }
}

/// What the OS/2 version hotfix reports and leaves: it clears bits 7, 8 and 9 of fsSelection in
/// OS/2 tables older than version 4.
pub open spec fn fix_os2_version_spec(font: Seq<u8>) -> (Result<bool, ErrorView>, Seq<u8>) {
    if !spec_is_font(font) {
        (Err(not_a_font()), font)
    } else {
        match spec_os2(font) {
            None => (Err(unreadable("OS/2"@)), font),
            Some(o) => if o.version >= 4 {
                (Ok(false), font)
            } else {
                fs_selection_fix(font, o.fs_selection & 0xfc7f)
            },
        }
    }
}

/// The content of a hotfix's result.
pub open spec fn fix_view(r: Result<bool, CheckError>) -> Result<bool, ErrorView> {
    match r {
        Ok(b) => Ok(b),
        Err(e) => Err(e@),
    }
}

/// Replaces a font's fsSelection, reporting whether it did; when it did, the new font opens
/// and its OS/2 table reads as the old one with the new fsSelection (and the version
/// write-fonts gives it).
pub fn apply_fs_selection(t: &mut Testable, bits: u16) -> (r: Result<bool, CheckError>)
    ensures
        (fix_view(r), final(t).contents@) == fs_selection_fix(old(t).contents@, bits),
        final(t).filename == old(t).filename,
        r is Ok ==> {
            &&& spec_is_font(final(t).contents@)
            &&& spec_os2(old(t).contents@) matches Some(o)
            &&& spec_os2(final(t).contents@) == Some(crate::font::Os2Info {
                version: crate::font::rewritten_os2_version(o.version),
                fs_selection: (bits & 0x3ff) as u16,
                ..o
            })
        },
{
    match rebuild_with_fs_selection(t.contents.as_slice(), bits) {
        Some(nb) => {
            t.set(nb);
            Ok(true)
        },
        None => Err(CheckError::General(code_string("The font could not be rebuilt"))),
    }
}

/// Clears the fsSelection bits of OS/2 version 4 in OS/2 tables older than version 4. When it
/// reports a change, the OS/2 version check passes on the fixed font.
pub fn fix_os2_version_fsselection(t: &mut Testable) -> (r: Result<bool, CheckError>)
    ensures
        (fix_view(r), final(t).contents@) == fix_os2_version_spec(old(t).contents@),
        final(t).filename == old(t).filename,
        fix_view(r) == Ok::<bool, ErrorView>(true) ==> os2_version_fsselection_outcome(final(t).contents@)
            == Ok::<Seq<StatusView>, ErrorView>(seq![passed()]),
{
    if !is_font(t.contents.as_slice()) {
        return Err(not_a_font_error());
    }
    let o = match read_os2(t.contents.as_slice()) {
        Some(o) => o,
        None => return Err(unreadable_error("OS/2")),
    };
    if o.version >= 4 {
        return Ok(false);
    }
    let fs = o.fs_selection;
    let bits = fs & 0xfc7f;
    let r = apply_fs_selection(t, bits);
    proof {
        if r is Ok {
            let n = ((bits & 0x3ff) as u16);
            assert(n & 0x80 != 0x80 && n & 0x100 != 0x100 && n & 0x200 != 0x200) by (bit_vector)
                requires
                    bits == fs & 0xfc7f,
                    n == (bits & 0x3ff) as u16;
            assert(v4_flag_problems(crate::font::rewritten_os2_version(o.version), n) =~= Seq::<StatusView>::empty());
        }
    }
    r
}

} // verus!

verus! {

/// How an axis is named in messages: its STAT tag, or `axis[i]` when the index is out of range.
pub open spec fn axis_label(axes: Seq<u32>, idx: u16) -> Seq<char> {
    if (idx as int) < axes.len() {
        tag_display(axes[idx as int])
    } else {
        "axis["@ + decimal(idx as nat) + "]"@
    }
}

/// The labels `tag=value` of the (axis, value) pairs of an axis value.
pub open spec fn key_labels(axes: Seq<u32>, keys: Seq<(u16, i32)>) -> Seq<Seq<char>> {
    keys.map_values(|k: (u16, i32)| axis_label(axes, k.0) + "="@ + spec_f32_text(k.1))
}

/// The failure for two axis values with the same pairs.
pub open spec fn duplicate_problem(axes: Seq<u32>, keys: Seq<(u16, i32)>) -> StatusView {
    let desc = comma_joined(key_labels(axes, keys));
    let msg = "STAT table has duplicate axis value entries for: "@ + desc;
    with_problem(
        StatusCode::Fail,
        "duplicate-axis-value"@,
        msg,
        ProblemView {
            table_tag: "STAT"@,
            field_name: Some("axisValues"@),
            actual: Some(MetaView::Text(desc)),
            expected: Some(MetaView::Text("no duplicates"@)),
            message: msg,
        },
    )
}

/// The failures for the pairs (i, k) of axis values with i < k < j.
pub open spec fn duplicate_row(vals: Seq<StatValueView>, axes: Seq<u32>, i: int, j: int) -> Seq<StatusView>
    decreases j - i,
{
    if j <= i + 1 {
        Seq::empty()
    } else {
        duplicate_row(vals, axes, i, j - 1) + only_if(
            vals[i].keys == vals[j - 1].keys,
            duplicate_problem(axes, vals[i].keys),
        )
    }
}

/// The failures for the pairs (i, k) of axis values with i < n and i < k.
pub open spec fn duplicate_rows(vals: Seq<StatValueView>, axes: Seq<u32>, n: int) -> Seq<StatusView>
    decreases n,
{
    if n <= 0 {
        Seq::empty()
    } else {
        duplicate_rows(vals, axes, n - 1) + duplicate_row(vals, axes, n - 1, vals.len() as int)
    }
}

/// What the duplicate axis value check finds in a font. Values are compared as fixed-point
/// numbers.
pub open spec fn no_duplicate_axis_values_outcome(font: Seq<u8>) -> Result<Seq<StatusView>, ErrorView> {
    if !spec_is_font(font) {
        Err(not_a_font())
    } else if !spec_stat_ok(font) {
        Err(ErrorView::Skip("no-stat"@, "Font has no STAT table."@))
    } else {
        match spec_stat_values(font) {
            None => Ok(seq![passed()]),
            Some(vals) => match spec_stat_axes(font) {
                None => Err(unreadable("STAT"@)),
                Some(axes) => Ok(result_of(duplicate_rows(vals, axes, vals.len() as int))),
            },
        }
    }
}

fn same_keys(a: &Vec<(u16, i32)>, b: &Vec<(u16, i32)>) -> (r: bool)
    ensures
        r == (a@ == b@),
{
    if a.len() != b.len() {
        return false;
    }
    let mut i: usize = 0;
    while i < a.len()
        invariant
            a.len() == b.len(),
            i <= a.len(),
            forall|k: int| 0 <= k < i ==> a@[k] == b@[k],
        decreases a.len() - i,
    {
        if a[i].0 != b[i].0 || a[i].1 != b[i].1 {
            assert(a@[i as int] != b@[i as int]);
            return false;
        }
        i = i + 1;
    }
    assert(a@ =~= b@);
    true
}

fn duplicate_status(axes: &Vec<u32>, keys: &Vec<(u16, i32)>) -> (s: Status)
    ensures
        s@ == duplicate_problem(axes@, keys@),
{
    let mut labels: Vec<String> = Vec::new();
    for i in 0..keys.len()
        invariant
            labels@.map_values(|x: String| x@) == key_labels(axes@, keys@.take(i as int)),
    {
        let (idx, value) = keys[i];
        let mut l = if (idx as usize) < axes.len() {
            tag_text(axes[idx as usize])
        } else {
            let mut a = String::from_str("axis[");
            push_decimal(&mut a, idx as u64);
            push_str(&mut a, "]");
            a
        };
        push_str(&mut l, "=");
        push_str(&mut l, f32_text(value).as_str());
        let ghost before = labels@.map_values(|x: String| x@);
        labels.push(l);
        assert(labels@.map_values(|x: String| x@) =~= before.push(l@));
        assert(key_labels(axes@, keys@.take(i + 1)) =~= key_labels(axes@, keys@.take(i as int)).push(
            axis_label(axes@, idx) + "="@ + spec_f32_text(value),
        ));
    }
    assert(keys@.take(keys.len() as int) =~= keys@);
    let mut desc = String::new();
    crate::text::push_comma_joined(&mut desc, &labels);
    assert(desc@ =~= comma_joined(key_labels(axes@, keys@)));
    let mut msg = String::from_str("STAT table has duplicate axis value entries for: ");
    push_str(&mut msg, desc.as_str());
    let problem = TableProblem {
        table_tag: code_string("STAT"),
        field_name: Some(code_string("axisValues")),
        actual: Some(MetaValue::Text(desc)),
        expected: Some(MetaValue::Text(code_string("no duplicates"))),
        message: msg.clone(),
    };
    Status::with_metadata(StatusCode::Fail, "duplicate-axis-value", msg, problem)
}

/// Checks that no two axis values of the STAT table name the same (axis, value) pairs.
pub fn no_duplicate_axis_values(t: &Testable, _context: &Context) -> (r: Result<Vec<Status>, CheckError>)
    ensures
        outcome(r) == no_duplicate_axis_values_outcome(t.contents@),
{
    let font = t.contents.as_slice();
    if !is_font(font) {
        return Err(not_a_font_error());
    }
    if !stat_ok(font) {
        return Err(skip("no-stat", "Font has no STAT table."));
    }
    let vals = match read_stat_values(font) {
        None => return Ok(just_one(Status::pass())),
        Some(v) => v,
    };
    let axes = match read_stat_axes(font) {
        None => return Err(unreadable_error("STAT")),
        Some(a) => a,
    };
    let ghost vv = vals@.map_values(|x: crate::font::StatValue| x@);
    let n = vals.len();
    let mut p: Vec<Status> = Vec::new();
    for i in 0..n
        invariant
            n == vals@.len(),
            vv == vals@.map_values(|x: crate::font::StatValue| x@),
            views(p@) == duplicate_rows(vv, axes@, i as int),
    {
        let mut j: usize = i + 1;
        let ghost row_start = views(p@);
        while j < n
            invariant
                n == vals@.len(),
                i < j <= n,
                vv == vals@.map_values(|x: crate::font::StatValue| x@),
                views(p@) == row_start + duplicate_row(vv, axes@, i as int, j as int),
            decreases n - j,
        {
            let same = same_keys(&vals[i].keys, &vals[j].keys);
            if same {
                let s = duplicate_status(&axes, &vals[i].keys);
                let ghost before = views(p@);
                p.push(s);
                assert(views(p@) =~= before.push(s@));
            }
            proof {
                assert(duplicate_row(vv, axes@, i as int, j + 1) == duplicate_row(vv, axes@, i as int, j as int) + only_if(
                    vv[i as int].keys == vv[j as int].keys,
                    duplicate_problem(axes@, vv[i as int].keys),
                ));
                assert(views(p@) =~= row_start + duplicate_row(vv, axes@, i as int, j + 1));
            }
            j = j + 1;
        }
        proof {
            assert(duplicate_row(vv, axes@, i as int, n as int) =~= duplicate_row(vv, axes@, i as int, j as int));
        }
    }
    Ok(return_result(p))
}


/// What the caret slope check reads from a font: hhea's caretSlopeRise and caretSlopeRun,
/// head's unitsPerEm and post's italicAngle (16.16 fixed-point bits).
#[derive(Clone, Copy, Debug, PartialEq, Eq, Structural)]
pub struct CaretReadings {
    pub rise: i16,
    pub run: i16,
    pub upem: u16,
    pub italic_angle: i32,
}

/// The readings of the caret slope check, or the error of the first table that cannot be read.
pub open spec fn caret_readings_outcome(font: Seq<u8>) -> Result<CaretReadings, ErrorView> {
    if !spec_is_font(font) {
        Err(not_a_font())
    } else {
        match spec_italic_angle(font) {
            None => Err(unreadable("post"@)),
            Some(angle) => match spec_units_per_em(font) {
                None => Err(unreadable("head"@)),
                Some(upem) => match spec_hhea(font) {
                    None => Err(unreadable("hhea"@)),
                    Some(h) => Ok(
                        CaretReadings {
                            rise: h.caret_slope_rise,
                            run: h.caret_slope_run,
                            upem,
                            italic_angle: angle,
                        },
                    ),
                },
            },
        }
    }
}

/// The content of a result of readings.
pub open spec fn readings_view(r: Result<CaretReadings, CheckError>) -> Result<CaretReadings, ErrorView> {
    match r {
        Ok(c) => Ok(c),
        Err(e) => Err(e@),
    }
}

/// Reads the values that the caret slope check compares.
pub fn caret_readings(t: &Testable) -> (r: Result<CaretReadings, CheckError>)
    ensures
        readings_view(r) == caret_readings_outcome(t.contents@),
{
    let font = t.contents.as_slice();
    if !is_font(font) {
        return Err(not_a_font_error());
    }
    let angle = match read_italic_angle(font) {
        Some(a) => a,
        None => return Err(unreadable_error("post")),
    };
    let upem = match read_units_per_em(font) {
        Some(u) => u,
        None => return Err(unreadable_error("head")),
    };
    match read_hhea(font) {
        Some(h) => Ok(CaretReadings { rise: h.caret_slope_rise, run: h.caret_slope_run, upem, italic_angle: angle }),
        None => Err(unreadable_error("hhea")),
    }
}

/// The caretSlopeRise that goes with an expected caretSlopeRun: 1 for upright, else unitsPerEm.
pub open spec fn expected_rise(upem: u16, expected_run: i16) -> u16 {
    if expected_run == 0 {
        1
    } else {
        upem
    }
}

/// The failure for a zero caretSlopeRise.
pub open spec fn zero_rise_message() -> Seq<char> {
    "caretSlopeRise must not be zero. Set it to 1 for upright fonts."@
}

/// The warning when the caret slope and the italic angle disagree.
pub open spec fn caret_mismatch_message(c: CaretReadings, expected_run: i16) -> Seq<char> {
    "hhea.caretSlopeRise and hhea.caretSlopeRun do not match with post.italicAngle.\n                Got caretSlopeRise: "@
        + signed_decimal(c.rise as int) + ", caretSlopeRun: "@ + signed_decimal(c.run as int)
        + ", expected caretSlopeRise: "@ + decimal(expected_rise(c.upem, expected_run) as nat)
        + ", caretSlopeRun: "@ + signed_decimal(expected_run as int)
}

/// What the caret slope check finds, given the readings, the caretSlopeRun that the italic
/// angle calls for, and whether the angle of the caret slope is more than 0.1 degree away from
/// the italic angle.
pub open spec fn caret_slope_verdict_spec(c: CaretReadings, expected_run: i16, mismatch: bool) -> Seq<StatusView> {
    if c.rise == 0 {
        seq![plain(StatusCode::Fail, "zero-rise"@, zero_rise_message())]
    } else if mismatch {
        seq![plain(StatusCode::Warn, "mismatch"@, caret_mismatch_message(c, expected_run))]
    } else {
        seq![passed()]
    }
}

/// Decides the caret slope check from its readings and the two results of the trigonometry on
/// them: the caretSlopeRun that the italic angle calls for, and whether the angles disagree.
pub fn caret_slope_verdict(c: &CaretReadings, expected_run: i16, mismatch: bool) -> (r: Vec<Status>)
    ensures
        views(r@) == caret_slope_verdict_spec(*c, expected_run, mismatch),
{
    if c.rise == 0 {
        return just_one(Status::new(StatusCode::Fail, "zero-rise",
            "caretSlopeRise must not be zero. Set it to 1 for upright fonts."));
    }
    if mismatch {
        let rise_wanted: u16 = if expected_run == 0 { 1 } else { c.upem };
        let mut m = String::from_str(
            "hhea.caretSlopeRise and hhea.caretSlopeRun do not match with post.italicAngle.\n                Got caretSlopeRise: ");
        push_signed(&mut m, c.rise as i64);
        push_str(&mut m, ", caretSlopeRun: ");
        push_signed(&mut m, c.run as i64);
        push_str(&mut m, ", expected caretSlopeRise: ");
        push_decimal(&mut m, rise_wanted as u64);
        push_str(&mut m, ", caretSlopeRun: ");
        push_signed(&mut m, expected_run as i64);
        return just_one(Status::with_message(StatusCode::Warn, "mismatch", m));
    }
    just_one(Status::pass())
}

} // verus!
