//! The checks of this library: what each one is called, what it applies to, and running one
//! on a file or a family to get a check result.
use vstd::prelude::*;
use crate::config::{Context, local_config_spec};
use crate::font::is_font_path;
use crate::outcome::{ErrorView, findings, findings_of, outcome};
use crate::result::{CheckResult, CheckResultView};
use crate::status::{CheckError, Status, StatusView, code_string};
use crate::testable::{Testable, TestableCollection, spec_file_name};
use crate::text::{ends_with, str_ends_with, str_eq};

verus! {

/// What a check is run on: one file, or the files of a family together.
pub enum TestableType<'a> {
    Single(&'a Testable),
    Collection(&'a TestableCollection),
}

/// The kinds of single files checks apply to.
#[derive(Clone, Copy, Debug, PartialEq, Eq, Structural)]
pub enum FileType {
    /// A font binary: a file ending in ".ttf" or ".otf".
    Font,
    /// A METADATA.pb file.
    Metadata,
    /// A description: a file ending in ".en_us.html".
    Description,
}

/// Whether a path has the given file type.
pub open spec fn has_file_type(ft: FileType, path: Seq<char>) -> bool {
    match ft {
        FileType::Font => is_font_path(path),
        FileType::Metadata => spec_file_name(path) == Some("METADATA.pb"@),
        FileType::Description => ends_with(path, ".en_us.html"@),
    }
}

/// Whether a path has the given file type.
pub fn matches_file_type(ft: FileType, path: &str) -> (r: bool)
    ensures
        r == has_file_type(ft, path@),
{
    match ft {
        FileType::Font => crate::font::font_path(path),
        FileType::Metadata => match crate::testable::file_name(path) {
            Some(n) => str_eq(n.as_str(), "METADATA.pb"),
            None => false,
        },
        FileType::Description => str_ends_with(path, ".en_us.html"),
    }
}

/// A check of this library.
#[derive(Clone, Copy, Debug, PartialEq, Eq, Structural)]
pub enum Check {
    Fstype,
    VerticalMetricsSane,
    MonotypeWeightclass,
    Widthclass,
    ValidDefault,
    ValidRange,
    Maxadvancewidth,
    VendorId,
    WeightClassFvar,
    FsselectionWws,
    Os2VersionFsselection,
    NoDuplicateAxisValues,
    UseTypoMetrics,
    NoObliqueBit,
    OpszNotElided,
    ParametricAxesHidden,
    FvarInstancePsNames,
    VersionFormat,
    NoVfInName,
    GoogleFontsWeightclass,
    NoFreeWord,
    License,
    ValidStrokeAndClassifications,
    ValidPrimaryScriptLanguage,
    EqualCodepointCoverage,
    SubsetsCorrect,
    AsciiFilenames,
    UniqueNames,
    GlyphCoverage,
}

/// The identifier of a check.
pub open spec fn check_id(c: Check) -> Seq<char> {
    match c {
        Check::Fstype => "monotype/fstype"@,
        Check::VerticalMetricsSane => "monotype/vertical_metrics_sane"@,
        Check::MonotypeWeightclass => "monotype/weightclass"@,
        Check::Widthclass => "monotype/widthclass"@,
        Check::ValidDefault => "opentype/fvar/valid_default"@,
        Check::ValidRange => "opentype/fvar/valid_range"@,
        Check::Maxadvancewidth => "opentype/maxadvancewidth"@,
        Check::VendorId => "opentype/vendor_id"@,
        Check::WeightClassFvar => "opentype/weight_class_fvar"@,
        Check::FsselectionWws => "opentype/fsselection_wws"@,
        Check::Os2VersionFsselection => "opentype/os2_version_fsselection"@,
        Check::NoDuplicateAxisValues => "opentype/STAT/no_duplicate_axis_values"@,
        Check::UseTypoMetrics => "googlefonts/use_typo_metrics"@,
        Check::NoObliqueBit => "googlefonts/no_oblique_bit"@,
        Check::OpszNotElided => "googlefonts/STAT/opsz_not_elided"@,
        Check::ParametricAxesHidden => "googlefonts/parametric_axes_hidden"@,
        Check::FvarInstancePsNames => "googlefonts/fvar_instance_ps_names"@,
        Check::VersionFormat => "googlefonts/name/version_format"@,
        Check::NoVfInName => "googlefonts/name/no_vf_in_name"@,
        Check::GoogleFontsWeightclass => "googlefonts/weightclass"@,
        Check::NoFreeWord => "googlefonts/description/no_free_word"@,
        Check::License => "googlefonts/metadata/license"@,
        Check::ValidStrokeAndClassifications => "googlefonts/metadata/valid_stroke_and_classifications"@,
        Check::ValidPrimaryScriptLanguage => "googlefonts/metadata/valid_primary_script_language"@,
        Check::EqualCodepointCoverage => "googlefonts/family/equal_codepoint_coverage"@,
        Check::SubsetsCorrect => "googlefonts/metadata/subsets_correct"@,
        Check::AsciiFilenames => "googlefonts/repo/ascii_filenames"@,
        Check::UniqueNames => "opentype/family/unique_names"@,
        Check::GlyphCoverage => "fontwerk/glyph_coverage"@,
    }
}

/// The title of a check.
pub open spec fn check_title(c: Check) -> Seq<char> {
    match c {
        Check::Fstype => "Checking embedding bit (OS/2 fsType)."@,
        Check::VerticalMetricsSane => "This check only determines the sanity of the values e.g. if the usWinDescent is a positive value, and hhea.ascent is negative."@,
        Check::MonotypeWeightclass => "Check the OS/2 usWeightClass is appropriate for the font's best SubFamily name."@,
        Check::Widthclass => "Check the OS/2 usWidthClass is appropriate for the font's best SubFamily name."@,
        Check::ValidDefault => "Validates that fvar axis default values are within the axis range."@,
        Check::ValidRange => "Validates that fvar axis maxValue is greater than minValue."@,
        Check::Maxadvancewidth => "MaxAdvanceWidth is consistent with values in the Hmtx and Hhea tables?"@,
        Check::VendorId => "Check OS/2 achVendID against configuration"@,
        Check::WeightClassFvar => "Checking if OS/2 usWeightClass matches fvar."@,
        Check::FsselectionWws => "Check that OS/2 fsSelection WWS bit is set correctly."@,
        Check::Os2VersionFsselection => "OS/2 version must be >= 4 if certain fsSelection bits are set."@,
        Check::NoDuplicateAxisValues => "Ensure STAT table has no duplicate axis value entries."@,
        Check::UseTypoMetrics => "OS/2.fsSelection bit 7 (USE_TYPO_METRICS) is set in all fonts."@,
        Check::NoObliqueBit => "Ensure the OS/2 OBLIQUE fsSelection bit is not set."@,
        Check::OpszNotElided => "Ensure 'opsz' axis values are not marked as elidable in STAT."@,
        Check::ParametricAxesHidden => "Ensure parametric axes have the hidden flag set."@,
        Check::FvarInstancePsNames => "Ensure fvar instances have PostScript names."@,
        Check::VersionFormat => "Version format is correct in 'name' table?"@,
        Check::NoVfInName => "Ensure family name does not contain 'VF'."@,
        Check::GoogleFontsWeightclass => "Check the OS/2 usWeightClass is appropriate for the font's best SubFamily name."@,
        Check::NoFreeWord => "Ensure font description does not use the word 'free'."@,
        Check::License => "METADATA.pb license is \"APACHE2\", \"UFL\" or \"OFL\"?"@,
        Check::ValidStrokeAndClassifications => "METADATA.pb stroke and classifications have valid values"@,
        Check::ValidPrimaryScriptLanguage => "METADATA.pb: Validate primary_script and primary_language values"@,
        Check::EqualCodepointCoverage => "Fonts have equal codepoint coverage?"@,
        Check::SubsetsCorrect => "METADATA.pb subsets are correct?"@,
        Check::AsciiFilenames => "Ensure all filenames are ASCII-only."@,
        Check::UniqueNames => "Verify that name id 3, 4, 6, 17, 22, 25 are unique within a font family."@,
        Check::GlyphCoverage => "Check Fontwerk Fonts minimum glyph coverage."@,
    }
}

/// The file type a check applies to, or none for a check of whole families.
pub open spec fn check_file_type(c: Check) -> Option<FileType> {
    match c {
        Check::NoFreeWord => Some(FileType::Description),
        Check::License | Check::ValidStrokeAndClassifications | Check::ValidPrimaryScriptLanguage => Some(
            FileType::Metadata,
        ),
        Check::EqualCodepointCoverage | Check::SubsetsCorrect | Check::AsciiFilenames
            | Check::UniqueNames => None,
        _ => Some(FileType::Font),
    }
}

/// Whether a check has a hotfix.
pub open spec fn check_has_hotfix(c: Check) -> bool {
    c == Check::Os2VersionFsselection || c == Check::UseTypoMetrics || c == Check::NoObliqueBit
}

/// The outcome of a check of single files on a file.
pub open spec fn file_outcome(c: Check, t: Testable, ctx: Context) -> Result<Seq<StatusView>, ErrorView> {
    let f = t.contents@;
    match c {
        Check::Fstype => crate::monotype::fstype_outcome(f, local_config_spec(ctx, "monotype/fstype"@)),
        Check::VerticalMetricsSane => crate::monotype::vertical_metrics_outcome(f),
        Check::MonotypeWeightclass => crate::monotype::weightclass_outcome(f),
        Check::Widthclass => crate::monotype::widthclass_outcome(f, local_config_spec(ctx, "monotype/widthclass"@)),
        Check::ValidDefault => crate::opentype::valid_default_outcome(f),
        Check::ValidRange => crate::opentype::valid_range_outcome(f),
        Check::Maxadvancewidth => crate::opentype::maxadvancewidth_outcome(f),
        Check::VendorId => crate::opentype::vendor_id_outcome(f, local_config_spec(ctx, "opentype/vendor_id"@)),
        Check::WeightClassFvar => crate::opentype::weight_class_fvar_outcome(f),
        Check::FsselectionWws => crate::opentype::fsselection_wws_outcome(f),
        Check::Os2VersionFsselection => crate::opentype::os2_version_fsselection_outcome(f),
        Check::NoDuplicateAxisValues => crate::opentype::no_duplicate_axis_values_outcome(f),
        Check::UseTypoMetrics => crate::gf_fonts::use_typo_metrics_outcome(f),
        Check::NoObliqueBit => crate::gf_fonts::no_oblique_bit_outcome(f),
        Check::OpszNotElided => crate::gf_fonts::opsz_not_elided_outcome(f),
        Check::ParametricAxesHidden => crate::gf_fonts::parametric_axes_hidden_outcome(f),
        Check::FvarInstancePsNames => crate::gf_fonts::fvar_instance_ps_names_outcome(f),
        Check::VersionFormat => crate::gf_fonts::version_format_outcome(f),
        Check::NoVfInName => crate::gf_fonts::no_vf_in_name_outcome(f),
        Check::GoogleFontsWeightclass => crate::gf_fonts::gf_weightclass_outcome(f),
        Check::NoFreeWord => Ok(
            seq![crate::googlefonts::no_free_word_status(crate::googlefonts::spec_utf8_lossy(f))],
        ),
        Check::License => crate::gf_metadata::license_outcome(f),
        Check::ValidStrokeAndClassifications => crate::gf_metadata::stroke_outcome(f),
        Check::ValidPrimaryScriptLanguage => crate::gf_metadata::script_language_outcome(f),
        Check::GlyphCoverage => crate::fontwerk::glyph_coverage_outcome(f),
        _ => Err(ErrorView::General("This check runs on families"@)),
    }
}

/// What a check of families gives on a family. The subsets check runs with the subsets table
/// of google-fonts-subsets and its `latin` subset.
pub open spec fn family_outcome(c: Check, ts: Seq<Testable>) -> Result<Seq<StatusView>, ErrorView> {
    match c {
        Check::EqualCodepointCoverage => crate::gf_fonts::equal_codepoint_coverage_outcome(ts),
        Check::SubsetsCorrect => crate::gf_metadata::subsets_correct_outcome(
            ts,
            crate::gf_metadata::gf_subsets_table(),
            crate::gf_metadata::gf_latin(),
        ),
        Check::AsciiFilenames => Ok(
            crate::status::result_of(crate::googlefonts::non_ascii_problems(
                ts.map_values(|t: Testable| t.filename@),
            )),
        ),
        Check::UniqueNames => crate::unique_names::unique_names_outcome(ts),
        _ => Err(ErrorView::General("This check runs on single files"@)),
    }
}

/// Runs a check of single files on a file.
pub fn run_on_file(c: Check, t: &Testable, ctx: &Context) -> (r: Result<Vec<Status>, CheckError>)
    ensures
        outcome(r) == file_outcome(c, *t, *ctx),
{
    match c {
        Check::Fstype => crate::monotype::fstype(t, ctx),
        Check::VerticalMetricsSane => crate::monotype::vertical_metrics_sane(t, ctx),
        Check::MonotypeWeightclass => crate::monotype::weightclass(t, ctx),
        Check::Widthclass => crate::monotype::widthclass(t, ctx),
        Check::ValidDefault => crate::opentype::valid_default(t, ctx),
        Check::ValidRange => crate::opentype::valid_range(t, ctx),
        Check::Maxadvancewidth => crate::opentype::maxadvancewidth(t, ctx),
        Check::VendorId => crate::opentype::vendor_id(t, ctx),
        Check::WeightClassFvar => crate::opentype::weight_class_fvar(t, ctx),
        Check::FsselectionWws => crate::opentype::fsselection_wws(t, ctx),
        Check::Os2VersionFsselection => crate::opentype::os2_version_fsselection(t, ctx),
        Check::NoDuplicateAxisValues => crate::opentype::no_duplicate_axis_values(t, ctx),
        Check::UseTypoMetrics => crate::gf_fonts::use_typo_metrics(t, ctx),
        Check::NoObliqueBit => crate::gf_fonts::no_oblique_bit(t, ctx),
        Check::OpszNotElided => crate::gf_fonts::opsz_not_elided(t, ctx),
        Check::ParametricAxesHidden => crate::gf_fonts::parametric_axes_hidden(t, ctx),
        Check::FvarInstancePsNames => crate::gf_fonts::fvar_instance_ps_names(t, ctx),
        Check::VersionFormat => crate::gf_fonts::version_format(t, ctx),
        Check::NoVfInName => crate::gf_fonts::no_vf_in_name(t, ctx),
        Check::GoogleFontsWeightclass => crate::gf_fonts::weightclass(t, ctx),
        Check::NoFreeWord => crate::googlefonts::no_free_word(t, ctx),
        Check::License => crate::gf_metadata::license(t, ctx),
        Check::ValidStrokeAndClassifications => crate::gf_metadata::valid_stroke_and_classifications(t, ctx),
        Check::ValidPrimaryScriptLanguage => crate::gf_metadata::valid_primary_script_language(t, ctx),
        Check::GlyphCoverage => crate::fontwerk::glyph_coverage(t, ctx),
        _ => Err(CheckError::General(code_string("This check runs on families"))),
    }
}

/// Runs a check of families on a family.
pub fn run_on_family(c: Check, fam: &TestableCollection, ctx: &Context) -> (r: Result<Vec<Status>, CheckError>)
    ensures
        outcome(r) == family_outcome(c, fam.testables@),
{
    match c {
        Check::EqualCodepointCoverage => crate::gf_fonts::equal_codepoint_coverage(fam, ctx),
        Check::SubsetsCorrect => crate::gf_metadata::subsets_correct(fam, ctx),
        Check::AsciiFilenames => crate::googlefonts::ascii_filenames(fam, ctx),
        Check::UniqueNames => crate::unique_names::unique_names(fam, ctx),
        _ => Err(CheckError::General(code_string("This check runs on single files"))),
    }
}

/// Whether a check applies to what it is given: a check of single files to a file of its type,
/// a check of families to a family.
pub open spec fn applies(c: Check, things: TestableType) -> bool {
    match things {
        TestableType::Single(t) => check_file_type(c) matches Some(ft) && has_file_type(ft, t.filename@),
        TestableType::Collection(_) => check_file_type(c) is None,
    }
}

/// The result a check gives with the given findings.
pub open spec fn result_view(
    c: Check,
    filename: Option<Seq<char>>,
    section: Option<Seq<char>>,
    subresults: Seq<StatusView>,
) -> CheckResultView {
    CheckResultView {
        check_id: check_id(c),
        check_name: check_title(c),
        filename,
        section,
        subresults,
        hotfix_result: None,
        sourcefix_result: None,
    }
}

impl Check {
    /// The identifier of the check.
    pub fn id(&self) -> (r: &'static str)
        ensures
            r@ == check_id(*self),
    {
        match self {
            Check::Fstype => "monotype/fstype",
            Check::VerticalMetricsSane => "monotype/vertical_metrics_sane",
            Check::MonotypeWeightclass => "monotype/weightclass",
            Check::Widthclass => "monotype/widthclass",
            Check::ValidDefault => "opentype/fvar/valid_default",
            Check::ValidRange => "opentype/fvar/valid_range",
            Check::Maxadvancewidth => "opentype/maxadvancewidth",
            Check::VendorId => "opentype/vendor_id",
            Check::WeightClassFvar => "opentype/weight_class_fvar",
            Check::FsselectionWws => "opentype/fsselection_wws",
            Check::Os2VersionFsselection => "opentype/os2_version_fsselection",
            Check::NoDuplicateAxisValues => "opentype/STAT/no_duplicate_axis_values",
            Check::UseTypoMetrics => "googlefonts/use_typo_metrics",
            Check::NoObliqueBit => "googlefonts/no_oblique_bit",
            Check::OpszNotElided => "googlefonts/STAT/opsz_not_elided",
            Check::ParametricAxesHidden => "googlefonts/parametric_axes_hidden",
            Check::FvarInstancePsNames => "googlefonts/fvar_instance_ps_names",
            Check::VersionFormat => "googlefonts/name/version_format",
            Check::NoVfInName => "googlefonts/name/no_vf_in_name",
            Check::GoogleFontsWeightclass => "googlefonts/weightclass",
            Check::NoFreeWord => "googlefonts/description/no_free_word",
            Check::License => "googlefonts/metadata/license",
            Check::ValidStrokeAndClassifications => "googlefonts/metadata/valid_stroke_and_classifications",
            Check::ValidPrimaryScriptLanguage => "googlefonts/metadata/valid_primary_script_language",
            Check::EqualCodepointCoverage => "googlefonts/family/equal_codepoint_coverage",
            Check::SubsetsCorrect => "googlefonts/metadata/subsets_correct",
            Check::AsciiFilenames => "googlefonts/repo/ascii_filenames",
            Check::UniqueNames => "opentype/family/unique_names",
            Check::GlyphCoverage => "fontwerk/glyph_coverage",
        }
    }

    /// The title of the check.
    pub fn title(&self) -> (r: &'static str)
        ensures
            r@ == check_title(*self),
    {
        match self {
            Check::Fstype => "Checking embedding bit (OS/2 fsType).",
            Check::VerticalMetricsSane => "This check only determines the sanity of the values e.g. if the usWinDescent is a positive value, and hhea.ascent is negative.",
            Check::MonotypeWeightclass => "Check the OS/2 usWeightClass is appropriate for the font's best SubFamily name.",
            Check::Widthclass => "Check the OS/2 usWidthClass is appropriate for the font's best SubFamily name.",
            Check::ValidDefault => "Validates that fvar axis default values are within the axis range.",
            Check::ValidRange => "Validates that fvar axis maxValue is greater than minValue.",
            Check::Maxadvancewidth => "MaxAdvanceWidth is consistent with values in the Hmtx and Hhea tables?",
            Check::VendorId => "Check OS/2 achVendID against configuration",
            Check::WeightClassFvar => "Checking if OS/2 usWeightClass matches fvar.",
            Check::FsselectionWws => "Check that OS/2 fsSelection WWS bit is set correctly.",
            Check::Os2VersionFsselection => "OS/2 version must be >= 4 if certain fsSelection bits are set.",
            Check::NoDuplicateAxisValues => "Ensure STAT table has no duplicate axis value entries.",
            Check::UseTypoMetrics => "OS/2.fsSelection bit 7 (USE_TYPO_METRICS) is set in all fonts.",
            Check::NoObliqueBit => "Ensure the OS/2 OBLIQUE fsSelection bit is not set.",
            Check::OpszNotElided => "Ensure 'opsz' axis values are not marked as elidable in STAT.",
            Check::ParametricAxesHidden => "Ensure parametric axes have the hidden flag set.",
            Check::FvarInstancePsNames => "Ensure fvar instances have PostScript names.",
            Check::VersionFormat => "Version format is correct in 'name' table?",
            Check::NoVfInName => "Ensure family name does not contain 'VF'.",
            Check::GoogleFontsWeightclass => "Check the OS/2 usWeightClass is appropriate for the font's best SubFamily name.",
            Check::NoFreeWord => "Ensure font description does not use the word 'free'.",
            Check::License => "METADATA.pb license is \"APACHE2\", \"UFL\" or \"OFL\"?",
            Check::ValidStrokeAndClassifications => "METADATA.pb stroke and classifications have valid values",
            Check::ValidPrimaryScriptLanguage => "METADATA.pb: Validate primary_script and primary_language values",
            Check::EqualCodepointCoverage => "Fonts have equal codepoint coverage?",
            Check::SubsetsCorrect => "METADATA.pb subsets are correct?",
            Check::AsciiFilenames => "Ensure all filenames are ASCII-only.",
            Check::UniqueNames => "Verify that name id 3, 4, 6, 17, 22, 25 are unique within a font family.",
            Check::GlyphCoverage => "Check Fontwerk Fonts minimum glyph coverage.",
        }
    }

    /// The file type the check applies to, or none for a check of whole families.
    pub fn file_type(&self) -> (r: Option<FileType>)
        ensures
            r == check_file_type(*self),
    {
        match self {
            Check::NoFreeWord => Some(FileType::Description),
            Check::License | Check::ValidStrokeAndClassifications | Check::ValidPrimaryScriptLanguage => Some(
                FileType::Metadata,
            ),
            Check::EqualCodepointCoverage | Check::SubsetsCorrect | Check::AsciiFilenames
            | Check::UniqueNames => None,
            _ => Some(FileType::Font),
        }
    }

    /// Whether the check has a hotfix.
    pub fn has_hotfix(&self) -> (r: bool)
        ensures
            r == check_has_hotfix(*self),
    {
        match self {
            Check::Os2VersionFsselection | Check::UseTypoMetrics | Check::NoObliqueBit => true,
            _ => false,
        }
    }

    /// Runs the check on a file or a family: none when it does not apply, otherwise its result,
    /// in which a skip or an error of the check becomes its single finding.
    pub fn run(&self, things: &TestableType, ctx: &Context, section: Option<&str>) -> (r: Option<CheckResult>)
        ensures
            r is Some <==> applies(*self, *things),
            r matches Some(res) ==> match *things {
                TestableType::Single(t) => res@ == result_view(*self, Some(t.filename@), section_text(section),
                    findings(file_outcome(*self, *t, *ctx))),
                TestableType::Collection(fam) => res@ == result_view(*self, None, section_text(section),
                    findings(family_outcome(*self, fam.testables@))),
            },
    {
        let sec = match section {
            Some(s) => Some(code_string(s)),
            None => None,
        };
        match things {
            TestableType::Single(t) => {
                let ft = match self.file_type() {
                    Some(ft) => ft,
                    None => return None,
                };
                if !matches_file_type(ft, t.filename.as_str()) {
                    return None;
                }
                let out = run_on_file(*self, t, ctx);
                Some(CheckResult {
                    check_id: code_string(self.id()),
                    check_name: code_string(self.title()),
                    filename: Some(t.filename.clone()),
                    section: sec,
                    subresults: findings_of(out),
                    hotfix_result: None,
                    sourcefix_result: None,
                })
            },
            TestableType::Collection(fam) => {
                if self.file_type().is_some() {
                    return None;
                }
                let out = run_on_family(*self, fam, ctx);
                let ghost o = outcome(out);
                Some(CheckResult {
                    check_id: code_string(self.id()),
                    check_name: code_string(self.title()),
                    filename: None,
                    section: sec,
                    subresults: findings_of(out),
                    hotfix_result: None,
                    sourcefix_result: None,
                })
            },
        }
    }
}

/// The text of an optional section name.
pub open spec fn section_text(s: Option<&str>) -> Option<Seq<char>> {
    match s {
        Some(t) => Some(t@),
        None => None,
    }
}

} // verus!
