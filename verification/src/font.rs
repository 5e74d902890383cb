//! What the checks read from a font binary. The reading itself is done by fontations; each
//! reader below hands back plain values, and its result is named by a spec function of the
//! font's bytes.
use vstd::prelude::*;
use fontations::read::{FontRef, TableProvider};
use fontations::read::tables::stat::AxisValue;
use fontations::read::tables::os2::SelectionFlags;
use fontations::skrifa::MetadataProvider;
use fontations::types::{Fixed, NameId, Tag};
use fontations::write::from_obj::ToOwnedTable;
use fontations::write::FontBuilder;

verus! {

/// The fields of the OS/2 table that the checks read.
#[derive(Clone, Copy, Debug, PartialEq, Eq, Structural)]
pub struct Os2Info {
    pub version: u16,
    pub weight_class: u16,
    pub width_class: u16,
    pub fs_type: u16,
    /// The fsSelection flags, as fontations reads them (bits 10 to 15 dropped).
    pub fs_selection: u16,
    pub typo_ascender: i16,
    pub typo_descender: i16,
    pub typo_line_gap: i16,
    pub win_ascent: u16,
    pub win_descent: u16,
    /// The four bytes of achVendID, big-endian.
    pub vendor_id: u32,
}

/// The fields of the hhea table that the checks read.
#[derive(Clone, Copy, Debug, PartialEq, Eq, Structural)]
pub struct HheaInfo {
    pub ascender: i16,
    pub descender: i16,
    pub line_gap: i16,
    pub advance_width_max: u16,
    pub caret_slope_rise: i16,
    pub caret_slope_run: i16,
}

/// One axis of the fvar table; the values are 16.16 fixed-point numbers, as their bits.
#[derive(Clone, Copy, Debug, PartialEq, Eq, Structural)]
pub struct AxisInfo {
    /// The axis tag, big-endian.
    pub tag: u32,
    pub min: i32,
    pub default: i32,
    pub max: i32,
    pub flags: u16,
}

/// One named instance of the fvar table.
#[derive(Clone, Copy, Debug, PartialEq, Eq, Structural)]
pub struct InstanceInfo {
    pub subfamily_name_id: u16,
    pub postscript_name_id: Option<u16>,
}

/// One axis value of the STAT table: its flags, whether it is of format 4, and the
/// (axis index, value) pairs it names, values as the bits of 16.16 fixed-point numbers.
#[derive(Debug)]
pub struct StatValue {
    pub flags: u16,
    pub format4: bool,
    pub keys: Vec<(u16, i32)>,
}

/// The content of a STAT axis value.
pub struct StatValueView {
    pub flags: u16,
    pub format4: bool,
    pub keys: Seq<(u16, i32)>,
}

impl View for StatValue {
    type V = StatValueView;

    open spec fn view(&self) -> StatValueView {
        StatValueView { flags: self.flags, format4: self.format4, keys: self.keys@ }
    }
}

/// Whether fontations opens the bytes as a font.
pub uninterp spec fn spec_is_font(font: Seq<u8>) -> bool;

/// What fontations reads from the OS/2 table of a font.
pub uninterp spec fn spec_os2(font: Seq<u8>) -> Option<Os2Info>;

/// What fontations reads from the hhea table of a font.
pub uninterp spec fn spec_hhea(font: Seq<u8>) -> Option<HheaInfo>;

/// The advance widths fontations reads from the hmtx table of a font.
pub uninterp spec fn spec_advances(font: Seq<u8>) -> Option<Seq<u16>>;

/// The unitsPerEm of the head table of a font.
pub uninterp spec fn spec_units_per_em(font: Seq<u8>) -> Option<u16>;

/// The italicAngle of the post table of a font, as the bits of a 16.16 number.
pub uninterp spec fn spec_italic_angle(font: Seq<u8>) -> Option<i32>;

/// The axes of the fvar table of a font; none when it has no readable fvar table.
pub uninterp spec fn spec_axes(font: Seq<u8>) -> Seq<AxisInfo>;

/// The named instances of the fvar table of a font.
pub uninterp spec fn spec_instances(font: Seq<u8>) -> Seq<InstanceInfo>;

/// Whether fontations reads the STAT table of a font.
pub uninterp spec fn spec_stat_ok(font: Seq<u8>) -> bool;

/// The design axis tags of the STAT table; none when the table or its axes cannot be read.
pub uninterp spec fn spec_stat_axes(font: Seq<u8>) -> Option<Seq<u32>>;

/// The flags and format of each readable axis value of the STAT table of a font; none when the
/// table or its array of axis values cannot be read.
pub uninterp spec fn spec_stat_flags(font: Seq<u8>) -> Option<Seq<(u16, u16)>>;

/// The (axis index, value) pairs each readable axis value of the STAT table names, values as
/// the bits of 16.16 fixed-point numbers; none when the table or its array of axis values
/// cannot be read.
pub uninterp spec fn spec_stat_keys(font: Seq<u8>) -> Option<Seq<Seq<(u16, i32)>>>;

/// The readable axis values of the STAT table of a font; none when the table or its array of
/// axis values cannot be read.
pub open spec fn spec_stat_values(font: Seq<u8>) -> Option<Seq<StatValueView>> {
    match spec_stat_flags(font) {
        None => None,
        Some(f) => match spec_stat_keys(font) {
            None => None,
            Some(k) => Some(
                Seq::new(
                    f.len(),
                    |i: int| StatValueView { flags: f[i].0, format4: f[i].1 == 4, keys: k[i] },
                ),
            ),
        },
    }
}

/// The strings of the name records with the given name ID, in table order.
pub uninterp spec fn spec_name_strings(font: Seq<u8>, name_id: u16) -> Seq<Seq<char>>;

/// The English string with the given name ID, or the first one.
pub uninterp spec fn spec_english_name(font: Seq<u8>, name_id: u16) -> Option<Seq<char>>;

/// The mappings of a font's character map: each code point with its glyph ID, in the order
/// skrifa lists them.
pub uninterp spec fn spec_mappings(font: Seq<u8>) -> Seq<(u32, u32)>;

/// The code points a font maps.
pub open spec fn spec_codepoints(font: Seq<u8>) -> Seq<u32> {
    spec_mappings(font).map_values(|m: (u32, u32)| m.0)
}

/// The glyph IDs of the mappings of a font's character map.
pub open spec fn spec_mapped_glyphs(font: Seq<u8>) -> Seq<u32> {
    spec_mappings(font).map_values(|m: (u32, u32)| m.1)
}

/// The name skrifa gives each glyph, by glyph ID.
pub uninterp spec fn spec_glyph_names(font: Seq<u8>) -> Seq<Option<Seq<char>>>;

/// A name record: platform ID, encoding ID, language ID, name ID and string.
pub type NameRecordView = (u16, u16, u16, u16, Seq<char>);

/// An owned name record: platform ID, encoding ID, language ID, name ID and string.
pub type NameEntry = (u16, u16, u16, u16, String);

/// The content of owned name records.
pub open spec fn name_entry_views(v: Seq<NameEntry>) -> Seq<NameRecordView> {
    v.map_values(|e: NameEntry| (e.0, e.1, e.2, e.3, e.4@))
}

/// The records of the name table of a font, in table order; none when the table or one of its
/// strings cannot be read.
pub uninterp spec fn spec_name_records(font: Seq<u8>) -> Option<Seq<NameRecordView>>;

/// The version of an OS/2 table of the given version once write-fonts has copied and written
/// it: write-fonts derives the version from the fields present, so versions 2 and 3 become 4
/// and versions above 5 become 5.
pub open spec fn rewritten_os2_version(v: u16) -> u16 {
    if v >= 5 {
        5
    } else if v >= 2 {
        4
    } else {
        v
    }
}

/// The font rebuilt with a name table made of the given records.
pub uninterp spec fn spec_with_names(font: Seq<u8>, records: Seq<NameRecordView>) -> Option<Seq<u8>>;

/// The font rebuilt with a character map made of the given mappings.
pub uninterp spec fn spec_with_cmap(font: Seq<u8>, mappings: Seq<(u32, u32)>) -> Option<Seq<u8>>;

/// Whether a font has a table with the given tag.
pub uninterp spec fn spec_has_table(font: Seq<u8>, tag: u32) -> bool;

/// Whether a regular expression of Google Fonts' version format, `Version\s0*[1-9][0-9]*\.\d+`,
/// matches somewhere in a text.
pub uninterp spec fn spec_version_matches(s: Seq<char>) -> bool;

/// The display name the Google Fonts axis registry gives to an axis tag.
pub uninterp spec fn spec_axis_display_name(tag: Seq<char>) -> Option<Seq<char>>;

/// The font rebuilt with the fsSelection of its OS/2 table replaced.
pub uninterp spec fn spec_with_fs_selection(font: Seq<u8>, bits: u16) -> Option<Seq<u8>>;

/// How Rust writes the `f32` nearest to a 16.16 fixed-point number.
pub uninterp spec fn spec_f32_text(bits: i32) -> Seq<char>;

/// How font-types writes a 16.16 fixed-point number.
pub uninterp spec fn spec_fixed_text(bits: i32) -> Seq<char>;

/// The `u16` that Rust's `as` makes of the `f32` nearest to a 16.16 fixed-point number.
pub uninterp spec fn spec_fixed_as_u16(bits: i32) -> u16;

/// `FontRef::new` from read-fonts: whether the bytes open as a font.
#[verifier::external_body]
pub(crate) fn is_font(font: &[u8]) -> (r: bool)
    ensures
        r == spec_is_font(font@),
{
    FontRef::new(font).is_ok()
}

/// `TableProvider::os2` from read-fonts, with the fields the checks read. The result is named;
/// when there is one, the bytes open as a font.
#[verifier::external_body]
pub(crate) fn read_os2(font: &[u8]) -> (r: Option<Os2Info>)
    ensures
        r == spec_os2(font@),
        r is Some ==> spec_is_font(font@),
{
    let t = FontRef::new(font).ok()?.os2().ok()?;
    Some(Os2Info { version: t.version(), weight_class: t.us_weight_class(),
        width_class: t.us_width_class(), fs_type: t.fs_type(), fs_selection: t.fs_selection().bits(),
        typo_ascender: t.s_typo_ascender(), typo_descender: t.s_typo_descender(),
        typo_line_gap: t.s_typo_line_gap(), win_ascent: t.us_win_ascent(),
        win_descent: t.us_win_descent(), vendor_id: u32::from_be_bytes(t.ach_vend_id().to_be_bytes()) })
}

/// `TableProvider::hhea` from read-fonts, with the fields the checks read. The result is named.
#[verifier::external_body]
pub(crate) fn read_hhea(font: &[u8]) -> (r: Option<HheaInfo>)
    ensures
        r == spec_hhea(font@),
{
    let t = FontRef::new(font).ok()?.hhea().ok()?;
    Some(HheaInfo { ascender: t.ascender().to_i16(), descender: t.descender().to_i16(),
        line_gap: t.line_gap().to_i16(), advance_width_max: t.advance_width_max().to_u16(),
        caret_slope_rise: t.caret_slope_rise(), caret_slope_run: t.caret_slope_run() })
}

/// `TableProvider::hmtx` from read-fonts: the advance widths of its long metrics. The result is
/// named.
#[verifier::external_body]
pub(crate) fn read_advances(font: &[u8]) -> (r: Option<Vec<u16>>)
    ensures
        match r {
            Some(v) => spec_advances(font@) == Some(v@),
            None => spec_advances(font@) is None,
        },
{
    let t = FontRef::new(font).ok()?.hmtx().ok()?;
    Some(t.h_metrics().iter().map(|m| m.advance.get()).collect())
}

/// `TableProvider::head` from read-fonts: its unitsPerEm. The result is named.
#[verifier::external_body]
pub(crate) fn read_units_per_em(font: &[u8]) -> (r: Option<u16>)
    ensures
        r == spec_units_per_em(font@),
{
    Some(FontRef::new(font).ok()?.head().ok()?.units_per_em())
}

/// `TableProvider::post` from read-fonts: its italicAngle, as fixed-point bits. The result is
/// named.
#[verifier::external_body]
pub(crate) fn read_italic_angle(font: &[u8]) -> (r: Option<i32>)
    ensures
        r == spec_italic_angle(font@),
{
    Some(FontRef::new(font).ok()?.post().ok()?.italic_angle().to_bits())
}

/// `Fvar::axes` from read-fonts: the axis records, none when the font has no readable fvar
/// table. The result is named.
#[verifier::external_body]
pub(crate) fn read_axes(font: &[u8]) -> (r: Vec<AxisInfo>)
    ensures
        r@ == spec_axes(font@),
{
    let Some(fvar) = FontRef::new(font).ok().and_then(|f| f.fvar().ok()) else { return Vec::new() };
    fvar.axes().map(|axes| axes.iter().map(|a| AxisInfo { tag: u32::from_be_bytes(a.axis_tag().to_be_bytes()),
        min: a.min_value().to_bits(), default: a.default_value().to_bits(),
        max: a.max_value().to_bits(), flags: a.flags() }).collect()).unwrap_or_default()
}

/// `MetadataProvider::named_instances` from skrifa: the name IDs of each named instance. The
/// result is named.
#[verifier::external_body]
pub(crate) fn read_instances(font: &[u8]) -> (r: Vec<InstanceInfo>)
    ensures
        r@ == spec_instances(font@),
{
    let Ok(f) = FontRef::new(font) else { return Vec::new() };
    f.named_instances().iter().map(|i| InstanceInfo { subfamily_name_id: i.subfamily_name_id().to_u16(),
        postscript_name_id: i.postscript_name_id().map(|n| n.to_u16()) }).collect()
}

/// `TableProvider::stat` from read-fonts: whether the STAT table can be read. The result is
/// named.
#[verifier::external_body]
pub(crate) fn stat_ok(font: &[u8]) -> (r: bool)
    ensures
        r == spec_stat_ok(font@),
{
    FontRef::new(font).map(|f| f.stat().is_ok()).unwrap_or(false)
}

/// `Stat::design_axes` from read-fonts: the design axis tags. The result is named.
#[verifier::external_body]
pub(crate) fn read_stat_axes(font: &[u8]) -> (r: Option<Vec<u32>>)
    ensures
        match r {
            Some(v) => spec_stat_axes(font@) == Some(v@),
            None => spec_stat_axes(font@) is None,
        },
{
    let stat = FontRef::new(font).ok()?.stat().ok()?;
    Some(stat.design_axes().ok()?.iter().map(|a| u32::from_be_bytes(a.axis_tag().to_be_bytes())).collect())
}

/// `Stat::offset_to_axis_values` from read-fonts: the flags and format of each axis value that
/// can be read, none when the font has no readable STAT table or array of axis values. The
/// result is named.
#[verifier::external_body]
pub(crate) fn read_stat_flags(font: &[u8]) -> (r: Option<Vec<(u16, u16)>>)
    ensures
        match r {
            Some(v) => spec_stat_flags(font@) == Some(v@),
            None => spec_stat_flags(font@) is None,
        },
{
    let vs = FontRef::new(font).ok()?.stat().ok()?.offset_to_axis_values()?.ok()?;
    Some(vs.axis_values().iter().flatten().map(|v| (v.flags().bits(), v.format())).collect())
}

/// `Stat::offset_to_axis_values` from read-fonts: the (axis index, value) pairs of each axis
/// value that can be read (one pair for formats 1 to 3, the value of format 2 being its nominal
/// value; each axis value record for format 4), none when the font has no readable STAT table
/// or array of axis values. The result is named; it walks the same axis values as
/// `read_stat_flags`, so the two are none together and otherwise of one length.
#[verifier::external_body]
pub(crate) fn read_stat_keys(font: &[u8]) -> (r: Option<Vec<Vec<(u16, i32)>>>)
    ensures
        match r {
            Some(v) => {
                &&& spec_stat_keys(font@) == Some(v@.map_values(|k: Vec<(u16, i32)>| k@))
                &&& spec_stat_flags(font@) matches Some(f) && f.len() == v@.len()
            },
            None => spec_stat_keys(font@) is None && spec_stat_flags(font@) is None,
        },
{
    let vs = FontRef::new(font).ok()?.stat().ok()?.offset_to_axis_values()?.ok()?;
    Some(vs.axis_values().iter().flatten().map(|v| match &v {
        AxisValue::Format1(x) => vec![(x.axis_index(), x.value().to_bits())],
        AxisValue::Format2(x) => vec![(x.axis_index(), x.nominal_value().to_bits())],
        AxisValue::Format3(x) => vec![(x.axis_index(), x.value().to_bits())],
        AxisValue::Format4(x) => x.axis_values().iter().map(|a| (a.axis_index(), a.value().to_bits())).collect(),
    }).collect())
}

/// A copy of a list of (axis index, value) pairs.
fn copy_keys(k: &Vec<(u16, i32)>) -> (r: Vec<(u16, i32)>)
    ensures
        r@ == k@,
{
    let mut r: Vec<(u16, i32)> = Vec::new();
    for i in 0..k.len()
        invariant
            r@ == k@.take(i as int),
    {
        r.push(k[i]);
        assert(r@ =~= k@.take(i + 1));
    }
    assert(k@.take(k.len() as int) =~= k@);
    r
}

/// The readable axis values of the STAT table of a font, none when the table or its array of
/// axis values cannot be read.
pub fn read_stat_values(font: &[u8]) -> (r: Option<Vec<StatValue>>)
    ensures
        match r {
            Some(v) => spec_stat_values(font@) == Some(v@.map_values(|x: StatValue| x@)),
            None => spec_stat_values(font@) is None,
        },
{
    let flags = match read_stat_flags(font) {
        Some(f) => f,
        None => return None,
    };
    let keys = match read_stat_keys(font) {
        Some(k) => k,
        None => return None,
    };
    let ghost kv = keys@.map_values(|k: Vec<(u16, i32)>| k@);
    let mut out: Vec<StatValue> = Vec::new();
    for i in 0..flags.len()
        invariant
            flags@.len() == keys@.len(),
            kv == keys@.map_values(|k: Vec<(u16, i32)>| k@),
            out@.len() == i,
            forall|j: int| 0 <= j < i ==> (#[trigger] out@[j])@ == (StatValueView {
                flags: flags@[j].0, format4: flags@[j].1 == 4, keys: kv[j] }),
    {
        let (fl, fmt) = flags[i];
        out.push(StatValue { flags: fl, format4: fmt == 4, keys: copy_keys(&keys[i]) });
    }
    assert(out@.map_values(|x: StatValue| x@) =~= Seq::new(
        flags@.len(),
        |i: int| StatValueView { flags: flags@[i].0, format4: flags@[i].1 == 4, keys: kv[i] },
    ));
    Some(out)
}

/// `MetadataProvider::localized_strings` from skrifa: every string with the name ID, in table
/// order. The result is named.
#[verifier::external_body]
pub(crate) fn read_name_strings(font: &[u8], name_id: u16) -> (r: Vec<String>)
    ensures
        r@.map_values(|s: String| s@) == spec_name_strings(font@, name_id),
{
    let Ok(f) = FontRef::new(font) else { return Vec::new() };
    f.localized_strings(NameId::new(name_id)).map(|s| s.to_string()).collect()
}

/// `LocalizedStrings::english_or_first` from skrifa: the English string with the name ID, or
/// the first one. The result is named.
#[verifier::external_body]
pub(crate) fn read_english_name(font: &[u8], name_id: u16) -> (r: Option<String>)
    ensures
        match r {
            Some(s) => spec_english_name(font@, name_id) == Some(s@),
            None => spec_english_name(font@, name_id) is None,
        },
{
    let f = FontRef::new(font).ok()?;
    f.localized_strings(NameId::new(name_id)).english_or_first().map(|s| s.to_string())
}

/// `Charmap::mappings` from skrifa: each code point the font maps, with its glyph ID; none
/// when the bytes do not open as a font. The result is named.
#[verifier::external_body]
pub(crate) fn read_mappings(font: &[u8]) -> (r: Vec<(u32, u32)>)
    ensures
        r@ == spec_mappings(font@),
{
    let Ok(f) = FontRef::new(font) else { return Vec::new() };
    f.charmap().mappings().map(|(cp, g)| (cp, g.to_u32())).collect()
}

/// The code points a font maps.
pub fn read_codepoints(font: &[u8]) -> (r: Vec<u32>)
    ensures
        r@ == spec_codepoints(font@),
{
    let m = read_mappings(font);
    let mut r: Vec<u32> = Vec::new();
    for i in 0..m.len()
        invariant
            r@ == m@.take(i as int).map_values(|x: (u32, u32)| x.0),
    {
        r.push(m[i].0);
        assert(r@ =~= m@.take(i + 1).map_values(|x: (u32, u32)| x.0));
    }
    assert(m@.take(m.len() as int) =~= m@);
    r
}

/// `GlyphNames::get` from skrifa, for each glyph ID below `num_glyphs` (a `u32`). The result
/// is named.
#[verifier::external_body]
pub(crate) fn read_glyph_names(font: &[u8]) -> (r: Vec<Option<String>>)
    ensures
        r@.map_values(|o: Option<String>| crate::status::opt_text(o)) == spec_glyph_names(font@),
        r@.len() <= u32::MAX,
{
    let Ok(f) = FontRef::new(font) else { return Vec::new() };
    let names = fontations::skrifa::GlyphNames::new(&f);
    (0..names.num_glyphs()).map(|g| names.get(fontations::types::GlyphId::new(g)).map(|n| n.to_string())).collect()
}

/// The glyph IDs of the mappings of a font's character map.
pub fn read_mapped_glyphs(font: &[u8]) -> (r: Vec<u32>)
    ensures
        r@ == spec_mapped_glyphs(font@),
{
    let m = read_mappings(font);
    let mut r: Vec<u32> = Vec::new();
    for i in 0..m.len()
        invariant
            r@ == m@.take(i as int).map_values(|x: (u32, u32)| x.1),
    {
        r.push(m[i].1);
        assert(r@ =~= m@.take(i + 1).map_values(|x: (u32, u32)| x.1));
    }
    assert(m@.take(m.len() as int) =~= m@);
    r
}

/// `Name::name_record` from read-fonts: each record of the name table with its string; none
/// when the font has no readable name table or a string cannot be read. The result is named.
#[verifier::external_body]
pub(crate) fn read_name_records(font: &[u8]) -> (r: Option<Vec<NameEntry>>)
    ensures
        match r {
            Some(v) => spec_name_records(font@) == Some(name_entry_views(v@)),
            None => spec_name_records(font@) is None,
        },
{
    let name = FontRef::new(font).ok()?.name().ok()?;
    name.name_record().iter().map(|r| Some((r.platform_id(), r.encoding_id(), r.language_id(),
        r.name_id().to_u16(), r.string(name.string_data()).ok()?.chars().collect()))).collect()
}

/// `Name::new` from write-fonts with the given records, written with `FontBuilder` beside the
/// font's other tables; none when the bytes do not open as a font or the table cannot be
/// written (write-fonts refuses records out of order). The result is named.
#[verifier::external_body]
pub(crate) fn rebuild_with_names(font: &[u8], records: &Vec<NameEntry>) -> (r: Option<Vec<u8>>)
    ensures
        match r {
            Some(v) => spec_with_names(font@, name_entry_views(records@)) == Some(v@),
            None => spec_with_names(font@, name_entry_views(records@)) is None,
        },
{
    let f = FontRef::new(font).ok()?;
    let recs = records.iter().map(|(p, e, l, n, s)| fontations::write::tables::name::NameRecord::new(
        *p, *e, *l, NameId::new(*n), s.clone().into())).collect();
    let table = fontations::write::tables::name::Name::new(recs);
    Some(FontBuilder::new().add_table(&table).ok()?.copy_missing_tables(f).build())
}

/// `Cmap::from_mappings` from write-fonts with the given (code point, glyph ID) mappings,
/// written with `FontBuilder` beside the font's other tables; none when the bytes do not open
/// as a font, a code point is not a character, two mappings of one character conflict, or the
/// table cannot be written. The result is named.
#[verifier::external_body]
pub(crate) fn rebuild_with_cmap(font: &[u8], mappings: &Vec<(u32, u32)>) -> (r: Option<Vec<u8>>)
    ensures
        match r {
            Some(v) => spec_with_cmap(font@, mappings@) == Some(v@),
            None => spec_with_cmap(font@, mappings@) is None,
        },
{
    let f = FontRef::new(font).ok()?;
    let pairs: Option<Vec<_>> = mappings.iter().map(|(cp, g)| Some((char::from_u32(*cp)?,
        fontations::types::GlyphId::new(*g)))).collect();
    let cmap = fontations::write::tables::cmap::Cmap::from_mappings(pairs?).ok()?;
    Some(FontBuilder::new().add_table(&cmap).ok()?.copy_missing_tables(f).build())
}

/// `FontRef::table_data` from read-fonts: whether the font has a table with the tag. The result
/// is named.
#[verifier::external_body]
pub(crate) fn has_table(font: &[u8], tag: u32) -> (r: bool)
    ensures
        r == spec_has_table(font@, tag),
{
    FontRef::new(font).map(|f| f.table_data(Tag::from_u32(tag)).is_some()).unwrap_or(false)
}

/// The OS/2 table of the font, read, copied to write-fonts with its fsSelection replaced by
/// the flags among `bits` that fontations knows (bits 0 to 9), and written back with
/// `FontBuilder` beside the font's other tables. The result is named; when there is one, its
/// OS/2 table reads back as the old one with the new fsSelection and the version write-fonts
/// gives a table with the old one's fields.
#[verifier::external_body]
pub(crate) fn rebuild_with_fs_selection(font: &[u8], bits: u16) -> (r: Option<Vec<u8>>)
    ensures
        match r {
            Some(v) => {
                &&& spec_with_fs_selection(font@, bits) == Some(v@)
                &&& spec_is_font(v@)
                &&& spec_os2(font@) matches Some(old)
                &&& spec_os2(v@) == Some(Os2Info {
                    version: rewritten_os2_version(old.version),
                    fs_selection: (bits & 0x3ff) as u16,
                    ..old
                })
            },
            None => spec_with_fs_selection(font@, bits) is None,
        },
{
    let f = FontRef::new(font).ok()?;
    let mut os2: fontations::write::tables::os2::Os2 = f.os2().ok()?.to_owned_table();
    os2.fs_selection = SelectionFlags::from_bits_truncate(bits);
    Some(FontBuilder::new().add_table(&os2).ok()?.copy_missing_tables(f).build())
}

/// `Regex::is_match` from regex, with the pattern `Version\s0*[1-9][0-9]*\.\d+`. The result is
/// named.
#[verifier::external_body]
pub(crate) fn version_matches(s: &str) -> (r: bool)
    ensures
        r == spec_version_matches(s@),
{
    regex::Regex::new(r"Version\s0*[1-9][0-9]*\.\d+").map(|re| re.is_match(s)).unwrap_or(false)
}

/// `AxisRegistry::get` from google-fonts-axisregistry: the display name of a registered axis.
/// The result is named.
#[verifier::external_body]
pub(crate) fn axis_display_name(tag: &str) -> (r: Option<String>)
    ensures
        match r {
            Some(n) => spec_axis_display_name(tag@) == Some(n@),
            None => spec_axis_display_name(tag@) is None,
        },
{
    google_fonts_axisregistry::AxisRegistry::new().get(tag).and_then(|e| e.display_name.clone())
}

/// `Fixed::to_f32` from font-types, written with Rust's `Display` for `f32`. The result is
/// named.
#[verifier::external_body]
pub(crate) fn f32_text(bits: i32) -> (r: String)
    ensures
        r@ == spec_f32_text(bits),
{
    Fixed::from_bits(bits).to_f32().to_string()
}

/// `Fixed::to_f32` from font-types, converted to `u16` with Rust's `as` (toward zero, saturating).
/// The result is named.
#[verifier::external_body]
pub(crate) fn fixed_as_u16(bits: i32) -> (r: u16)
    ensures
        r == spec_fixed_as_u16(bits),
{
    Fixed::from_bits(bits).to_f32() as u16
}

/// `Display` for `Fixed` from font-types (the exact value, written as an `f64`). The result is
/// named.
#[verifier::external_body]
pub(crate) fn fixed_text(bits: i32) -> (r: String)
    ensures
        r@ == spec_fixed_text(bits),
{
    Fixed::from_bits(bits).to_string()
}

} // verus!

verus! {

/// The best family name of a font: the English typographic family name (ID 16), or else the
/// English family name (ID 1).
pub open spec fn best_family(font: Seq<u8>) -> Option<Seq<char>> {
    match spec_english_name(font, 16) {
        Some(n) => Some(n),
        None => spec_english_name(font, 1),
    }
}

/// The best subfamily name of a font: the English typographic subfamily name (ID 17), or
/// else the English subfamily name (ID 2).
pub open spec fn best_subfamily(font: Seq<u8>) -> Option<Seq<char>> {
    match spec_english_name(font, 17) {
        Some(n) => Some(n),
        None => spec_english_name(font, 2),
    }
}

/// The best family name of a font.
pub fn best_familyname(font: &[u8]) -> (r: Option<String>)
    ensures
        crate::status::opt_text(r) == best_family(font@),
{
    match read_english_name(font, 16) {
        Some(n) => Some(n),
        None => read_english_name(font, 1),
    }
}

/// The best subfamily name of a font.
pub fn best_subfamilyname(font: &[u8]) -> (r: Option<String>)
    ensures
        crate::status::opt_text(r) == best_subfamily(font@),
{
    match read_english_name(font, 17) {
        Some(n) => Some(n),
        None => read_english_name(font, 2),
    }
}

} // verus!

verus! {

/// The byte of a tag at position `i` (0 to 3), big-endian.
pub open spec fn tag_byte(tag: u32, i: int) -> u8 {
    if i == 0 {
        (tag / 0x100_0000) as u8
    } else if i == 1 {
        ((tag / 0x1_0000) % 0x100) as u8
    } else if i == 2 {
        ((tag / 0x100) % 0x100) as u8
    } else {
        (tag % 0x100) as u8
    }
}

/// How font-types writes one byte of a tag: printable ASCII as itself, anything else as
/// `{0xHH}`.
pub open spec fn byte_display(b: u8) -> Seq<char> {
    if 0x20 <= b <= 0x7e {
        seq![b as char]
    } else {
        "{0x"@ + crate::text::hex_padded(b as nat, 2) + "}"@
    }
}

/// How font-types writes a tag (its `Display`).
pub open spec fn tag_display(tag: u32) -> Seq<char> {
    byte_display(tag_byte(tag, 0)) + byte_display(tag_byte(tag, 1)) + byte_display(tag_byte(tag, 2))
        + byte_display(tag_byte(tag, 3))
}

fn push_tag_byte(s: &mut String, b: u8)
    ensures
        final(s)@ == old(s)@ + byte_display(b),
{
    if 0x20 <= b && b <= 0x7e {
        crate::text::push_char(s, b as char);
        assert(old(s)@.push(b as char) =~= old(s)@ + seq![b as char]);
    } else {
        crate::text::push_str(s, "{0x");
        crate::text::push_hex_padded(s, b as u64, 2);
        crate::text::push_str(s, "}");
    }
}

/// A tag written as font-types writes it.
pub fn tag_text(tag: u32) -> (r: String)
    ensures
        r@ == tag_display(tag),
{
    let mut s = String::new();
    push_tag_byte(&mut s, (tag / 0x100_0000) as u8);
    push_tag_byte(&mut s, ((tag / 0x1_0000) % 0x100) as u8);
    push_tag_byte(&mut s, ((tag / 0x100) % 0x100) as u8);
    push_tag_byte(&mut s, (tag % 0x100) as u8);
    assert(s@ =~= tag_display(tag));
    s
}

/// The tag of the fvar table.
pub const FVAR: u32 = 0x6676_6172;

/// Whether a font is variable: whether it has an fvar table.
pub open spec fn is_variable(font: Seq<u8>) -> bool {
    spec_has_table(font, FVAR)
}

/// Whether a font is variable.
pub fn is_variable_font(font: &[u8]) -> (r: bool)
    ensures
        r == is_variable(font@),
{
    has_table(font, FVAR)
}

} // verus!

verus! {

/// Whether a path names a font binary: it ends in ".ttf" or ".otf".
pub open spec fn is_font_path(path: Seq<char>) -> bool {
    crate::text::ends_with(path, ".ttf"@) || crate::text::ends_with(path, ".otf"@)
}

/// Whether a path names a font binary.
pub fn font_path(path: &str) -> (r: bool)
    ensures
        r == is_font_path(path@),
{
    crate::text::str_ends_with(path, ".ttf") || crate::text::str_ends_with(path, ".otf")
}

/// The positions of the files of a collection that are font binaries which open as fonts.
pub open spec fn font_positions(ts: Seq<crate::testable::Testable>) -> Seq<usize>
    decreases ts.len(),
{
    if ts.len() == 0 {
        Seq::empty()
    } else {
        let prev = font_positions(ts.drop_last());
        let t = ts.last();
        if is_font_path(t.filename@) && spec_is_font(t.contents@) {
            prev.push((ts.len() - 1) as usize)
        } else {
            prev
        }
    }
}

/// The positions of the files of a collection that are font binaries which open as fonts.
pub fn fonts_of(ts: &Vec<crate::testable::Testable>) -> (r: Vec<usize>)
    ensures
        r@ == font_positions(ts@),
        forall|k: int| 0 <= k < r@.len() ==> r@[k] < ts@.len(),
{
    let mut r: Vec<usize> = Vec::new();
    for i in 0..ts.len()
        invariant
            r@ == font_positions(ts@.take(i as int)),
            forall|k: int| 0 <= k < r@.len() ==> r@[k] < i,
    {
        assert(ts@.take(i + 1).drop_last() =~= ts@.take(i as int));
        if font_path(ts[i].filename.as_str()) && is_font(ts[i].contents.as_slice()) {
            r.push(i);
        }
    }
    assert(ts@.take(ts.len() as int) =~= ts@);
    r
}

} // verus!
