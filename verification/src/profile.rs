//! Profiles: named, sectioned lists of checks with configuration defaults, and the registry
//! that holds the checks and profiles of a run.
use vstd::prelude::*;
use crate::check::Check;
use crate::config::{ConfigValue, ConfigView, config_view, entries_view, lemma_entries_view, lemma_values_view, values_view};
use crate::status::{StatusCode, code_string};
use crate::text::{contains, push_str, str_contains, str_eq};

verus! {

/// A change of the severity of a finding code within a check.
pub struct Override {
    /// The finding code.
    pub code: String,
    /// The severity it gets.
    pub status: StatusCode,
    /// Why.
    pub reason: String,
}

/// A profile: its sections (name and checks), the profiles it includes, the checks it
/// excludes, and configuration defaults and overrides by check identifier.
pub struct Profile {
    pub name: String,
    pub sections: Vec<(String, Vec<Check>)>,
    pub includes: Vec<String>,
    pub excludes: Vec<String>,
    pub defaults: Vec<(String, Vec<(String, ConfigValue)>)>,
    pub overrides: Vec<(String, Vec<Override>)>,
}

/// The outline of a profile: its name, sections, included profiles, excluded checks, and the
/// configuration defaults and overrides it gives, by check identifier.
pub struct ProfileView {
    pub name: Seq<char>,
    pub sections: Seq<(Seq<char>, Seq<Check>)>,
    pub includes: Seq<Seq<char>>,
    pub excludes: Seq<Seq<char>>,
    pub defaults: Seq<(Seq<char>, Seq<(Seq<char>, ConfigView)>)>,
    pub overrides: Seq<(Seq<char>, Seq<(Seq<char>, StatusCode, Seq<char>)>)>,
}

/// The configuration defaults of a profile, as mathematical values.
pub open spec fn defaults_view(d: Seq<(String, Vec<(String, ConfigValue)>)>) -> Seq<(Seq<char>, Seq<(Seq<char>, ConfigView)>)> {
    d.map_values(|e: (String, Vec<(String, ConfigValue)>)| (e.0@, entries_view(e.1@)))
}

/// An override as its finding code, severity and reason.
pub open spec fn override_view(o: Override) -> (Seq<char>, StatusCode, Seq<char>) {
    (o.code@, o.status, o.reason@)
}

/// The overrides of a profile, as mathematical values.
pub open spec fn overrides_view(o: Seq<(String, Vec<Override>)>) -> Seq<(Seq<char>, Seq<(Seq<char>, StatusCode, Seq<char>)>)> {
    o.map_values(|e: (String, Vec<Override>)| (e.0@, e.1@.map_values(|x: Override| override_view(x))))
}

/// The texts of a list of strings.
pub open spec fn texts_of(v: Seq<String>) -> Seq<Seq<char>> {
    v.map_values(|s: String| s@)
}

/// The sections of a profile, as texts and checks.
pub open spec fn section_views(v: Seq<(String, Vec<Check>)>) -> Seq<(Seq<char>, Seq<Check>)> {
    v.map_values(|e: (String, Vec<Check>)| (e.0@, e.1@))
}

impl View for Profile {
    type V = ProfileView;

    open spec fn view(&self) -> ProfileView {
        ProfileView {
            name: self.name@,
            sections: section_views(self.sections@),
            includes: texts_of(self.includes@),
            excludes: texts_of(self.excludes@),
            defaults: defaults_view(self.defaults@),
            overrides: overrides_view(self.overrides@),
        }
    }
}

/// The checks, profiles and file types known to a run. A file type is a name and the glob
/// pattern of the file names it covers.
pub struct Registry {
    pub checks: Vec<Check>,
    pub profiles: Vec<Profile>,
    pub filetypes: Vec<(String, String)>,
}

/// The file types of a registry, as texts.
pub open spec fn filetype_views(v: Seq<(String, String)>) -> Seq<(Seq<char>, Seq<char>)> {
    v.map_values(|e: (String, String)| (e.0@, e.1@))
}

/// The file types after registering one: its pattern replaces that of the first file type of
/// the same name, or it is added at the end.
pub open spec fn with_filetype(ft: Seq<(Seq<char>, Seq<char>)>, name: Seq<char>, pattern: Seq<char>) -> Seq<(Seq<char>, Seq<char>)>
    decreases ft.len(),
{
    if ft.len() == 0 {
        seq![(name, pattern)]
    } else if ft[0].0 == name {
        ft.update(0, (name, pattern))
    } else {
        seq![ft[0]] + with_filetype(ft.drop_first(), name, pattern)
    }
}

proof fn lemma_with_filetype_at(ft: Seq<(Seq<char>, Seq<char>)>, name: Seq<char>, pattern: Seq<char>, i: int)
    requires
        0 <= i <= ft.len(),
        forall|k: int| 0 <= k < i ==> (#[trigger] ft[k]).0 != name,
        i < ft.len() ==> ft[i].0 == name,
    ensures
        with_filetype(ft, name, pattern) == if i < ft.len() {
            ft.update(i, (name, pattern))
        } else {
            ft.push((name, pattern))
        },
    decreases ft.len(),
{
    if ft.len() == 0 {
        assert(seq![(name, pattern)] =~= ft.push((name, pattern)));
    } else if i == 0 {
    } else {
        let rest = ft.drop_first();
        assert forall|k: int| 0 <= k < i - 1 implies (#[trigger] rest[k]).0 != name by {
            assert(rest[k] == ft[k + 1]);
        }
        lemma_with_filetype_at(rest, name, pattern, i - 1);
        if i < ft.len() {
            assert(seq![ft[0]] + rest.update(i - 1, (name, pattern)) =~= ft.update(i, (name, pattern)));
        } else {
            assert(seq![ft[0]] + rest.push((name, pattern)) =~= ft.push((name, pattern)));
        }
    }
}

/// Whether a profile of the name is registered.
pub open spec fn has_profile(profiles: Seq<Profile>, name: Seq<char>) -> bool {
    exists|k: int| 0 <= k < profiles.len() && (#[trigger] profiles[k]).name@ == name
}

impl Registry {
    /// A registry with no checks, profiles or file types.
    pub fn new() -> (r: Registry)
        ensures
            r.checks@.len() == 0,
            r.profiles@.len() == 0,
            r.filetypes@.len() == 0,
    {
        Registry { checks: Vec::new(), profiles: Vec::new(), filetypes: Vec::new() }
    }

    /// Registers a file type by name: its pattern replaces that of a file type of the same
    /// name, or it is added.
    pub fn register_filetype(&mut self, name: &str, pattern: &str)
        ensures
            filetype_views(final(self).filetypes@) == with_filetype(filetype_views(old(self).filetypes@), name@, pattern@),
            final(self).checks == old(self).checks,
            final(self).profiles == old(self).profiles,
    {
        let ghost ft = filetype_views(self.filetypes@);
        let mut i: usize = 0;
        while i < self.filetypes.len()
            invariant
                ft == filetype_views(self.filetypes@),
                ft == filetype_views(old(self).filetypes@),
                self.checks == old(self).checks,
                self.profiles == old(self).profiles,
                self.filetypes == old(self).filetypes,
                i <= self.filetypes@.len(),
                forall|k: int| 0 <= k < i ==> (#[trigger] ft[k]).0 != name@,
            decreases self.filetypes.len() - i,
        {
            assert(ft[i as int] == (self.filetypes@[i as int].0@, self.filetypes@[i as int].1@));
            if str_eq(self.filetypes[i].0.as_str(), name) {
                proof {
                    lemma_with_filetype_at(ft, name@, pattern@, i as int);
                }
                self.filetypes.set(i, (code_string(name), code_string(pattern)));
                assert(filetype_views(self.filetypes@) =~= ft.update(i as int, (name@, pattern@)));
                return;
            }
            i = i + 1;
        }
        proof {
            lemma_with_filetype_at(ft, name@, pattern@, i as int);
        }
        self.filetypes.push((code_string(name), code_string(pattern)));
        assert(filetype_views(self.filetypes@) =~= ft.push((name@, pattern@)));
    }

    /// Registers a check, unless it is registered already.
    pub fn register_check(&mut self, c: Check)
        ensures
            old(self).checks@.contains(c) ==> final(self).checks@ == old(self).checks@,
            !old(self).checks@.contains(c) ==> final(self).checks@ == old(self).checks@.push(c),
            final(self).profiles == old(self).profiles,
            final(self).filetypes == old(self).filetypes,
    {
        let mut i: usize = 0;
        while i < self.checks.len()
            invariant
                i <= self.checks@.len(),
                forall|k: int| 0 <= k < i ==> self.checks@[k] != c,
            decreases self.checks.len() - i,
        {
            if self.checks[i] == c {
                assert(self.checks@[i as int] == c);
                return;
            }
            i = i + 1;
        }
        self.checks.push(c);
    }

    /// Whether a profile of the name is registered.
    pub fn profile_registered(&self, name: &str) -> (r: bool)
        ensures
            r == has_profile(self.profiles@, name@),
    {
        let mut i: usize = 0;
        while i < self.profiles.len()
            invariant
                i <= self.profiles@.len(),
                forall|k: int| 0 <= k < i ==> (#[trigger] self.profiles@[k]).name@ != name@,
            decreases self.profiles.len() - i,
        {
            if str_eq(self.profiles[i].name.as_str(), name) {
                return true;
            }
            i = i + 1;
        }
        false
    }
}

/// A profile under construction.
pub struct ProfileBuilder {
    pub sections: Vec<(String, Vec<Check>)>,
    pub includes: Vec<String>,
    pub excludes: Vec<String>,
    pub defaults: Vec<(String, Vec<(String, ConfigValue)>)>,
    pub overrides: Vec<(String, Vec<Override>)>,
}

/// The sections after adding a check: to the last section, or to a new unnamed one when there
/// is none.
pub open spec fn with_check(s: Seq<(Seq<char>, Seq<Check>)>, c: Check) -> Seq<(Seq<char>, Seq<Check>)> {
    if s.len() == 0 {
        seq![(Seq::empty(), seq![c])]
    } else {
        s.update(s.len() - 1, (s.last().0, s.last().1.push(c)))
    }
}

impl ProfileBuilder {
    /// An empty builder.
    pub fn new() -> (b: ProfileBuilder)
        ensures
            b.sections@.len() == 0,
            b.includes@.len() == 0,
            b.excludes@.len() == 0,
            b.defaults@.len() == 0,
            b.overrides@.len() == 0,
    {
        ProfileBuilder {
            sections: Vec::new(),
            includes: Vec::new(),
            excludes: Vec::new(),
            defaults: Vec::new(),
            overrides: Vec::new(),
        }
    }

    /// Starts a new section.
    pub fn add_section(self, name: &str) -> (b: ProfileBuilder)
        ensures
            section_views(b.sections@) == section_views(self.sections@).push((name@, Seq::<Check>::empty())),
            b.includes == self.includes,
            b.excludes == self.excludes,
            b.defaults == self.defaults,
            b.overrides == self.overrides,
    {
        let mut b = self;
        let ghost before = section_views(b.sections@);
        let v: Vec<Check> = Vec::new();
        let entry = (code_string(name), v);
        b.sections.push(entry);
        assert(section_views(b.sections@) =~= before.push((name@, Seq::<Check>::empty())));
        b
    }

    /// Adds a check to the current section.
    pub fn add_and_register_check(self, c: Check) -> (b: ProfileBuilder)
        ensures
            section_views(b.sections@) == with_check(section_views(self.sections@), c),
            b.includes == self.includes,
            b.excludes == self.excludes,
            b.defaults == self.defaults,
            b.overrides == self.overrides,
    {
        let mut b = self;
        let ghost before = section_views(b.sections@);
        let n = b.sections.len();
        if n == 0 {
            let v: Vec<Check> = vec![c];
            let entry = (String::new(), v);
            assert(entry.0@ =~= Seq::<char>::empty() && entry.1@ =~= seq![c]);
            b.sections.push(entry);
            assert(b.sections@.len() == 1 && b.sections@[0] == entry);
            assert(section_views(b.sections@) =~= with_check(before, c));
        } else {
            let name = b.sections[n - 1].0.clone();
            let mut v = b.sections[n - 1].1.clone();
            v.push(c);
            b.sections.set(n - 1, (name, v));
            assert(section_views(b.sections@) =~= with_check(before, c));
        }
        b
    }

    /// Includes the checks of another profile.
    pub fn include_profile(self, name: &str) -> (b: ProfileBuilder)
        ensures
            texts_of(b.includes@) == texts_of(self.includes@).push(name@),
            b.sections == self.sections,
            b.excludes == self.excludes,
            b.defaults == self.defaults,
            b.overrides == self.overrides,
    {
        let mut b = self;
        let ghost before = texts_of(b.includes@);
        b.includes.push(code_string(name));
        assert(texts_of(b.includes@) =~= before.push(name@));
        b
    }

    /// Leaves out a check of an included profile.
    pub fn exclude_check(self, id: &str) -> (b: ProfileBuilder)
        ensures
            texts_of(b.excludes@) == texts_of(self.excludes@).push(id@),
            b.sections == self.sections,
            b.includes == self.includes,
            b.defaults == self.defaults,
            b.overrides == self.overrides,
    {
        let mut b = self;
        let ghost before = texts_of(b.excludes@);
        b.excludes.push(code_string(id));
        assert(texts_of(b.excludes@) =~= before.push(id@));
        b
    }

    /// Gives configuration defaults for a check.
    pub fn with_configuration_defaults(self, id: &str, values: Vec<(String, ConfigValue)>) -> (b: ProfileBuilder)
        ensures
            b.defaults@.len() == self.defaults@.len() + 1,
            forall|k: int| 0 <= k < self.defaults@.len() ==> b.defaults@[k] == self.defaults@[k],
            b.defaults@.last().0@ == id@,
            b.defaults@.last().1 == values,
            b.sections == self.sections,
            b.includes == self.includes,
            b.excludes == self.excludes,
            b.overrides == self.overrides,
    {
        let mut b = self;
        b.defaults.push((code_string(id), values));
        b
    }

    /// Changes severities of finding codes of a check.
    pub fn with_overrides(self, id: &str, overrides: Vec<Override>) -> (b: ProfileBuilder)
        ensures
            b.overrides@.len() == self.overrides@.len() + 1,
            forall|k: int| 0 <= k < self.overrides@.len() ==> b.overrides@[k] == self.overrides@[k],
            b.overrides@.last().0@ == id@,
            b.overrides@.last().1 == overrides,
            b.sections == self.sections,
            b.includes == self.includes,
            b.excludes == self.excludes,
            b.defaults == self.defaults,
    {
        let mut b = self;
        b.overrides.push((code_string(id), overrides));
        b
    }

    /// Registers the profile under the name, with its checks; an error when a profile of that
    /// name is registered already.
    pub fn build(self, name: &str, cr: &mut Registry) -> (r: Result<(), String>)
        ensures
            final(cr).filetypes == old(cr).filetypes,
            has_profile(old(cr).profiles@, name@) ==> {
                &&& r is Err
                &&& final(cr).profiles == old(cr).profiles
                &&& final(cr).checks == old(cr).checks
            },
            !has_profile(old(cr).profiles@, name@) ==> {
                &&& r is Ok
                &&& final(cr).profiles@.len() == old(cr).profiles@.len() + 1
                &&& forall|k: int| 0 <= k < old(cr).profiles@.len() ==> final(cr).profiles@[k] == old(cr).profiles@[k]
                &&& final(cr).profiles@.last()@ == ProfileView {
                    name: name@,
                    sections: section_views(self.sections@),
                    includes: texts_of(self.includes@),
                    excludes: texts_of(self.excludes@),
                    defaults: defaults_view(self.defaults@),
                    overrides: overrides_view(self.overrides@),
                }
                &&& forall|c: Check| #[trigger] final(cr).checks@.contains(c) <==> (old(cr).checks@.contains(c)
                    || exists|k: int| 0 <= k < self.sections@.len() && (#[trigger] section_views(self.sections@)[k]).1.contains(c))
            },
    {
        broadcast use vstd::seq_lib::group_seq_properties;
        if cr.profile_registered(name) {
            let mut m = String::from_str("Profile ");
            push_str(&mut m, name);
            push_str(&mut m, " is registered already");
            return Err(m);
        }
        let ghost old_checks = cr.checks@;
        for k in 0..self.sections.len()
            invariant
                cr.profiles == old(cr).profiles,
                cr.filetypes == old(cr).filetypes,
                forall|c: Check| #[trigger] cr.checks@.contains(c) <==> (old_checks.contains(c)
                    || exists|j: int| 0 <= j < k && (#[trigger] self.sections@[j]).1@.contains(c)),
        {
            let checks = &self.sections[k].1;
            for i in 0..checks.len()
                invariant
                    k < self.sections@.len(),
                    cr.profiles == old(cr).profiles,
                    cr.filetypes == old(cr).filetypes,
                    checks@ == self.sections@[k as int].1@,
                    forall|c: Check| #[trigger] cr.checks@.contains(c) <==> (old_checks.contains(c)
                        || (exists|j: int| 0 <= j < k && (#[trigger] self.sections@[j]).1@.contains(c))
                        || checks@.take(i as int).contains(c)),
            {
                let ghost before = cr.checks@;
                assert forall|c: Check| #[trigger] before.contains(c) <==> (old_checks.contains(c)
                    || (exists|j: int| 0 <= j < k && (#[trigger] self.sections@[j]).1@.contains(c))
                    || checks@.take(i as int).contains(c)) by {
                    assert(before.contains(c) == cr.checks@.contains(c));
                }
                cr.register_check(checks[i]);
                assert(checks@.take(i + 1) =~= checks@.take(i as int).push(checks@[i as int]));
                assert forall|c: Check| #[trigger] cr.checks@.contains(c) <==> (before.contains(c) || c == checks@[i as int]) by {
                    if before.contains(checks@[i as int]) {
                    } else {
                        assert(cr.checks@ == before.push(checks@[i as int]));
                        if before.contains(c) {
                            let q = choose|q: int| 0 <= q < before.len() && before[q] == c;
                            assert(cr.checks@[q] == c);
                        }
                        if c == checks@[i as int] {
                            assert(cr.checks@[before.len() as int] == c);
                        }
                    }
                }
                assert forall|c: Check| #[trigger] cr.checks@.contains(c) <==> (old_checks.contains(c)
                    || (exists|j: int| 0 <= j < k && (#[trigger] self.sections@[j]).1@.contains(c))
                    || checks@.take(i + 1).contains(c)) by {
                    let t0 = checks@.take(i as int);
                    let x = checks@[i as int];
                    assert(checks@.take(i + 1) == t0.push(x));
                    if t0.push(x).contains(c) {
                        let q = choose|q: int| 0 <= q < t0.push(x).len() && t0.push(x)[q] == c;
                        if q < t0.len() {
                            assert(t0[q] == c);
                        }
                    }
                    if t0.contains(c) {
                        let q = choose|q: int| 0 <= q < t0.len() && t0[q] == c;
                        assert(t0.push(x)[q] == c);
                    }
                    if c == x {
                        assert(t0.push(x)[t0.len() as int] == c);
                    }
                    assert(before.contains(c) <==> (old_checks.contains(c)
                        || (exists|j: int| 0 <= j < k && (#[trigger] self.sections@[j]).1@.contains(c))
                        || checks@.take(i as int).contains(c)));
                }
            }
            assert(checks@.take(checks.len() as int) =~= checks@);
            assert forall|c: Check| #[trigger] cr.checks@.contains(c) <==> (old_checks.contains(c)
                || exists|j: int| 0 <= j < k + 1 && (#[trigger] self.sections@[j]).1@.contains(c)) by {
                if (exists|j: int| 0 <= j < k + 1 && (#[trigger] self.sections@[j]).1@.contains(c)) {
                    let j = choose|j: int| 0 <= j < k + 1 && (#[trigger] self.sections@[j]).1@.contains(c);
                    if j == k {
                        assert(checks@.contains(c));
                    }
                }
            }
        }
        assert forall|c: Check| #[trigger] cr.checks@.contains(c) <==> (old_checks.contains(c)
            || exists|k: int| 0 <= k < self.sections@.len() && (#[trigger] section_views(self.sections@)[k]).1.contains(c)) by {
            if exists|k: int| 0 <= k < self.sections@.len() && (#[trigger] self.sections@[k]).1@.contains(c) {
                let k = choose|k: int| 0 <= k < self.sections@.len() && (#[trigger] self.sections@[k]).1@.contains(c);
                assert(section_views(self.sections@)[k].1 == self.sections@[k].1@);
            }
            if exists|k: int| 0 <= k < self.sections@.len() && (#[trigger] section_views(self.sections@)[k]).1.contains(c) {
                let k = choose|k: int| 0 <= k < self.sections@.len() && (#[trigger] section_views(self.sections@)[k]).1.contains(c);
                assert(section_views(self.sections@)[k].1 == self.sections@[k].1@);
            }
        }
        let ProfileBuilder { sections, includes, excludes, defaults, overrides } = self;
        cr.profiles.push(Profile { name: code_string(name), sections, includes, excludes, defaults, overrides });
        Ok(())
    }
}

} // verus!

verus! {

/// The configuration a run gives its checks: the user's entries first, then, for each check the
/// profile gives defaults for, an object of those defaults.
pub open spec fn run_configuration_spec(
    user: Seq<(Seq<char>, ConfigView)>,
    defaults: Seq<(Seq<char>, Seq<(Seq<char>, ConfigView)>)>,
) -> Seq<(Seq<char>, ConfigView)> {
    user + defaults.map_values(|d: (Seq<char>, Seq<(Seq<char>, ConfigView)>)| (d.0, ConfigView::Object(d.1)))
}

/// Copies named configuration values.
fn copy_entries(es: &Vec<(String, ConfigValue)>) -> (r: Vec<(String, ConfigValue)>)
    ensures
        entries_view(r@) == entries_view(es@),
{
    let mut out: Vec<(String, ConfigValue)> = Vec::new();
    for i in 0..es.len()
        invariant
            entries_view(out@) == entries_view(es@.take(i as int)),
    {
        let c = es[i].1.copy();
        let ghost before = out@;
        out.push((es[i].0.clone(), c));
        assert(out@.drop_last() == before);
        assert(es@.take(i + 1).drop_last() =~= es@.take(i as int));
    }
    assert(es@.take(es.len() as int) =~= es@);
    out
}

/// The configuration a run gives its checks: the user's entries, then the profile's defaults,
/// each check's defaults as one object.
pub fn run_configuration(user: Vec<(String, ConfigValue)>, p: &Profile) -> (r: Vec<(String, ConfigValue)>)
    ensures
        entries_view(r@) == run_configuration_spec(entries_view(user@), p@.defaults),
{
    let mut out = user;
    let ghost start = entries_view(out@);
    let ghost dv = defaults_view(p.defaults@);
    let ghost f = |d: (Seq<char>, Seq<(Seq<char>, ConfigView)>)| (d.0, ConfigView::Object(d.1));
    for i in 0..p.defaults.len()
        invariant
            dv == defaults_view(p.defaults@),
            f == (|d: (Seq<char>, Seq<(Seq<char>, ConfigView)>)| (d.0, ConfigView::Object(d.1))),
            entries_view(out@) == start + dv.take(i as int).map_values(f),
    {
        let entries = copy_entries(&p.defaults[i].1);
        let name = p.defaults[i].0.clone();
        let ghost before = out@;
        let item = (name, ConfigValue::Object(entries));
        assert(config_view(item.1) == ConfigView::Object(entries_view(p.defaults@[i as int].1@)));
        out.push(item);
        assert(out@.drop_last() == before);
        assert(entries_view(out@) == entries_view(before).push((item.0@, config_view(item.1))));
        assert(dv[i as int] == (p.defaults@[i as int].0@, entries_view(p.defaults@[i as int].1@)));
        assert(dv.take(i + 1).map_values(f) =~= dv.take(i as int).map_values(f).push(f(dv[i as int])));
        assert(entries_view(out@) =~= start + dv.take(i + 1).map_values(f));
    }
    assert(dv.take(p.defaults.len() as int) =~= dv);
    out
}

/// The sections of the Google Fonts profile, with the checks of this library in each.
pub open spec fn googlefonts_sections() -> Seq<(Seq<char>, Seq<Check>)> {
    seq![
        ("Metadata Checks"@, seq![Check::ValidPrimaryScriptLanguage, Check::SubsetsCorrect]),
        ("Glyphset Checks"@, Seq::empty()),
        ("Description Checks"@, seq![Check::NoFreeWord]),
        ("Family Checks"@, seq![Check::EqualCodepointCoverage]),
        ("Name table checks"@, Seq::empty()),
        ("Licensing Checks"@, seq![Check::License]),
        ("Repository Checks"@, seq![Check::AsciiFilenames]),
        ("Shaping Checks"@, Seq::empty()),
        ("Outline Checks"@, Seq::empty()),
        ("Font File Checks"@, seq![Check::VersionFormat, Check::ParametricAxesHidden, Check::OpszNotElided,
            Check::UseTypoMetrics, Check::GoogleFontsWeightclass]),
    ]
}

/// The outline of the Google Fonts profile.
pub open spec fn googlefonts_profile() -> ProfileView {
    ProfileView {
        name: "googlefonts"@,
        sections: googlefonts_sections(),
        includes: seq!["universal"@],
        excludes: seq!["adobefonts/STAT_strings"@, "cmap/format_12"@, "empty_letters"@,
            "inconsistencies_between_fvar_STAT"@, "no_mac_entries"@, "typographic_family_name"@, "vtt_volt_data"@],
        defaults: seq![
            ("file_size"@, seq![
                ("WARN_SIZE"@, ConfigView::UInt(1048576)),
                ("FAIL_SIZE"@, ConfigView::UInt(9437184)),
                ("FATAL_SIZE"@, ConfigView::UInt(10485760)),
            ]),
            ("googlefonts/family/file_size"@, seq![("FATAL_SIZE"@, ConfigView::UInt(26214400))]),
        ],
        overrides: Seq::empty(),
    }
}

/// The file types after the Google Fonts profile registers its own: METADATA.pb files,
/// descriptions, images and licence files.
pub open spec fn googlefonts_filetypes(ft: Seq<(Seq<char>, Seq<char>)>) -> Seq<(Seq<char>, Seq<char>)> {
    with_filetype(
        with_filetype(
            with_filetype(with_filetype(ft, "MDPB"@, "METADATA.pb"@), "DESC"@, "*.en_us.html"@),
            "IMAGE"@,
            "*.{png,jpg,jpeg,jxl,gif,svg}"@,
        ),
        "LICENSE"@,
        "{LICENSE,OFL}.txt"@,
    )
}

/// What registering a profile does to a registry: an error when one of that name exists,
/// otherwise the profile is added and the checks of its sections registered.
pub open spec fn registered(old_cr: Registry, new_cr: Registry, r: Result<(), String>, p: ProfileView) -> bool {
    if has_profile(old_cr.profiles@, p.name) {
        &&& r is Err
        &&& new_cr.profiles == old_cr.profiles
        &&& new_cr.checks == old_cr.checks
    } else {
        &&& r is Ok
        &&& new_cr.profiles@.len() == old_cr.profiles@.len() + 1
        &&& forall|k: int| 0 <= k < old_cr.profiles@.len() ==> new_cr.profiles@[k] == old_cr.profiles@[k]
        &&& new_cr.profiles@.last()@ == p
        &&& forall|c: Check| #[trigger] new_cr.checks@.contains(c) <==> (old_cr.checks@.contains(c)
            || exists|k: int| 0 <= k < p.sections.len() && (#[trigger] p.sections[k]).1.contains(c))
    }
}

fn object(entries: Vec<(String, ConfigValue)>) -> (r: Vec<(String, ConfigValue)>)
    ensures
        r == entries,
{
    entries
}

/// The Google Fonts profile.
pub struct GoogleFonts;

impl GoogleFonts {
    /// Registers the Google Fonts profile and its checks.
    pub fn register(&self, cr: &mut Registry) -> (r: Result<(), String>)
        ensures
            filetype_views(final(cr).filetypes@) == googlefonts_filetypes(filetype_views(old(cr).filetypes@)),
            registered(*old(cr), *final(cr), r, googlefonts_profile()),
    {
        cr.register_filetype("MDPB", "METADATA.pb");
        cr.register_filetype("DESC", "*.en_us.html");
        cr.register_filetype("IMAGE", "*.{png,jpg,jpeg,jxl,gif,svg}");
        cr.register_filetype("LICENSE", "{LICENSE,OFL}.txt");
        let builder = ProfileBuilder::new()
            .include_profile("universal")
            .exclude_check("adobefonts/STAT_strings")
            .add_section("Metadata Checks")
            .add_and_register_check(Check::ValidPrimaryScriptLanguage)
            .add_and_register_check(Check::SubsetsCorrect)
            .add_section("Glyphset Checks")
            .add_section("Description Checks")
            .add_and_register_check(Check::NoFreeWord)
            .add_section("Family Checks")
            .add_and_register_check(Check::EqualCodepointCoverage)
            .add_section("Name table checks")
            .add_section("Licensing Checks")
            .add_and_register_check(Check::License)
            .add_section("Repository Checks")
            .add_and_register_check(Check::AsciiFilenames)
            .add_section("Shaping Checks")
            .add_section("Outline Checks")
            .add_section("Font File Checks")
            .add_and_register_check(Check::VersionFormat)
            .add_and_register_check(Check::ParametricAxesHidden)
            .add_and_register_check(Check::OpszNotElided)
            .add_and_register_check(Check::UseTypoMetrics)
            .add_and_register_check(Check::GoogleFontsWeightclass)
            .exclude_check("cmap/format_12")
            .exclude_check("empty_letters")
            .exclude_check("inconsistencies_between_fvar_STAT")
            .exclude_check("no_mac_entries")
            .exclude_check("typographic_family_name")
            .exclude_check("vtt_volt_data");
        let builder = builder.with_configuration_defaults(
            "file_size",
            object(vec![
                (code_string("WARN_SIZE"), ConfigValue::UInt(1048576)),
                (code_string("FAIL_SIZE"), ConfigValue::UInt(9437184)),
                (code_string("FATAL_SIZE"), ConfigValue::UInt(10485760)),
            ]),
        );
        let builder = builder.with_configuration_defaults(
            "googlefonts/family/file_size",
            object(vec![(code_string("FATAL_SIZE"), ConfigValue::UInt(26214400))]),
        );
        proof {
            assert(section_views(builder.sections@) =~~= googlefonts_sections());
            assert(texts_of(builder.includes@) =~= seq!["universal"@]);
            assert(texts_of(builder.excludes@) =~= googlefonts_profile().excludes);
            lemma_entries_view(builder.defaults@[0].1@);
            lemma_entries_view(builder.defaults@[1].1@);
            assert(defaults_view(builder.defaults@) =~~= googlefonts_profile().defaults);
            assert(overrides_view(builder.overrides@) =~= googlefonts_profile().overrides);
        }
        let ghost secs = section_views(builder.sections@);
        let r = builder.build("googlefonts", cr);
        proof {
            assert(secs == googlefonts_sections());
            if r is Ok {
                assert forall|c: Check| #[trigger] final(cr).checks@.contains(c) <==> (old(cr).checks@.contains(c)
                    || exists|k: int| 0 <= k < googlefonts_profile().sections.len() && (#[trigger] googlefonts_profile().sections[k]).1.contains(c)) by {
                    let g = googlefonts_profile().sections;
                    if exists|k: int| 0 <= k < g.len() && (#[trigger] g[k]).1.contains(c) {
                        let k = choose|k: int| 0 <= k < g.len() && (#[trigger] g[k]).1.contains(c);
                        assert(secs[k].1.contains(c));
                    }
                    if final(cr).checks@.contains(c) && !old(cr).checks@.contains(c) {
                        let k = choose|k: int| 0 <= k < secs.len() && (#[trigger] secs[k]).1.contains(c);
                        assert(g[k].1.contains(c));
                    }
                }
            }
        }
        r
    }
}

} // verus!

verus! {

/// The sections of the Monotype profile, with the checks of this library in each.
pub open spec fn monotype_sections() -> Seq<(Seq<char>, Seq<Check>)> {
    seq![
        ("Selected Outline Checks"@, Seq::empty()),
        ("Selected Family Checks"@, seq![Check::EqualCodepointCoverage]),
        ("Monotype Checks"@, seq![Check::Fstype, Check::VerticalMetricsSane]),
        ("Selected Name Table Checks"@, Seq::empty()),
    ]
}

/// The name table entries that the Monotype profile expects by default.
pub open spec fn monotype_name_entries() -> Seq<(Seq<char>, ConfigView)> {
    seq![
        ("COPYRIGHT_NOTICE"@, ConfigView::Str(
            "regex:Copyright \\(c\\) (\\d{4}(-\\d{4})?, )*\\d{4}(-\\d{4})? Monotype Imaging Inc\\. All rights reserved\\."@,
        )),
        ("MANUFACTURER"@, ConfigView::Str("Monotype"@)),
        ("VENDOR_URL"@, ConfigView::Str("https://monotype.com"@)),
        ("LICENSE_DESCRIPTION"@, ConfigView::Str(
            "This font software is the property of Monotype Imaging Inc., or one of its affiliated entities (collectively, Monotype) and its use by you is covered under the terms of a license agreement. You have obtained this font software either directly from Monotype or together with software distributed by one of the licensees of Monotype. This software is a valuable asset of Monotype. Unless you have entered into a specific license agreement granting you additional rights, your use of this software is limited by the terms of the actual license agreement you have entered into with Monotype. You may not copy or distribute this software. If you have any questions concerning your rights you should review the license agreement you received with the software. You can learn more about Monotype by clicking here: www.monotype.com."@,
        )),
        ("LICENSE_URL"@, ConfigView::Str("https://monotype.com"@)),
    ]
}

/// The outline of the Monotype profile.
pub open spec fn monotype_profile() -> ProfileView {
    ProfileView {
        name: "monotype"@,
        sections: monotype_sections(),
        includes: seq!["opentype"@, "universal"@],
        excludes: Seq::empty(),
        defaults: seq![
            ("monotype/fstype"@, seq![("fstype_value"@, ConfigView::UInt(4))]),
            ("universal/required_name_ids"@, seq![("required_name_ids"@, ConfigView::Array(
                monotype_required_name_ids().map_values(|id: u64| ConfigView::UInt(id)),
            ))]),
            ("opentype/vendor_id"@, seq![("vendor_id"@, ConfigView::Str("MONO"@))]),
            ("fontwerk/name_entries"@, monotype_name_entries()),
        ],
        overrides: seq![("valid_glyphnames"@, seq![("found-invalid-names"@, StatusCode::Warn, ""@)])],
    }
}

/// The name IDs that the Monotype profile requires by default.
pub open spec fn monotype_required_name_ids() -> Seq<u64> {
    seq![0, 1, 2, 3, 4, 5, 6, 7, 8, 9, 10, 11, 12, 13, 14, 16, 17, 25]
}

fn name_ids() -> (r: Vec<ConfigValue>)
    ensures
        r@ == monotype_required_name_ids().map_values(|id: u64| ConfigValue::UInt(id)),
{
    let ids: Vec<u64> = vec![0, 1, 2, 3, 4, 5, 6, 7, 8, 9, 10, 11, 12, 13, 14, 16, 17, 25];
    assert(ids@ == monotype_required_name_ids());
    let mut r: Vec<ConfigValue> = Vec::new();
    for i in 0..ids.len()
        invariant
            ids@ == monotype_required_name_ids(),
            r@ == ids@.take(i as int).map_values(|id: u64| ConfigValue::UInt(id)),
    {
        r.push(ConfigValue::UInt(ids[i]));
        assert(ids@.take(i + 1) =~= ids@.take(i as int).push(ids@[i as int]));
        assert(r@ =~= ids@.take(i + 1).map_values(|id: u64| ConfigValue::UInt(id)));
    }
    assert(ids@.take(ids.len() as int) =~= ids@);
    r
}

/// The Monotype profile.
pub struct Monotype;

impl Monotype {
    /// Registers the Monotype profile and its checks.
    pub fn register(&self, cr: &mut Registry) -> (r: Result<(), String>)
        ensures
            final(cr).filetypes == old(cr).filetypes,
            registered(*old(cr), *final(cr), r, monotype_profile()),
    {
        let builder = ProfileBuilder::new()
            .add_section("Selected Outline Checks")
            .add_section("Selected Family Checks")
            .add_and_register_check(Check::EqualCodepointCoverage)
            .include_profile("opentype")
            .add_section("Monotype Checks")
            .add_and_register_check(Check::Fstype);
        let builder = builder.with_configuration_defaults(
            "monotype/fstype",
            object(vec![(code_string("fstype_value"), ConfigValue::UInt(4))]),
        );
        let builder = builder.add_and_register_check(Check::VerticalMetricsSane).include_profile("universal");
        let builder = builder.with_configuration_defaults(
            "universal/required_name_ids",
            object(vec![(code_string("required_name_ids"), ConfigValue::Array(name_ids()))]),
        );
        let builder = builder.with_configuration_defaults(
            "opentype/vendor_id",
            object(vec![(code_string("vendor_id"), ConfigValue::Str(code_string("MONO")))]),
        );
        let builder = builder.with_overrides(
            "valid_glyphnames",
            vec![Override { code: code_string("found-invalid-names"), status: StatusCode::Warn, reason: String::new() }],
        );
        let builder = builder.add_section("Selected Name Table Checks");
        let builder = builder.with_configuration_defaults(
            "fontwerk/name_entries",
            object(vec![
                (code_string("COPYRIGHT_NOTICE"), ConfigValue::Str(code_string(
                    "regex:Copyright \\(c\\) (\\d{4}(-\\d{4})?, )*\\d{4}(-\\d{4})? Monotype Imaging Inc\\. All rights reserved\\.",
                ))),
                (code_string("MANUFACTURER"), ConfigValue::Str(code_string("Monotype"))),
                (code_string("VENDOR_URL"), ConfigValue::Str(code_string("https://monotype.com"))),
                (code_string("LICENSE_DESCRIPTION"), ConfigValue::Str(code_string(
                    "This font software is the property of Monotype Imaging Inc., or one of its affiliated entities (collectively, Monotype) and its use by you is covered under the terms of a license agreement. You have obtained this font software either directly from Monotype or together with software distributed by one of the licensees of Monotype. This software is a valuable asset of Monotype. Unless you have entered into a specific license agreement granting you additional rights, your use of this software is limited by the terms of the actual license agreement you have entered into with Monotype. You may not copy or distribute this software. If you have any questions concerning your rights you should review the license agreement you received with the software. You can learn more about Monotype by clicking here: www.monotype.com.",
                ))),
                (code_string("LICENSE_URL"), ConfigValue::Str(code_string("https://monotype.com"))),
            ]),
        );
        proof {
            assert(section_views(builder.sections@) =~~= monotype_sections());
            assert(texts_of(builder.includes@) =~= monotype_profile().includes);
            assert(texts_of(builder.excludes@) =~= Seq::<Seq<char>>::empty());
            lemma_entries_view(builder.defaults@[0].1@);
            lemma_entries_view(builder.defaults@[1].1@);
            lemma_entries_view(builder.defaults@[2].1@);
            lemma_entries_view(builder.defaults@[3].1@);
            let ids = builder.defaults@[1].1@[0].1;
            if let ConfigValue::Array(v) = ids {
                lemma_values_view(v@);
                assert(values_view(v@) =~= monotype_required_name_ids().map_values(|id: u64| ConfigView::UInt(id)));
            }
            assert(defaults_view(builder.defaults@) =~~= monotype_profile().defaults);
            reveal_strlit("");
            let ov = builder.overrides@[0].1@;
            assert(ov.map_values(|x: Override| override_view(x)) =~~= seq![("found-invalid-names"@, StatusCode::Warn, ""@)]);
            assert(overrides_view(builder.overrides@) =~~= monotype_profile().overrides);
        }
        let ghost secs = section_views(builder.sections@);
        let r = builder.build("monotype", cr);
        proof {
            assert(secs == monotype_sections());
            if r is Ok {
                assert forall|c: Check| #[trigger] final(cr).checks@.contains(c) <==> (old(cr).checks@.contains(c)
                    || exists|k: int| 0 <= k < monotype_profile().sections.len() && (#[trigger] monotype_profile().sections[k]).1.contains(c)) by {
                    let g = monotype_profile().sections;
                    if exists|k: int| 0 <= k < g.len() && (#[trigger] g[k]).1.contains(c) {
                        let k = choose|k: int| 0 <= k < g.len() && (#[trigger] g[k]).1.contains(c);
                        assert(secs[k].1.contains(c));
                    }
                    if final(cr).checks@.contains(c) && !old(cr).checks@.contains(c) {
                        let k = choose|k: int| 0 <= k < secs.len() && (#[trigger] secs[k]).1.contains(c);
                        assert(g[k].1.contains(c));
                    }
                }
            }
        }
        r
    }
}

/// The registry of this library: its checks and the Google Fonts profile.
pub fn get_registry() -> (r: Registry)
    ensures
        r.profiles@.len() == 1,
        r.profiles@[0]@ == googlefonts_profile(),
        forall|c: Check| #[trigger] r.checks@.contains(c) <==> crate::hotfix::all_checks().contains(c),
{
    let mut cr = Registry::new();
    let all = crate::hotfix::checks();
    for i in 0..all.len()
        invariant
            all@ == crate::hotfix::all_checks(),
            cr.profiles@.len() == 0,
            forall|c: Check| #[trigger] cr.checks@.contains(c) <==> all@.take(i as int).contains(c),
    {
        let ghost before = cr.checks@;
        cr.register_check(all[i]);
        proof {
            let t0 = all@.take(i as int);
            let x = all@[i as int];
            assert(all@.take(i + 1) =~= t0.push(x));
            assert forall|c: Check| #[trigger] cr.checks@.contains(c) <==> all@.take(i + 1).contains(c) by {
                if t0.push(x).contains(c) {
                    let q = choose|q: int| 0 <= q < t0.push(x).len() && t0.push(x)[q] == c;
                    if q < t0.len() {
                        assert(t0[q] == c);
                        assert(before.contains(c));
                    }
                }
                if before.contains(c) {
                    assert(t0.contains(c));
                    let q = choose|q: int| 0 <= q < t0.len() && t0[q] == c;
                    assert(t0.push(x)[q] == c);
                    if !before.contains(x) {
                        let p = choose|p: int| 0 <= p < before.len() && before[p] == c;
                        assert(cr.checks@[p] == c);
                    }
                }
                if c == x {
                    assert(t0.push(x)[t0.len() as int] == c);
                    if !before.contains(x) {
                        assert(cr.checks@[before.len() as int] == c);
                    }
                }
            }
        }
    }
    assert(all@.take(all.len() as int) =~= all@);
    let _ = GoogleFonts.register(&mut cr);
    proof {
        assert(!has_profile(Seq::<Profile>::empty(), "googlefonts"@));
        assert forall|c: Check| #[trigger] cr.checks@.contains(c) <==> crate::hotfix::all_checks().contains(c) by {
            let g = googlefonts_profile().sections;
            if exists|k: int| 0 <= k < g.len() && (#[trigger] g[k]).1.contains(c) {
                let k = choose|k: int| 0 <= k < g.len() && (#[trigger] g[k]).1.contains(c);
                let q = choose|q: int| 0 <= q < g[k].1.len() && g[k].1[q] == c;
                assert(crate::hotfix::all_checks().contains(c)) by {
                    assert(crate::hotfix::all_checks()[0] == Check::Fstype);
                }
            }
        }
    }
    cr
}

} // verus!

verus! {

/// Whether some text of the list occurs in `id`.
pub open spec fn mentions_any(id: Seq<char>, parts: Seq<Seq<char>>) -> bool {
    exists|k: int| 0 <= k < parts.len() && contains(id, #[trigger] parts[k])
}

/// Whether a check is run under the given check identifiers (or parts of them) to run and to
/// leave out: it is run when no identifiers to run are given or its identifier contains one of
/// them, and its identifier contains none of those to leave out.
pub open spec fn is_selected(id: Seq<char>, includes: Seq<Seq<char>>, excludes: Seq<Seq<char>>) -> bool {
    (includes.len() == 0 || mentions_any(id, includes)) && !mentions_any(id, excludes)
}

fn mentions_any_of(id: &str, parts: &Vec<String>) -> (r: bool)
    ensures
        r == mentions_any(id@, parts@.map_values(|p: String| p@)),
{
    let ghost pv = parts@.map_values(|p: String| p@);
    let mut i: usize = 0;
    while i < parts.len()
        invariant
            i <= parts.len(),
            pv == parts@.map_values(|p: String| p@),
            forall|k: int| 0 <= k < i ==> !contains(id@, #[trigger] pv[k]),
        decreases parts.len() - i,
    {
        if str_contains(id, parts[i].as_str()) {
            assert(contains(id@, pv[i as int]));
            return true;
        }
        i = i + 1;
    }
    false
}

/// Whether a check is run under the given check identifiers (or parts of them) to run and to
/// leave out.
pub fn check_selected(id: &str, includes: &Vec<String>, excludes: &Vec<String>) -> (r: bool)
    ensures
        r == is_selected(id@, includes@.map_values(|p: String| p@), excludes@.map_values(|p: String| p@)),
{
    (includes.len() == 0 || mentions_any_of(id, includes)) && !mentions_any_of(id, excludes)
}

} // verus!
