//! Files under test: a name and the bytes it holds. The path functions read paths as std's
//! `Path` does on the target the library is built for (components separated by `/` on Unix,
//! also by a backslash on Windows), so their named results are fixed for one build.
use vstd::prelude::*;

verus! {

/// A file to be checked: its path and its contents.
pub struct Testable {
    /// The path of the file.
    pub filename: String,
    /// The bytes of the file.
    pub contents: Vec<u8>,
}

/// What std's `Path::file_name` gives for a path, as text.
pub uninterp spec fn spec_file_name(path: Seq<char>) -> Option<Seq<char>>;

/// `Path::file_name` from std, read as UTF-8 text: the final component of a path, or none when
/// the path ends in `..` or has no component. Its result is named, not stated.
#[verifier::external_body]
pub(crate) fn file_name(path: &str) -> (r: Option<String>)
    ensures
        match r {
            Some(s) => spec_file_name(path@) == Some(s@),
            None => spec_file_name(path@) is None,
        },
{
    std::path::Path::new(path).file_name().and_then(|n| n.to_str()).map(|n| n.to_string())
}

/// What std's `Path::file_stem` gives for a path, as text.
pub uninterp spec fn spec_file_stem(path: Seq<char>) -> Option<Seq<char>>;

/// `Path::file_stem` from std, read as UTF-8 text: the final component of a path without its
/// last extension, or none when the path has no final component. Its result is named, not
/// stated.
#[verifier::external_body]
pub(crate) fn file_stem(path: &str) -> (r: Option<String>)
    ensures
        match r {
            Some(s) => spec_file_stem(path@) == Some(s@),
            None => spec_file_stem(path@) is None,
        },
{
    std::path::Path::new(path).file_stem().and_then(|n| n.to_str()).map(|n| n.to_string())
}

/// What std's `Path::parent` gives for a path, as text.
pub uninterp spec fn spec_parent(path: Seq<char>) -> Option<Seq<char>>;

/// `Path::parent` from std, read as UTF-8 text: the path without its final component, or none
/// when the path ends in a root or prefix or is empty. Its result is named, not stated.
#[verifier::external_body]
pub(crate) fn parent(path: &str) -> (r: Option<String>)
    ensures
        match r {
            Some(s) => spec_parent(path@) == Some(s@),
            None => spec_parent(path@) is None,
        },
{
    std::path::Path::new(path).parent().and_then(|n| n.to_str()).map(|n| n.to_string())
}

impl Testable {
    /// A testable with the given path and contents.
    pub fn new_with_contents(filename: &str, contents: Vec<u8>) -> (t: Testable)
        ensures
            t.filename@ == filename@,
            t.contents@ == contents@,
    {
        Testable { filename: String::from_str(filename), contents }
    }

    /// Replaces the contents of the file.
    pub fn set(&mut self, contents: Vec<u8>)
        ensures
            final(self).filename == old(self).filename,
            final(self).contents@ == contents@,
    {
        self.contents = contents;
    }

    /// The file name without its directories.
    pub fn basename(&self) -> (r: Option<String>)
        ensures
            match r {
                Some(s) => spec_file_name(self.filename@) == Some(s@),
                None => spec_file_name(self.filename@) is None,
            },
    {
        file_name(self.filename.as_str())
    }
}

/// A group of files checked together, such as the fonts of one family.
pub struct TestableCollection {
    /// The files of the group.
    pub testables: Vec<Testable>,
    /// The directory they come from.
    pub directory: String,
}


/// The directory a file is grouped under: its parent directory, or the directory above that
/// when the parent is an `article` directory (the files of a Google Fonts article belong to the
/// family above them); none for a path without a parent.
pub open spec fn group_directory(path: Seq<char>) -> Option<Seq<char>> {
    match spec_parent(path) {
        None => None,
        Some(p) => if spec_file_name(p) == Some("article"@) {
            match spec_parent(p) {
                Some(g) => Some(g),
                None => Some(p),
            }
        } else {
            Some(p)
        },
    }
}

/// The position of the first group of the directory, if any.
pub open spec fn group_index(groups: Seq<(Seq<char>, Seq<int>)>, dir: Seq<char>) -> Option<int>
    decreases groups.len(),
{
    if groups.len() == 0 {
        None
    } else {
        match group_index(groups.drop_last(), dir) {
            Some(k) => Some(k),
            None => if groups.last().0 == dir {
                Some(groups.len() - 1)
            } else {
                None
            },
        }
    }
}

/// The first `n` files grouped by directory: each group is a directory and the positions of
/// its files, in order; groups come in the order their first file comes.
pub open spec fn groups_of(paths: Seq<Seq<char>>, n: nat) -> Seq<(Seq<char>, Seq<int>)>
    decreases n,
{
    if n == 0 {
        Seq::empty()
    } else {
        let g = groups_of(paths, (n - 1) as nat);
        match group_directory(paths[n - 1]) {
            None => g,
            Some(d) => match group_index(g, d) {
                Some(k) => g.update(k, (d, g[k].1.push(n - 1))),
                None => g.push((d, seq![n - 1])),
            },
        }
    }
}

/// A grouping as texts and positions.
pub open spec fn groups_view(g: Seq<(String, Vec<usize>)>) -> Seq<(Seq<char>, Seq<int>)> {
    g.map_values(|e: (String, Vec<usize>)| (e.0@, e.1@.map_values(|x: usize| x as int)))
}

proof fn lemma_group_index_found(groups: Seq<(Seq<char>, Seq<int>)>, dir: Seq<char>, k: int)
    requires
        0 <= k < groups.len(),
        groups[k].0 == dir,
        forall|j: int| 0 <= j < k ==> (#[trigger] groups[j]).0 != dir,
    ensures
        group_index(groups, dir) == Some(k),
    decreases groups.len(),
{
    if k < groups.len() - 1 {
        assert forall|j: int| 0 <= j < k implies (#[trigger] groups.drop_last()[j]).0 != dir by {
            assert(groups.drop_last()[j] == groups[j]);
        }
        lemma_group_index_found(groups.drop_last(), dir, k);
    } else {
        lemma_group_index_absent(groups.drop_last(), dir);
    }
}

proof fn lemma_group_index_absent(groups: Seq<(Seq<char>, Seq<int>)>, dir: Seq<char>)
    requires
        forall|j: int| 0 <= j < groups.len() ==> (#[trigger] groups[j]).0 != dir,
    ensures
        group_index(groups, dir) is None,
    decreases groups.len(),
{
    if groups.len() > 0 {
        assert forall|j: int| 0 <= j < groups.drop_last().len() implies (#[trigger] groups.drop_last()[j]).0 != dir by {
            assert(groups.drop_last()[j] == groups[j]);
        }
        lemma_group_index_absent(groups.drop_last(), dir);
        assert(groups[groups.len() - 1].0 != dir);
    }
}

/// The directory a file is grouped under.
pub fn grouping_directory(path: &str) -> (r: Option<String>)
    ensures
        match r {
            Some(d) => group_directory(path@) == Some(d@),
            None => group_directory(path@) is None,
        },
{
    let p = match parent(path) {
        Some(p) => p,
        None => return None,
    };
    let is_article = match file_name(p.as_str()) {
        Some(n) => crate::text::str_eq(n.as_str(), "article"),
        None => false,
    };
    if is_article {
        match parent(p.as_str()) {
            Some(g) => Some(g),
            None => Some(p),
        }
    } else {
        Some(p)
    }
}

/// Groups files by directory, as a run reads its inputs: one group per directory (an `article`
/// directory counting as the one above it), with the positions of its files, in order.
pub fn group_paths(paths: &Vec<String>) -> (r: Vec<(String, Vec<usize>)>)
    ensures
        groups_view(r@) == groups_of(paths@.map_values(|p: String| p@), paths@.len()),
{
    let ghost ps = paths@.map_values(|p: String| p@);
    let mut groups: Vec<(String, Vec<usize>)> = Vec::new();
    for i in 0..paths.len()
        invariant
            ps == paths@.map_values(|p: String| p@),
            groups_view(groups@) == groups_of(ps, i as nat),
    {
        assert(ps[i as int] == paths@[i as int]@);
        let ghost g = groups_of(ps, i as nat);
        assert(groups_view(groups@).len() == groups@.len());
        match grouping_directory(paths[i].as_str()) {
            None => {},
            Some(d) => {
                let mut k: usize = 0;
                let mut found = false;
                while k < groups.len() && !found
                    invariant
                        groups_view(groups@) == g,
                        g.len() == groups@.len(),
                        k <= groups@.len(),
                        found ==> k < groups@.len() && g[k as int].0 == d@,
                        forall|j: int| 0 <= j < k ==> (#[trigger] g[j]).0 != d@,
                    decreases groups.len() - k, if found { 0int } else { 1int },
                {
                    assert(g[k as int].0 == groups@[k as int].0@);
                    if crate::text::str_eq(groups[k].0.as_str(), d.as_str()) {
                        found = true;
                    } else {
                        k = k + 1;
                    }
                }
                if found {
                    proof {
                        lemma_group_index_found(g, d@, k as int);
                    }
                    let name = groups[k].0.clone();
                    let mut members = groups[k].1.clone();
                    let ghost old_members = members@;
                    members.push(i);
                    let ghost before = groups@;
                    groups.set(k, (name, members));
                    assert(members@.map_values(|x: usize| x as int) =~= g[k as int].1.push(i as int)) by {
                        assert(old_members.map_values(|x: usize| x as int) == g[k as int].1);
                    }
                    assert(groups_view(groups@) =~= g.update(k as int, (d@, g[k as int].1.push(i as int))));
                } else {
                    proof {
                        lemma_group_index_absent(g, d@);
                    }
                    let mut members: Vec<usize> = Vec::new();
                    members.push(i);
                    assert(members@.map_values(|x: usize| x as int) =~= seq![i as int]);
                    let ghost before = groups@;
                    let ghost dv = d@;
                    groups.push((d, members));
                    assert(groups@ == before.push(groups@[before.len() as int]));
                    assert(groups_view(groups@)[before.len() as int] == (dv, seq![i as int]));
                    assert(groups_view(groups@) =~= g.push((dv, seq![i as int])));
                }
            },
        }
    }
    groups
}
} // verus!
