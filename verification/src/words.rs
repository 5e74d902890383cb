//! Finding whole words in text, and removing HTML tags.
use vstd::prelude::*;
use crate::text::{is_alphanumeric, is_whitespace, push_char, spec_is_alphanumeric, spec_is_whitespace};

verus! {

/// How text is cut into words.
#[derive(Clone, Copy, PartialEq, Eq, Structural)]
pub enum Splitter {
    /// Words are runs of alphanumeric characters; anything else separates them.
    NonAlphanumeric,
    /// Words are runs of characters other than white space.
    Whitespace,
    /// Words are the parts between single spaces.
    Space,
}

/// Whether a character separates words.
pub open spec fn is_sep(mode: Splitter, c: char) -> bool {
    match mode {
        Splitter::NonAlphanumeric => !spec_is_alphanumeric(c),
        Splitter::Whitespace => spec_is_whitespace(c),
        Splitter::Space => c == ' ',
    }
}

/// `t[i..j]` is a word: none of its characters separates, and it is bounded by separators or
/// by the ends of the text.
pub open spec fn word_at(mode: Splitter, t: Seq<char>, i: int, j: int) -> bool {
    &&& 0 <= i <= j <= t.len()
    &&& forall|k: int| i <= k < j ==> !is_sep(mode, #[trigger] t[k])
    &&& (i == 0 || is_sep(mode, t[i - 1]))
    &&& (j == t.len() || is_sep(mode, t[j]))
}

/// The ASCII lower-case form of a character; other characters are kept.
pub open spec fn ascii_lower(c: char) -> char {
    if 'A' <= c <= 'Z' {
        ((c as u32) + 32) as char
    } else {
        c
    }
}

/// Whether two texts are equal, ignoring the case of ASCII letters when `ci` holds.
pub open spec fn same_text(ci: bool, a: Seq<char>, b: Seq<char>) -> bool {
    &&& a.len() == b.len()
    &&& forall|k: int|
        0 <= k < a.len() ==> if ci {
            ascii_lower(#[trigger] a[k]) == ascii_lower(b[k])
        } else {
            a[k] == b[k]
        }
}

/// Whether some word of `t` equals `target`.
pub open spec fn has_word(mode: Splitter, ci: bool, t: Seq<char>, target: Seq<char>) -> bool {
    exists|i: int| word_at(mode, t, i, i + target.len()) && #[trigger] same_text(
        ci,
        t.subrange(i, i + target.len()),
        target,
    )
}

fn separates(mode: Splitter, c: char) -> (r: bool)
    ensures
        r == is_sep(mode, c),
{
    match mode {
        Splitter::NonAlphanumeric => !is_alphanumeric(c),
        Splitter::Whitespace => is_whitespace(c),
        Splitter::Space => c == ' ',
    }
}

fn lower(c: char) -> (r: char)
    ensures
        r == ascii_lower(c),
{
    if 'A' <= c && c <= 'Z' {
        ((c as u8) + 32) as char
    } else {
        c
    }
}

fn run_matches(ci: bool, t: &Vec<char>, start: usize, end: usize, target: &Vec<char>) -> (r: bool)
    requires
        start <= end <= t.len(),
    ensures
        r == same_text(ci, t@.subrange(start as int, end as int), target@),
{
    if end - start != target.len() {
        return false;
    }
    let mut k: usize = 0;
    while k < target.len()
        invariant
            end - start == target.len(),
            start <= end <= t.len(),
            k <= target.len(),
            forall|m: int|
                0 <= m < k ==> if ci {
                    ascii_lower(t@[start + m]) == ascii_lower(target@[m])
                } else {
                    t@[start + m] == target@[m]
                },
        decreases target.len() - k,
    {
        let a = t[start + k];
        let b = target[k];
        let same = if ci {
            lower(a) == lower(b)
        } else {
            a == b
        };
        if !same {
            assert(t@.subrange(start as int, end as int)[k as int] == a);
            return false;
        }
        k = k + 1;
    }
    true
}

/// The words of `t[..start]` that end before `start - 1` include one equal to `target`.
pub open spec fn found_before(mode: Splitter, ci: bool, t: Seq<char>, target: Seq<char>, start: int) -> bool {
    exists|i: int|
        i + target.len() < start && word_at(mode, t, i, i + target.len()) && #[trigger] same_text(
            ci,
            t.subrange(i, i + target.len()),
            target,
        )
}

/// Handles the separator (or the end of the text) at `p`, which closes the run that began at
/// `start`.
fn boundary_step(
    mode: Splitter,
    ci: bool,
    t: &Vec<char>,
    target: &Vec<char>,
    start: usize,
    p: usize,
    found: bool,
) -> (r: bool)
    requires
        start <= p <= t@.len(),
        forall|k: int| start <= k < p ==> !is_sep(mode, #[trigger] t@[k]),
        start > 0 ==> is_sep(mode, t@[start - 1]),
        p == t@.len() || is_sep(mode, t@[p as int]),
        found == found_before(mode, ci, t@, target@, start as int),
    ensures
        r == found_before(mode, ci, t@, target@, p + 1),
{
    let m = run_matches(ci, t, start, p, target);
    let ghost L = target@.len() as int;
    proof {
        assert(word_at(mode, t@, start as int, p as int));
        assert forall|i: int|
            i + L < p + 1 && #[trigger] word_at(mode, t@, i, i + L) implies i + L < start || i
                == start by {
            let j = i + L;
            if j >= start {
                if j < p {
                    assert(!is_sep(mode, t@[j]));
                }
                assert(j == p);
                if i < start {
                    assert(start > 0);
                    assert(!is_sep(mode, t@[start - 1]));
                }
                if i > start {
                    assert(is_sep(mode, t@[i - 1]));
                }
            }
        }
    }
    let r = found || m;
    proof {
        if r {
            if m {
                assert(word_at(mode, t@, start as int, start + L));
                assert(same_text(ci, t@.subrange(start as int, start + L), target@));
            } else {
                let i = choose|i: int|
                    i + L < start && word_at(mode, t@, i, i + L) && #[trigger] same_text(
                        ci,
                        t@.subrange(i, i + L),
                        target@,
                    );
                assert(i + L < p + 1);
            }
        } else {
            assert forall|i: int|
                i + L < p + 1 && word_at(mode, t@, i, i + L) implies !#[trigger] same_text(
                ci,
                t@.subrange(i, i + L),
                target@,
            ) by {
                assert(word_at(mode, t@, i, i + L));
                if i + L >= start {
                    assert(i == start);
                }
            }
        }
    }
    r
}

/// Whether some word of `t` equals `target`, ignoring ASCII case when `ci` holds.
pub fn contains_word(mode: Splitter, ci: bool, t: &Vec<char>, target: &Vec<char>) -> (r: bool)
    ensures
        r == has_word(mode, ci, t@, target@),
{
    let n = t.len();
    let mut found = false;
    let mut start: usize = 0;
    let mut p: usize = 0;
    while p < n
        invariant
            n == t@.len(),
            start <= p <= n,
            forall|k: int| start <= k < p ==> !is_sep(mode, #[trigger] t@[k]),
            start > 0 ==> is_sep(mode, t@[start - 1]),
            found == found_before(mode, ci, t@, target@, start as int),
        decreases n - p,
    {
        if separates(mode, t[p]) {
            found = boundary_step(mode, ci, t, target, start, p, found);
            start = p + 1;
        }
        p = p + 1;
    }
    let r = boundary_step(mode, ci, t, target, start, n, found);
    proof {
        let L = target@.len() as int;
        if has_word(mode, ci, t@, target@) {
            let i = choose|i: int| word_at(mode, t@, i, i + L) && #[trigger] same_text(
                ci,
                t@.subrange(i, i + L),
                target@,
            );
            assert(i + L < n + 1);
        }
    }
    r
}

/// Whether `word` is one of the parts of `text` split at each space.
pub fn has_part(text: &str, word: &str) -> (r: bool)
    ensures
        r == has_word(Splitter::Space, false, text@, word@),
{
    let t = crate::text::chars_of(text);
    let w = crate::text::chars_of(word);
    contains_word(Splitter::Space, false, &t, &w)
}

/// The text outside HTML tags, and whether the end of the text lies inside a tag.
pub open spec fn strip_state(s: Seq<char>) -> (Seq<char>, bool)
    decreases s.len(),
{
    if s.len() == 0 {
        (Seq::empty(), false)
    } else {
        let (out, in_tag) = strip_state(s.drop_last());
        let c = s.last();
        if c == '<' {
            (out, true)
        } else if c == '>' {
            (out, false)
        } else if !in_tag {
            (out.push(c), false)
        } else {
            (out, true)
        }
    }
}

/// The text with every `<...>` tag removed: the characters from a `<` to the next `>`, both
/// included, are dropped.
pub open spec fn stripped(s: Seq<char>) -> Seq<char> {
    strip_state(s).0
}

/// Removes HTML tags from a text.
pub fn strip_html_tags(html: &Vec<char>) -> (r: String)
    ensures
        r@ == stripped(html@),
{
    let mut result = String::new();
    let mut in_tag = false;
    for i in 0..html.len()
        invariant
            (result@, in_tag) == strip_state(html@.take(i as int)),
    {
        let ch = html[i];
        proof {
            assert(html@.take(i + 1).drop_last() =~= html@.take(i as int));
        }
        if ch == '<' {
            in_tag = true;
        } else if ch == '>' {
            in_tag = false;
        } else if !in_tag {
            push_char(&mut result, ch);
        }
    }
    assert(html@.take(html.len() as int) =~= html@);
    result
}

} // verus!
