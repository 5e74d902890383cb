//! Formatting lists in messages, and comparing values across a family or within a tolerance.
use vstd::prelude::*;
use vstd::std_specs::cmp::PartialEqSpec;
use crate::config::Context;
use crate::status::{Status, StatusCode, StatusView, passed, plain, views};
use crate::text::{decimal, push_decimal, push_str};

verus! {

/// Lines joined with a newline between each two.
pub open spec fn joined(lines: Seq<Seq<char>>) -> Seq<char>
    decreases lines.len(),
{
    if lines.len() == 0 {
        Seq::empty()
    } else if lines.len() == 1 {
        lines[0]
    } else {
        joined(lines.drop_last()) + "\n"@ + lines.last()
    }
}

/// An item of a Markdown bullet list.
pub open spec fn bullet(item: Seq<char>) -> Seq<char> {
    "* "@ + item
}

/// The lines of a bullet list: every item when lists are given in full or there are at most
/// nine, else the first nine and a line counting the others.
pub open spec fn bullet_lines(full: bool, items: Seq<Seq<char>>) -> Seq<Seq<char>> {
    if full || items.len() <= 9 {
        items.map_values(|i: Seq<char>| bullet(i))
    } else {
        items.take(9).map_values(|i: Seq<char>| bullet(i)).push(
            "... and "@ + decimal((items.len() - 9) as nat) + " others"@,
        )
    }
}

/// The characters of each string.
pub open spec fn texts(v: Seq<String>) -> Seq<Seq<char>> {
    v.map_values(|s: String| s@)
}

/// Joins lines with a newline between each two.
pub fn join_lines(lines: &Vec<String>) -> (r: String)
    ensures
        r@ == joined(texts(lines@)),
{
    let mut r = String::new();
    let mut i: usize = 0;
    while i < lines.len()
        invariant
            i <= lines.len(),
            r@ == joined(texts(lines@.take(i as int))),
        decreases lines.len() - i,
    {
        proof {
            assert(texts(lines@.take(i + 1)).drop_last() =~= texts(lines@.take(i as int)));
            assert(texts(lines@.take(i + 1)).last() == lines@[i as int]@);
        }
        if i > 0 {
            push_str(&mut r, "\n");
        }
        push_str(&mut r, lines[i].as_str());
        i = i + 1;
    }
    assert(lines@.take(lines.len() as int) =~= lines@);
    r
}

fn bulleted(item: &str) -> (r: String)
    ensures
        r@ == bullet(item@),
{
    let mut s = String::from_str("* ");
    push_str(&mut s, item);
    s
}

/// Formats items as a Markdown bullet list. Unless the context asks for full lists, only the
/// first nine items are listed, followed by a line that counts the others.
pub fn bullet_list(context: &Context, items: &Vec<String>) -> (r: String)
    ensures
        r@ == joined(bullet_lines(context.full_lists, texts(items@))),
{
    let mut list: Vec<String> = Vec::new();
    let mut i: usize = 0;
    let first = if items.len() < 9 {
        items.len()
    } else {
        9
    };
    let stop = if context.full_lists {
        items.len()
    } else {
        first
    };
    while i < stop
        invariant
            i <= stop <= items.len(),
            list@.len() == i,
            forall|j: int| 0 <= j < i ==> (#[trigger] list@[j])@ == bullet(items@[j]@),
        decreases stop - i,
    {
        list.push(bulleted(items[i].as_str()));
        i = i + 1;
    }
    let ghost lines = bullet_lines(context.full_lists, texts(items@));
    if !context.full_lists && items.len() > 9 {
        let remainder = items.len() - 9;
        let mut line = String::from_str("... and ");
        push_decimal(&mut line, remainder as u64);
        push_str(&mut line, " others");
        list.push(line);
        assert(texts(list@) =~= lines);
    } else {
        assert(texts(list@) =~= lines);
    }
    join_lines(&list)
}

/// The status reporting whether all the first components of `values` are equal, and which values
/// were found when they are not.
pub open spec fn all_the_same_status<T: PartialEq>(
    context: Context,
    values: Seq<(T, String, String)>,
    code: Seq<char>,
    message_start: Seq<char>,
    severity: StatusCode,
) -> StatusView {
    if forall|i: int| 0 <= i < values.len() ==> values[i].0.eq_spec(&values[0].0) {
        passed()
    } else {
        plain(
            if severity == StatusCode::Fail {
                StatusCode::Fail
            } else {
                StatusCode::Warn
            },
            code,
            message_start + "\n\nThe following values were found:\n\n"@ + joined(
                bullet_lines(
                    context.full_lists,
                    values.map_values(|v: (T, String, String)| v.1@ + ": "@ + v.2@),
                ),
            ),
        )
    }
}

/// Checks that all the values are equal. Each value comes with a description and a label, which
/// are listed in the message when they are not; the finding is then a failure when `severity`
/// is Fail and a warning otherwise.
pub fn assert_all_the_same<T: Eq>(
    context: &Context,
    values: &[(T, String, String)],
    code: &str,
    message_start: &str,
    severity: StatusCode,
) -> (r: Vec<Status>)
    ensures
        T::obeys_eq_spec() ==> views(r@) == seq![
            all_the_same_status(*context, values@, code@, message_start@, severity),
        ],
{
    let mut ok = true;
    let mut i: usize = 0;
    while i < values.len()
        invariant
            i <= values.len(),
            T::obeys_eq_spec() ==> (ok <==> forall|j: int|
                0 <= j < i ==> values@[j].0.eq_spec(&values@[0].0)),
        decreases values.len() - i,
    {
        if !(values[i].0 == values[0].0) {
            ok = false;
        }
        i = i + 1;
    }
    let mut out: Vec<Status> = Vec::new();
    if ok {
        out.push(Status::pass());
    } else {
        let mut described: Vec<String> = Vec::new();
        let mut j: usize = 0;
        while j < values.len()
            invariant
                j <= values.len(),
                texts(described@) == values@.take(j as int).map_values(
                    |v: (T, String, String)| v.1@ + ": "@ + v.2@,
                ),
            decreases values.len() - j,
        {
            let mut d = values[j].1.clone();
            push_str(&mut d, ": ");
            push_str(&mut d, values[j].2.as_str());
            let ghost before = described@;
            described.push(d);
            proof {
                assert(texts(described@) =~= texts(before).push(d@));
                assert(values@.take(j + 1).map_values(|v: (T, String, String)| v.1@ + ": "@ + v.2@)
                    =~= values@.take(j as int).map_values(
                    |v: (T, String, String)| v.1@ + ": "@ + v.2@,
                ).push(values@[j as int].1@ + ": "@ + values@[j as int].2@));
            }
            j = j + 1;
        }
        assert(values@.take(values.len() as int) =~= values@);
        let mut message = String::from_str(message_start);
        push_str(&mut message, "\n\nThe following values were found:\n\n");
        let list = bullet_list(context, &described);
        push_str(&mut message, list.as_str());
        if severity == StatusCode::Fail {
            out.push(Status::with_message(StatusCode::Fail, code, message));
        } else {
            out.push(Status::with_message(StatusCode::Warn, code, message));
        }
    }
    proof {
        assert(views(out@) =~= seq![out@[0]@]);
    }
    out
}


/// The distance between two integers.
pub open spec fn distance(a: int, b: int) -> int {
    if a < b {
        b - a
    } else {
        a - b
    }
}

/// Whether `actual` lies within `epsilon` of `expected` without being exactly on it, as the
/// outline checks compare coordinates.
pub fn close_but_not_on(expected: i64, actual: i64, epsilon: i64) -> (r: bool)
    ensures
        r == (distance(actual as int, expected as int) <= epsilon && actual != expected),
{
    let d: i128 = actual as i128 - expected as i128;
    let a: i128 = if d < 0 { -d } else { d };
    a <= epsilon as i128 && actual != expected
}

} // verus!
