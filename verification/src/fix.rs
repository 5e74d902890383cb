//! Fixing what a check found: the outcome of a fix, and the questions a fix may ask.
use vstd::prelude::*;
use crate::config::{ConfigValue, lookup};
use crate::text::str_eq;

verus! {

/// The outcome of a fix.
#[derive(Debug)]
pub enum FixResult {
    /// A fix was available, but not requested.
    Available,
    /// A fix was requested, but no fix was available.
    Unfixable,
    /// More information is needed to fix.
    MoreInfoNeeded(MoreInfoRequest),
    /// A fix was applied.
    Fixed,
    /// The fix failed, for the given reason.
    FixFailed(String),
}

/// A request for more information from the user, in order to apply a fix.
#[derive(Debug)]
pub struct MoreInfoRequest(pub Vec<DialogField>);

/// A field in a dialog: what to ask, and what kind of answer is wanted.
#[derive(Debug)]
pub struct DialogField {
    /// A unique key for this field, which identifies the user's answer.
    pub key: String,
    /// The prompt shown to the user.
    pub prompt: String,
    /// The kind of answer wanted.
    pub field_type: DialogFieldType,
}

/// A single choice in a choice field.
#[derive(Debug)]
pub struct Choice {
    /// The value returned if the user selects this choice.
    pub value: String,
    /// A description of this choice shown to the user.
    pub description: String,
}

/// The kind of answer a dialog field asks for.
#[derive(Debug)]
pub enum DialogFieldType {
    /// One of several options.
    Choice(Vec<Choice>),
    /// Free-form text.
    Text,
    /// A number.
    Number,
    /// Yes or no.
    Boolean,
}

/// The content of a choice.
pub struct ChoiceView {
    pub value: Seq<char>,
    pub description: Seq<char>,
}

/// The content of a dialog field's kind.
pub enum FieldTypeView {
    Choice(Seq<ChoiceView>),
    Text,
    Number,
    Boolean,
}

/// The content of a dialog field.
pub struct FieldView {
    pub key: Seq<char>,
    pub prompt: Seq<char>,
    pub field_type: FieldTypeView,
}

/// The content of the outcome of a fix.
pub enum FixView {
    Available,
    Unfixable,
    MoreInfoNeeded(Seq<FieldView>),
    Fixed,
    FixFailed(Seq<char>),
}

impl View for Choice {
    type V = ChoiceView;

    open spec fn view(&self) -> ChoiceView {
        ChoiceView { value: self.value@, description: self.description@ }
    }
}

impl View for DialogFieldType {
    type V = FieldTypeView;

    open spec fn view(&self) -> FieldTypeView {
        match self {
            DialogFieldType::Choice(c) => FieldTypeView::Choice(c@.map_values(|x: Choice| x@)),
            DialogFieldType::Text => FieldTypeView::Text,
            DialogFieldType::Number => FieldTypeView::Number,
            DialogFieldType::Boolean => FieldTypeView::Boolean,
        }
    }
}

impl View for DialogField {
    type V = FieldView;

    open spec fn view(&self) -> FieldView {
        FieldView { key: self.key@, prompt: self.prompt@, field_type: self.field_type@ }
    }
}

impl View for FixResult {
    type V = FixView;

    open spec fn view(&self) -> FixView {
        match self {
            FixResult::Available => FixView::Available,
            FixResult::Unfixable => FixView::Unfixable,
            FixResult::MoreInfoNeeded(r) => FixView::MoreInfoNeeded(
                r.0@.map_values(|f: DialogField| f@),
            ),
            FixResult::Fixed => FixView::Fixed,
            FixResult::FixFailed(m) => FixView::FixFailed(m@),
        }
    }
}

impl Choice {
    /// A copy of this choice.
    pub fn copy(&self) -> (r: Choice)
        ensures
            r@ == self@,
    {
        Choice { value: self.value.clone(), description: self.description.clone() }
    }
}

impl DialogFieldType {
    /// A copy of this kind of field.
    pub fn copy(&self) -> (r: DialogFieldType)
        ensures
            r@ == self@,
    {
        match self {
            DialogFieldType::Choice(cs) => {
                let mut v: Vec<Choice> = Vec::new();
                for i in 0..cs.len()
                    invariant
                        v@.len() == i,
                        forall|j: int| 0 <= j < i ==> (#[trigger] v@[j])@ == cs@[j]@,
                {
                    v.push(cs[i].copy());
                }
                let r = DialogFieldType::Choice(v);
                assert(v@.map_values(|x: Choice| x@) =~= cs@.map_values(|x: Choice| x@));
                r
            },
            DialogFieldType::Text => DialogFieldType::Text,
            DialogFieldType::Number => DialogFieldType::Number,
            DialogFieldType::Boolean => DialogFieldType::Boolean,
        }
    }
}

impl DialogField {
    /// A copy of this field.
    pub fn copy(&self) -> (r: DialogField)
        ensures
            r@ == self@,
    {
        DialogField {
            key: self.key.clone(),
            prompt: self.prompt.clone(),
            field_type: self.field_type.copy(),
        }
    }
}

impl FixResult {
    /// A copy of this outcome.
    pub fn copy(&self) -> (r: FixResult)
        ensures
            r@ == self@,
    {
        match self {
            FixResult::Available => FixResult::Available,
            FixResult::Unfixable => FixResult::Unfixable,
            FixResult::MoreInfoNeeded(req) => {
                let mut v: Vec<DialogField> = Vec::new();
                for i in 0..req.0.len()
                    invariant
                        v@.len() == i,
                        forall|j: int| 0 <= j < i ==> (#[trigger] v@[j])@ == req.0@[j]@,
                {
                    v.push(req.0[i].copy());
                }
                assert(v@.map_values(|f: DialogField| f@) =~= req.0@.map_values(
                    |f: DialogField| f@,
                ));
                FixResult::MoreInfoNeeded(MoreInfoRequest(v))
            },
            FixResult::Fixed => FixResult::Fixed,
            FixResult::FixFailed(m) => FixResult::FixFailed(m.clone()),
        }
    }
}

/// The user's answers to a dialog, by field key.
#[derive(Debug)]
pub struct MoreInfoReplies(pub Vec<(String, ConfigValue)>);

impl MoreInfoReplies {
    /// No answers yet.
    pub fn new() -> (r: MoreInfoReplies)
        ensures
            r.0@.len() == 0,
    {
        MoreInfoReplies(Vec::new())
    }

    /// Records the answer for `key`, replacing an earlier answer for the same key.
    pub fn insert(&mut self, key: String, value: ConfigValue)
        ensures
            lookup(final(self).0@, key@) == Some(value),
            forall|k: Seq<char>| k != key@ ==> lookup(final(self).0@, k) == lookup(old(self).0@, k),
    {
        let mut i: usize = 0;
        while i < self.0.len()
            invariant
                i <= self.0.len(),
                self.0@ == old(self).0@,
                forall|j: int| 0 <= j < i ==> self.0@[j].0@ != key@,
            decreases self.0.len() - i,
        {
            if str_eq(self.0[i].0.as_str(), key.as_str()) {
                let ghost before = self.0@;
                self.0.set(i, (key, value));
                proof {
                    lemma_lookup_set(before, i as int, self.0@[i as int].0, value);
                }
                return;
            }
            i = i + 1;
        }
        let ghost before = self.0@;
        self.0.push((key, value));
        proof {
            lemma_lookup_push(before, self.0@[before.len() as int].0, value);
        }
    }
}

proof fn lemma_lookup_set(
    entries: Seq<(String, ConfigValue)>,
    i: int,
    key: String,
    value: ConfigValue,
)
    requires
        0 <= i < entries.len(),
        entries[i].0@ == key@,
        forall|j: int| 0 <= j < i ==> entries[j].0@ != key@,
    ensures
        lookup(entries.update(i, (key, value)), key@) == Some(value),
        forall|k: Seq<char>|
            k != key@ ==> lookup(entries.update(i, (key, value)), k) == lookup(entries, k),
    decreases i,
{
    let upd = entries.update(i, (key, value));
    if i > 0 {
        assert(upd.drop_first() =~= entries.drop_first().update(i - 1, (key, value)));
        lemma_lookup_set(entries.drop_first(), i - 1, key, value);
        assert forall|k: Seq<char>| k != key@ implies lookup(upd, k) == lookup(entries, k) by {
            assert(upd[0] == entries[0]);
            if entries[0].0@ != k {
                assert(lookup(upd, k) == lookup(upd.drop_first(), k));
                assert(lookup(entries.drop_first().update(i - 1, (key, value)), k) == lookup(
                    entries.drop_first(),
                    k,
                ));
                assert(lookup(entries, k) == lookup(entries.drop_first(), k));
            }
        }
    } else {
        assert(upd.drop_first() =~= entries.drop_first());
        assert forall|k: Seq<char>| k != key@ implies lookup(upd, k) == lookup(entries, k) by {
            assert(upd[0].0@ == key@);
        }
    }
}

proof fn lemma_lookup_push(entries: Seq<(String, ConfigValue)>, key: String, value: ConfigValue)
    requires
        forall|j: int| 0 <= j < entries.len() ==> entries[j].0@ != key@,
    ensures
        lookup(entries.push((key, value)), key@) == Some(value),
        forall|k: Seq<char>|
            k != key@ ==> lookup(entries.push((key, value)), k) == lookup(entries, k),
    decreases entries.len(),
{
    let pushed = entries.push((key, value));
    if entries.len() > 0 {
        assert(pushed.drop_first() =~= entries.drop_first().push((key, value)));
        lemma_lookup_push(entries.drop_first(), key, value);
        assert forall|k: Seq<char>| k != key@ implies lookup(pushed, k) == lookup(entries, k) by {
            assert(pushed[0] == entries[0]);
            if entries[0].0@ != k {
                assert(lookup(pushed, k) == lookup(pushed.drop_first(), k));
                assert(lookup(entries.drop_first().push((key, value)), k) == lookup(
                    entries.drop_first(),
                    k,
                ));
                assert(lookup(entries, k) == lookup(entries.drop_first(), k));
            }
        }
    } else {
        assert(pushed.drop_first() =~= entries);
        assert forall|k: Seq<char>| k != key@ implies lookup(pushed, k) == lookup(entries, k) by {
            assert(pushed[0].0@ == key@);
            assert(pushed.drop_first().len() == 0);
            assert(lookup(pushed, k) == lookup(pushed.drop_first(), k));
            assert(lookup(pushed.drop_first(), k) == None::<ConfigValue>);
            assert(lookup(entries, k) == None::<ConfigValue>);
        }
    }
}

} // verus!
