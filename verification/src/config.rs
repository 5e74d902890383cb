//! Configuration values handed to checks, and the context a check runs in.
use vstd::prelude::*;
use crate::text::str_eq;

verus! {

/// A configuration value, as read from a configuration file.
#[derive(Debug)]
pub enum ConfigValue {
    /// No value.
    Null,
    /// A truth value.
    Bool(bool),
    /// A whole number that is zero or more.
    UInt(u64),
    /// A whole number below zero.
    NegInt(i64),
    /// A number with a fractional part.
    Float,
    /// A piece of text.
    Str(String),
    /// A list of values.
    Array(Vec<ConfigValue>),
    /// Named values, in the order they were given.
    Object(Vec<(String, ConfigValue)>),
}

/// A configuration value as a mathematical value: texts as character sequences.
pub enum ConfigView {
    Null,
    Bool(bool),
    UInt(u64),
    NegInt(i64),
    Float,
    Str(Seq<char>),
    Array(Seq<ConfigView>),
    Object(Seq<(Seq<char>, ConfigView)>),
}

/// The mathematical value of a configuration value.
pub open spec fn config_view(v: ConfigValue) -> ConfigView
    decreases v,
{
    match v {
        ConfigValue::Null => ConfigView::Null,
        ConfigValue::Bool(b) => ConfigView::Bool(b),
        ConfigValue::UInt(n) => ConfigView::UInt(n),
        ConfigValue::NegInt(n) => ConfigView::NegInt(n),
        ConfigValue::Float => ConfigView::Float,
        ConfigValue::Str(s) => ConfigView::Str(s@),
        ConfigValue::Array(vs) => {
            ConfigView::Array(values_view(vs@))
        },
        ConfigValue::Object(es) => {
            ConfigView::Object(entries_view(es@))
        },
    }
}

/// The mathematical values of a list of configuration values.
pub open spec fn values_view(s: Seq<ConfigValue>) -> Seq<ConfigView>
    decreases s,
{
    if s.len() == 0 {
        Seq::empty()
    } else {
        values_view(s.drop_last()).push(config_view(s.last()))
    }
}

/// The mathematical values of a list of named configuration values.
pub open spec fn entries_view(s: Seq<(String, ConfigValue)>) -> Seq<(Seq<char>, ConfigView)>
    decreases s,
{
    if s.len() == 0 {
        Seq::empty()
    } else {
        entries_view(s.drop_last()).push((s.last().0@, config_view(s.last().1)))
    }
}

/// The mathematical values of a list of configuration values, one by one.
pub proof fn lemma_values_view(s: Seq<ConfigValue>)
    ensures
        values_view(s) == s.map_values(|v: ConfigValue| config_view(v)),
    decreases s.len(),
{
    if s.len() > 0 {
        lemma_values_view(s.drop_last());
        assert(s.drop_last().map_values(|v: ConfigValue| config_view(v)).push(config_view(s.last()))
            =~= s.map_values(|v: ConfigValue| config_view(v)));
    }
}

/// The mathematical values of a list of named configuration values, one by one.
pub proof fn lemma_entries_view(s: Seq<(String, ConfigValue)>)
    ensures
        entries_view(s) == s.map_values(|e: (String, ConfigValue)| (e.0@, config_view(e.1))),
    decreases s.len(),
{
    if s.len() > 0 {
        lemma_entries_view(s.drop_last());
        assert(s.drop_last().map_values(|e: (String, ConfigValue)| (e.0@, config_view(e.1))).push(
            (s.last().0@, config_view(s.last().1)),
        ) =~= s.map_values(|e: (String, ConfigValue)| (e.0@, config_view(e.1))));
    }
}

/// The value stored under `key` in a list of named values: the first one with that name.
pub open spec fn lookup(entries: Seq<(String, ConfigValue)>, key: Seq<char>) -> Option<ConfigValue>
    decreases entries.len(),
{
    if entries.len() == 0 {
        None
    } else if entries[0].0@ == key {
        Some(entries[0].1)
    } else {
        lookup(entries.drop_first(), key)
    }
}

/// The value stored under `key` in an object, or none for any other value.
pub open spec fn get_spec(v: ConfigValue, key: Seq<char>) -> Option<ConfigValue> {
    match v {
        ConfigValue::Object(entries) => lookup(entries@, key),
        _ => None,
    }
}

/// Finds the first entry named `key`.
pub fn lookup_entry<'a>(entries: &'a Vec<(String, ConfigValue)>, key: &str) -> (r: Option<&'a ConfigValue>)
    ensures
        match r {
            Some(v) => lookup(entries@, key@) == Some(*v),
            None => lookup(entries@, key@) is None,
        },
{
    let mut i: usize = 0;
    assert(entries@.skip(0) == entries@);
    while i < entries.len()
        invariant
            i <= entries.len(),
            lookup(entries@, key@) == lookup(entries@.skip(i as int), key@),
        decreases entries.len() - i,
    {
        assert(entries@.skip(i as int).drop_first() == entries@.skip(i + 1));
        if str_eq(entries[i].0.as_str(), key) {
            return Some(&entries[i].1);
        }
        i = i + 1;
    }
    assert(entries@.skip(i as int).len() == 0);
    None
}

impl ConfigValue {
    /// A copy of the value.
    pub fn copy(&self) -> (r: ConfigValue)
        ensures
            config_view(r) == config_view(*self),
        decreases self,
    {
        match self {
            ConfigValue::Null => ConfigValue::Null,
            ConfigValue::Bool(b) => ConfigValue::Bool(*b),
            ConfigValue::UInt(n) => ConfigValue::UInt(*n),
            ConfigValue::NegInt(n) => ConfigValue::NegInt(*n),
            ConfigValue::Float => ConfigValue::Float,
            ConfigValue::Str(s) => ConfigValue::Str(s.clone()),
            ConfigValue::Array(vs) => {
                let mut out: Vec<ConfigValue> = Vec::new();
                for i in 0..vs.len()
                    invariant
                        *self == ConfigValue::Array(*vs),
                        values_view(out@) == values_view(vs@.take(i as int)),
                {
                    proof {
                        broadcast use vstd::std_specs::vec::group_vec_axioms;
                        assert(decreases_to!(*self => (*self)->Array_0));
                        assert(decreases_to!(*vs => vs[i as int]));
                        assert(decreases_to!(*self => vs[i as int]));
                    }
                    let c = vs[i].copy();
                    let ghost before = out@;
                    out.push(c);
                    assert(out@.drop_last() == before);
                    assert(vs@.take(i + 1).drop_last() =~= vs@.take(i as int));
                }
                assert(vs@.take(vs.len() as int) =~= vs@);
                ConfigValue::Array(out)
            },
            ConfigValue::Object(es) => {
                let mut out: Vec<(String, ConfigValue)> = Vec::new();
                for i in 0..es.len()
                    invariant
                        *self == ConfigValue::Object(*es),
                        entries_view(out@) == entries_view(es@.take(i as int)),
                {
                    proof {
                        broadcast use vstd::std_specs::vec::group_vec_axioms;
                        assert(decreases_to!(*self => (*self)->Object_0));
                        assert(decreases_to!(*es => es[i as int]));
                        assert(decreases_to!(es[i as int] => es[i as int].1));
                        assert(decreases_to!(*self => es[i as int].1));
                    }
                    let c = es[i].1.copy();
                    let ghost before = out@;
                    out.push((es[i].0.clone(), c));
                    assert(out@.drop_last() == before);
                    assert(es@.take(i + 1).drop_last() =~= es@.take(i as int));
                }
                assert(es@.take(es.len() as int) =~= es@);
                ConfigValue::Object(out)
            },
        }
    }

    /// The value stored under `key` when this is an object.
    pub fn get(&self, key: &str) -> (r: Option<&ConfigValue>)
        ensures
            match r {
                Some(v) => get_spec(*self, key@) == Some(*v),
                None => get_spec(*self, key@) is None,
            },
    {
        match self {
            ConfigValue::Object(entries) => lookup_entry(entries, key),
            _ => None,
        }
    }

    /// The number, when this is a whole number that is zero or more.
    pub fn as_u64(&self) -> (r: Option<u64>)
        ensures
            r == (match *self {
                ConfigValue::UInt(n) => Some(n),
                _ => None::<u64>,
            }),
    {
        match self {
            ConfigValue::UInt(n) => Some(*n),
            _ => None,
        }
    }

    /// The text, when this is a piece of text.
    pub fn as_str(&self) -> (r: Option<&str>)
        ensures
            match *self {
                ConfigValue::Str(s) => r matches Some(t) && t@ == s@,
                _ => r is None,
            },
    {
        match self {
            ConfigValue::Str(s) => Some(s.as_str()),
            _ => None,
        }
    }
}

/// Everything a check may consult besides the files it checks.
pub struct Context {
    /// Whether checks must not use the network.
    pub skip_network: bool,
    /// How long a network request may take, in seconds.
    pub network_timeout: Option<u64>,
    /// The configuration of each check, by check identifier.
    pub configuration: Vec<(String, ConfigValue)>,
    /// Whether lists in messages are given in full.
    pub full_lists: bool,
}

/// The configuration of one check, or none.
pub open spec fn local_config_spec(ctx: Context, check_id: Seq<char>) -> ConfigValue {
    match lookup(ctx.configuration@, check_id) {
        Some(v) => v,
        None => ConfigValue::Null,
    }
}

impl Context {
    /// A context with no configuration, network allowed, lists abbreviated.
    pub fn new() -> (c: Context)
        ensures
            c.configuration@.len() == 0,
            !c.skip_network,
            !c.full_lists,
            c.network_timeout is None,
    {
        Context {
            skip_network: false,
            network_timeout: None,
            configuration: Vec::new(),
            full_lists: false,
        }
    }

    /// The configuration of the check `check_id`; an absent configuration is `Null`.
    pub fn local_config(&self, check_id: &str) -> (r: &ConfigValue)
        ensures
            *r == local_config_spec(*self, check_id@),
    {
        match lookup_entry(&self.configuration, check_id) {
            Some(v) => v,
            None => &ConfigValue::Null,
        }
    }
}

} // verus!
