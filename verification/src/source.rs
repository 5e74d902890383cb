//! Helpers for fixing font sources: custom parameters of a Glyphs source.
use vstd::prelude::*;
use crate::status::CheckError;
use crate::text::str_eq;
use vstd::std_specs::cmp::PartialEqSpec;

verus! {

/// A custom parameter of a Glyphs source: its name, its value and whether it is disabled.
pub struct CustomParameter<V> {
    pub name: String,
    pub value: V,
    pub disabled: bool,
}

/// The position of the first parameter with the given name, from position `i` on.
pub open spec fn first_with_name<V>(cps: Seq<CustomParameter<V>>, name: Seq<char>, i: int) -> Option<int>
    decreases cps.len() - i,
{
    if i < 0 || i >= cps.len() {
        None
    } else if cps[i].name@ == name {
        Some(i)
    } else {
        first_with_name(cps, name, i + 1)
    }
}

/// Sets the custom parameter of the given name to `value`, or adds it (enabled) when there is
/// none: whether the parameters changed. Only the first parameter of that name is looked at.
pub fn find_or_add_cp<V: PartialEq>(cps: &mut Vec<CustomParameter<V>>, name: &str, value: V) -> (r: Result<bool, CheckError>)
    ensures
        match first_with_name(old(cps)@, name@, 0) {
            Some(k) => V::obeys_eq_spec() ==> if old(cps)@[k].value.eq_spec(&value) {
                &&& r == Ok::<bool, CheckError>(false)
                &&& final(cps)@ == old(cps)@
            } else {
                &&& r == Ok::<bool, CheckError>(true)
                &&& final(cps)@.len() == old(cps)@.len()
                &&& forall|j: int| 0 <= j < old(cps)@.len() && j != k ==> final(cps)@[j] == old(cps)@[j]
                &&& final(cps)@[k].name == old(cps)@[k].name
                &&& final(cps)@[k].disabled == old(cps)@[k].disabled
                &&& final(cps)@[k].value == value
            },
            None => {
                &&& r == Ok::<bool, CheckError>(true)
                &&& final(cps)@.len() == old(cps)@.len() + 1
                &&& forall|j: int| 0 <= j < old(cps)@.len() ==> final(cps)@[j] == old(cps)@[j]
                &&& final(cps)@.last().name@ == name@
                &&& final(cps)@.last().value == value
                &&& !final(cps)@.last().disabled
            },
        },
{
    let mut i: usize = 0;
    while i < cps.len()
        invariant
            i <= cps.len(),
            cps@ == old(cps)@,
            first_with_name(old(cps)@, name@, 0) == first_with_name(old(cps)@, name@, i as int),
        decreases cps.len() - i,
    {
        if str_eq(cps[i].name.as_str(), name) {
            if cps[i].value == value {
                return Ok(false);
            }
            let old_cp = cps.remove(i);
            let CustomParameter { name: n, value: _, disabled } = old_cp;
            cps.insert(i, CustomParameter { name: n, value, disabled });
            return Ok(true);
        }
        i = i + 1;
    }
    cps.push(CustomParameter { name: String::from_str(name), value, disabled: false });
    Ok(true)
}

} // verus!
