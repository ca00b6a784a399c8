use vstd::prelude::*;

verus! {

/// Whether `i` is the first position of `s` that holds `true`.
pub open spec fn is_first_true(s: Seq<bool>, i: int) -> bool {
    &&& 0 <= i < s.len()
    &&& s[i]
    &&& forall|j: int| 0 <= j < i ==> !s[j]
}

/// The first position that holds `true`, if any.
pub fn first_true(v: &Vec<bool>) -> (r: Option<usize>)
    ensures
        match r {
            Some(i) => is_first_true(v@, i as int),
            None => forall|j: int| 0 <= j < v@.len() ==> !v@[j],
        },
{
    let mut i: usize = 0;
    while i < v.len()
        invariant
            i <= v@.len(),
            forall|j: int| 0 <= j < i ==> !v@[j],
        decreases v@.len() - i,
    {
        if v[i] {
            return Some(i);
        }
        i = i + 1;
    }
    None
}

/// Whether some string of `names` holds exactly the characters of `name`.
pub open spec fn names_contain(names: Seq<String>, name: Seq<char>) -> bool {
    exists|i: int| 0 <= i < names.len() && names[i]@ == name
}

/// Whether `names` holds the given name.
pub fn contains_name(names: &Vec<String>, name: &str) -> (r: bool)
    ensures
        r == names_contain(names@, name@),
{
    let wanted = name.to_owned();
    let mut i: usize = 0;
    while i < names.len()
        invariant
            i <= names@.len(),
            wanted@ == name@,
            forall|j: int| 0 <= j < i ==> names@[j]@ != name@,
        decreases names@.len() - i,
    {
        if names[i] == wanted {
            return true;
        }
        i = i + 1;
    }
    false
}

/// Whether every required name occurs among the available ones.
pub fn contains_all(available: &Vec<String>, required: &Vec<String>) -> (r: bool)
    ensures
        r == forall|j: int| 0 <= j < required@.len() ==> names_contain(available@, required@[j]@),
{
    let mut j: usize = 0;
    while j < required.len()
        invariant
            j <= required@.len(),
            forall|k: int| 0 <= k < j ==> names_contain(available@, required@[k]@),
        decreases required@.len() - j,
    {
        if !contains_name(available, required[j].as_str()) {
            return false;
        }
        j = j + 1;
    }
    true
}

} // verus!
