use vstd::prelude::*;

verus! {

/// A JSON value as the engine reads and builds it.
///
/// Integers that fit in `i64` are `Int`; every other number keeps its
/// decimal text in `Decimal`.
#[derive(Debug, PartialEq)]
pub enum Json {
    Null,
    Bool(bool),
    Int(i64),
    Decimal(String),
    Text(String),
    Array(Vec<Json>),
    Object(Vec<(String, Json)>),
}

/// Some member of `f` is named `key`.
pub open spec fn has_key(f: Seq<(String, Json)>, key: Seq<char>) -> bool {
    exists|i: int| 0 <= i < f.len() && #[trigger] f[i].0@ == key
}

/// `i` is the position of the first member of `f` named `key`.
pub open spec fn is_first_key(f: Seq<(String, Json)>, key: Seq<char>, i: int) -> bool {
    &&& 0 <= i < f.len()
    &&& f[i].0@ == key
    &&& forall|j: int| 0 <= j < i ==> #[trigger] f[j].0@ != key
}

pub open spec fn first_key(f: Seq<(String, Json)>, key: Seq<char>) -> int {
    choose|i: int| is_first_key(f, key, i)
}

/// The value of the first member of an object named `key`, if any.
pub open spec fn member(f: Seq<(String, Json)>, key: Seq<char>) -> Option<Json> {
    if has_key(f, key) {
        Some(f[first_key(f, key)].1)
    } else {
        None
    }
}

pub proof fn lemma_first_key_unique(f: Seq<(String, Json)>, key: Seq<char>, i: int)
    requires
        is_first_key(f, key, i),
    ensures
        first_key(f, key) == i,
        has_key(f, key),
        member(f, key) == Some(f[i].1),
{
    let k = first_key(f, key);
    assert(is_first_key(f, key, k));
    if k < i {
        assert(f[k].0@ != key);
    } else if k > i {
        assert(f[i].0@ != key);
    }
}

/// Position of the first member of `fields` named `key`.
pub fn find_key(fields: &Vec<(String, Json)>, key: &String) -> (r: Option<usize>)
    ensures
        match r {
            Some(i) => is_first_key(fields@, key@, i as int) && member(fields@, key@) == Some(
                fields@[i as int].1,
            ),
            None => !has_key(fields@, key@) && member(fields@, key@) is None,
        },
{
    let mut i: usize = 0;
    while i < fields.len()
        invariant
            0 <= i <= fields@.len(),
            forall|j: int| 0 <= j < i ==> #[trigger] fields@[j].0@ != key@,
        decreases fields.len() - i,
    {
        if fields[i].0 == *key {
            proof {
                lemma_first_key_unique(fields@, key@, i as int);
            }
            return Some(i);
        }
        i += 1;
    }
    None
}

} // verus!
