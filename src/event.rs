//! Inbound events as plain values, and first-match tag lookup.
use vstd::prelude::*;

verus! {

/// An event as delivered by the relay network: its kind and its tags, each
/// tag a list of strings whose first element names it.
pub struct Event {
    pub kind: u64,
    pub tags: Vec<Vec<String>>,
}

/// The tag is named `key`.
pub open spec fn has_key(tag: Vec<String>, key: Seq<char>) -> bool {
    tag@.len() > 0 && tag@[0]@ == key
}

/// Position `i` holds the first tag named `key`.
pub open spec fn is_first_with_key(tags: Seq<Vec<String>>, key: Seq<char>, i: int) -> bool {
    &&& 0 <= i < tags.len()
    &&& has_key(tags[i], key)
    &&& forall|j: int| 0 <= j < i ==> !has_key(#[trigger] tags[j], key)
}

/// The values (everything after the name) of the first tag named `key`,
/// if there is one.
pub open spec fn first_tag_values(tags: Seq<Vec<String>>, key: Seq<char>) -> Option<Seq<String>> {
    if exists|i: int| is_first_with_key(tags, key, i) {
        let i = choose|i: int| is_first_with_key(tags, key, i);
        Some(tags[i]@.subrange(1, tags[i]@.len() as int))
    } else {
        None
    }
}

/// At most one position holds the first tag named `key`.
pub proof fn lemma_first_unique(tags: Seq<Vec<String>>, key: Seq<char>, i: int, j: int)
    requires
        is_first_with_key(tags, key, i),
        is_first_with_key(tags, key, j),
    ensures
        i == j,
{
    if i < j {
        assert(!has_key(tags[i], key));
    } else if j < i {
        assert(!has_key(tags[j], key));
    }
}

/// Finds the first tag named `key`.
pub fn find_tag(tags: &Vec<Vec<String>>, key: &String) -> (r: Option<usize>)
    ensures
        match r {
            Some(i) => is_first_with_key(tags@, key@, i as int),
            None => forall|j: int| 0 <= j < tags@.len() ==> !has_key(#[trigger] tags@[j], key@),
        },
{
    let mut i: usize = 0;
    while i < tags.len()
        invariant
            i <= tags@.len(),
            forall|j: int| 0 <= j < i ==> !has_key(#[trigger] tags@[j], key@),
        decreases tags@.len() - i,
    {
        let tag = &tags[i];
        if tag.len() > 0 && tag[0] == *key {
            return Some(i);
        }
        i = i + 1;
    }
    None
}

/// What `find_tag` reports determines `first_tag_values`: the values of
/// the tag it found, or none.
pub proof fn lemma_found_values(tags: Seq<Vec<String>>, key: Seq<char>, found: Option<usize>)
    requires
        match found {
            Some(i) => is_first_with_key(tags, key, i as int),
            None => forall|j: int| 0 <= j < tags.len() ==> !has_key(#[trigger] tags[j], key),
        },
    ensures
        match found {
            Some(i) => first_tag_values(tags, key) == Some(
                tags[i as int]@.subrange(1, tags[i as int]@.len() as int),
            ),
            None => first_tag_values(tags, key) is None,
        },
{
    match found {
        Some(i) => {
            let c = choose|c: int| is_first_with_key(tags, key, c);
            lemma_first_unique(tags, key, i as int, c);
        },
        None => {
            if exists|i: int| is_first_with_key(tags, key, i) {
                let c = choose|c: int| is_first_with_key(tags, key, c);
                assert(has_key(tags[c], key));
            }
        },
    }
}

} // verus!
