//! The metadata of a user: JSON objects that are read and changed key by key.

use crate::value::{str_view, Json, Object, Value};
use vstd::prelude::*;

verus! {

/// The text under `key`; nothing where there is none, or no string.
pub fn metadata_str<'a>(metadata: &'a Value, key: &str) -> (text: Option<&'a str>)
    ensures
        str_view(text) == metadata@.text_at(key@),
{
    match metadata.get(key) {
        Some(member) => member.as_str(),
        None => None,
    }
}

/// The text under `key` of a row, and the empty text where there is none.
pub open spec fn text_or_empty(row: Json, key: Seq<char>) -> Seq<char> {
    match row.text_at(key) {
        Some(text) => text,
        None => Seq::empty(),
    }
}

/// The text under `key` of a row, and the empty text where there is none.
pub fn value_str<'a>(row: &'a Value, key: &str) -> (text: &'a str)
    ensures
        text@ == text_or_empty(row@, key@),
{
    match metadata_str(row, key) {
        Some(text) => text,
        None => {
            proof {
                reveal_strlit("");
                assert(""@ =~= Seq::<char>::empty());
            }
            ""
        },
    }
}

/// The members of `base`, each replaced by what `changes` has under its key, and those of
/// `changes` besides; a null in `changes` changes nothing.
pub open spec fn overlaid(
    base: Map<Seq<char>, Json>,
    changes: Map<Seq<char>, Json>,
) -> Map<Seq<char>, Json> {
    Map::new(
        |key: Seq<char>| base.contains_key(key) || changed(changes, key),
        |key: Seq<char>|
            if changed(changes, key) {
                changes[key]
            } else {
                base[key]
            },
    )
}

/// There is something other than null under the key.
pub open spec fn changed(changes: Map<Seq<char>, Json>, key: Seq<char>) -> bool {
    changes.contains_key(key) && !(changes[key] is Null)
}

/// What becomes of `target` when `patch` is merged into it.
pub open spec fn merged(target: Json, patch: Json) -> Json {
    Json::Object(overlaid(target.members(), patch.members()))
}

/// The members of `changes` whose keys are among the first of `keys`.
spec fn among_first(
    changes: Map<Seq<char>, Json>,
    keys: Seq<Seq<char>>,
    count: int,
) -> Map<Seq<char>, Json> {
    changes.restrict(Set::new(|key: Seq<char>| keys.take(count).contains(key)))
}

/// Writes the members of `patch` over those of `target`, except for nulls. A target that is no
/// object is an empty one from then on.
pub fn merge_metadata(target: &mut Value, patch: Value)
    ensures
        final(target)@ == merged(old(target)@, patch@),
{
    let mut before = Value::Null;
    std::mem::swap(target, &mut before);
    let mut object = match before {
        Value::Object(object) => object,
        _ => Object::new(),
    };
    let ghost base = object@;
    assert(base == old(target)@.members());
    if let Value::Object(changes) = patch {
        let count = changes.len();
        for i in 0..count
            invariant
                count == changes.keys().len(),
                changes.keys().no_duplicates(),
                object@ == overlaid(base, among_first(changes@, changes.keys(), i as int)),
        {
            let ghost keys = changes.keys();
            let ghost done = object@;
            let (key, value) = changes.entry(i);
            proof {
                assert(keys.take(i + 1) == keys.take(i as int).push(keys[i as int]));
                assert forall|k: Seq<char>| #[trigger]
                    keys.take(i + 1).contains(k) <==> (keys.take(i as int).contains(k) || k
                        == keys[i as int]) by {
                    if keys.take(i as int).contains(k) {
                        let j = choose|j: int|
                            0 <= j < keys.take(i as int).len() && keys.take(i as int)[j] == k;
                        assert(keys.take(i + 1)[j] == k);
                    }
                    if k == keys[i as int] {
                        assert(keys.take(i + 1)[i as int] == k);
                    }
                }
            }
            if !value.is_null() {
                object = object.insert(key, value.clone());
            }
            proof {
                let earlier = among_first(changes@, keys, i as int);
                let now = among_first(changes@, keys, i + 1);
                assert forall|k: Seq<char>| #[trigger]
                    changed(now, k) <==> (changed(earlier, k) || (k == key@ && !(
                    changes@[k] is Null))) by {
                    assert(keys.take(i + 1).contains(k) <==> (keys.take(i as int).contains(k) || k
                        == keys[i as int]));
                }
                assert(!keys.take(i as int).contains(key@));
                assert(object@ =~= overlaid(base, now));
            }
        }
        proof {
            let keys = changes.keys();
            assert(keys.take(count as int) == keys);
            assert(among_first(changes@, keys, count as int) =~= changes@);
        }
    } else {
        assert(object@ =~= overlaid(base, Map::empty()));
    }
    *target = Value::Object(object);
}

/// What becomes of `metadata` when `value` is put under `key`.
pub open spec fn with_member(metadata: Json, key: Seq<char>, value: Json) -> Json {
    Json::Object(metadata.members().insert(key, value))
}

/// Puts `value` under `key`. Metadata that is no object is an empty one first.
pub fn set_metadata(metadata: &mut Value, key: &str, value: Value)
    ensures
        final(metadata)@ == with_member(old(metadata)@, key@, value@),
{
    let mut before = Value::Null;
    std::mem::swap(metadata, &mut before);
    let object = match before {
        Value::Object(object) => object,
        _ => Object::new(),
    };
    *metadata = Value::Object(object.insert(key, value));
}

} // verus!
