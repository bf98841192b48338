//! JSON values: the data that metadata, rows and response bodies are made of.

use vstd::prelude::*;

verus! {

/// A JSON number.
///
/// `PosInt` is a number from zero up, `NegInt` one below zero, and `Float` holds the
/// IEEE 754 bit pattern of a double.
#[derive(Clone, Copy, Debug, PartialEq, Eq, Structural)]
pub enum Number {
    PosInt(u64),
    NegInt(i64),
    Float(u64),
}

/// A JSON value.
#[derive(Debug)]
pub enum Value {
    Null,
    Bool(bool),
    Number(Number),
    String(String),
    Array(Vec<Value>),
    Object(Object),
}

/// A JSON object: each key occurs once, and keys keep the order they came in.
#[derive(Debug)]
pub struct Object {
    entries: Vec<(String, Value)>,
}

/// What a [`Value`] stands for.
pub enum Json {
    Null,
    Bool(bool),
    Number(Number),
    String(Seq<char>),
    Array(Seq<Json>),
    Object(Map<Seq<char>, Json>),
}

impl Json {
    /// The member under `key`; nothing where this is no object or has no such key.
    pub open spec fn get(self, key: Seq<char>) -> Option<Json> {
        match self {
            Json::Object(map) => if map.contains_key(key) {
                Some(map[key])
            } else {
                None
            },
            _ => None,
        }
    }

    /// The text of a string; nothing for any other value.
    pub open spec fn as_str(self) -> Option<Seq<char>> {
        match self {
            Json::String(text) => Some(text),
            _ => None,
        }
    }

    /// The text under `key`; nothing where there is none, or no string.
    pub open spec fn text_at(self, key: Seq<char>) -> Option<Seq<char>> {
        match self.get(key) {
            Some(member) => member.as_str(),
            None => None,
        }
    }

    /// The member under `key`, with null for a missing one.
    pub open spec fn get_or_null(self, key: Seq<char>) -> Json {
        match self.get(key) {
            Some(member) => member,
            None => Json::Null,
        }
    }

    /// The members of an object; none for any other value.
    pub open spec fn members(self) -> Map<Seq<char>, Json> {
        match self {
            Json::Object(map) => map,
            _ => Map::empty(),
        }
    }
}

/// A string where there is text, null where there is none.
pub open spec fn text_or_null(text: Option<Seq<char>>) -> Json {
    match text {
        Some(text) => Json::String(text),
        None => Json::Null,
    }
}

/// The text that an optional string slice holds.
pub open spec fn str_view(text: Option<&str>) -> Option<Seq<char>> {
    match text {
        Some(text) => Some(text@),
        None => None,
    }
}

/// The text that an optional string holds.
pub open spec fn string_view(text: Option<String>) -> Option<Seq<char>> {
    match text {
        Some(text) => Some(text@),
        None => None,
    }
}

/// The value that an optional reference points at.
pub open spec fn value_view(value: Option<&Value>) -> Option<Json> {
    match value {
        Some(value) => Some(value@),
        None => None,
    }
}

/// What a list of values stands for, one by one.
pub open spec fn json_list(values: Seq<Value>) -> Seq<Json>
    decreases values,
{
    if values.len() == 0 {
        Seq::empty()
    } else {
        json_list(values.drop_last()).push(values.last().json())
    }
}

/// What a list of entries stands for: of two entries under one key the later one counts.
pub open spec fn json_members(entries: Seq<(String, Value)>) -> Map<Seq<char>, Json>
    decreases entries,
{
    if entries.len() == 0 {
        Map::empty()
    } else {
        json_members(entries.drop_last()).insert(entries.last().0@, entries.last().1.json())
    }
}

/// No two entries have the same key.
pub open spec fn distinct_keys(entries: Seq<(String, Value)>) -> bool {
    forall|i: int, j: int|
        #![trigger entries[i], entries[j]]
        0 <= i < j < entries.len() ==> entries[i].0@ != entries[j].0@
}

impl Value {
    pub open spec fn json(self) -> Json
        decreases self,
    {
        match self {
            Value::Null => Json::Null,
            Value::Bool(value) => Json::Bool(value),
            Value::Number(number) => Json::Number(number),
            Value::String(text) => Json::String(text@),
            Value::Array(values) => Json::Array(json_list(values@)),
            Value::Object(object) => Json::Object(object.members()),
        }
    }
}

impl Object {
    pub closed spec fn members(self) -> Map<Seq<char>, Json>
        decreases self,
    {
        json_members(self.entries@)
    }

    #[verifier::type_invariant]
    spec fn keys_once(self) -> bool {
        distinct_keys(self.entries@)
    }
}

impl View for Value {
    type V = Json;

    open spec fn view(&self) -> Json {
        self.json()
    }
}

impl View for Object {
    type V = Map<Seq<char>, Json>;

    open spec fn view(&self) -> Map<Seq<char>, Json> {
        self.members()
    }
}

/// Each value of a list stands for the value at the same place.
pub proof fn lemma_json_list(values: Seq<Value>)
    ensures
        json_list(values).len() == values.len(),
        forall|i: int| 0 <= i < values.len() ==> json_list(values)[i] == (#[trigger] values[i])@,
    decreases values.len(),
{
    if values.len() > 0 {
        let front = values.drop_last();
        lemma_json_list(front);
        assert forall|i: int| 0 <= i < values.len() implies json_list(values)[i]
            == #[trigger] values[i]@ by {
            if i < front.len() {
                assert(front[i] == values[i]);
            }
        }
    }
}

/// A key that no entry has is no member.
proof fn lemma_absent(entries: Seq<(String, Value)>, key: Seq<char>)
    requires
        forall|i: int| 0 <= i < entries.len() ==> (#[trigger] entries[i]).0@ != key,
    ensures
        !json_members(entries).contains_key(key),
    decreases entries.len(),
{
    if entries.len() > 0 {
        let front = entries.drop_last();
        assert forall|i: int| 0 <= i < front.len() implies (#[trigger] front[i]).0@ != key by {
            assert(front[i] == entries[i]);
        }
        lemma_absent(front, key);
    }
}

/// The entry that has a key is the member under it.
proof fn lemma_present(entries: Seq<(String, Value)>, at: int)
    requires
        distinct_keys(entries),
        0 <= at < entries.len(),
    ensures
        json_members(entries).contains_key(entries[at].0@),
        json_members(entries)[entries[at].0@] == entries[at].1@,
    decreases entries.len(),
{
    if at < entries.len() - 1 {
        let front = entries.drop_last();
        lemma_present(front, at);
        assert(entries[at].0@ != entries.last().0@);
    }
}

/// To change the value of an entry is to change the member under its key.
proof fn lemma_replace(entries: Seq<(String, Value)>, at: int, entry: (String, Value))
    requires
        distinct_keys(entries),
        0 <= at < entries.len(),
        entry.0@ == entries[at].0@,
    ensures
        json_members(entries.update(at, entry)) == json_members(entries).insert(
            entry.0@,
            entry.1@,
        ),
        distinct_keys(entries.update(at, entry)),
    decreases entries.len(),
{
    let changed = entries.update(at, entry);
    let front = entries.drop_last();
    assert forall|i: int, j: int|
        #![trigger changed[i], changed[j]]
        0 <= i < j < changed.len() implies changed[i].0@ != changed[j].0@ by {
        assert(entries[i].0@ != entries[j].0@);
    }
    if at < front.len() {
        lemma_replace(front, at, entry);
        assert(changed.drop_last() == front.update(at, entry));
        assert(entries[at].0@ != entries.last().0@);
        assert(json_members(changed) =~= json_members(entries).insert(entry.0@, entry.1@));
    } else {
        assert(changed.drop_last() == front);
        assert(json_members(changed) =~= json_members(entries).insert(entry.0@, entry.1@));
    }
}

impl Value {
    /// A string value.
    pub fn text(text: &str) -> (value: Value)
        ensures
            value@ == Json::String(text@),
    {
        Value::String(text.to_owned())
    }

    /// A string value, or null where there is no text.
    pub fn text_or_null(text: Option<&str>) -> (value: Value)
        ensures
            value@ == text_or_null(str_view(text)),
    {
        match text {
            Some(text) => Value::text(text),
            None => Value::Null,
        }
    }

    /// The member under `key`; nothing where this is no object or has no such key.
    pub fn get(&self, key: &str) -> (member: Option<&Value>)
        ensures
            value_view(member) == self@.get(key@),
    {
        match self {
            Value::Object(object) => object.get(key),
            _ => None,
        }
    }

    /// The text of a string; nothing for any other value.
    pub fn as_str(&self) -> (text: Option<&str>)
        ensures
            str_view(text) == self@.as_str(),
    {
        match self {
            Value::String(text) => Some(text.as_str()),
            _ => None,
        }
    }

    /// Whether this is null.
    pub fn is_null(&self) -> (null: bool)
        ensures
            null == (self@ is Null),
    {
        match self {
            Value::Null => true,
            _ => false,
        }
    }

    /// A copy of the member under `key`, with null for a missing one.
    pub fn get_or_null(&self, key: &str) -> (member: Value)
        ensures
            member@ == self@.get_or_null(key@),
    {
        match self.get(key) {
            Some(member) => member.clone(),
            None => Value::Null,
        }
    }
}

impl Object {
    /// The keys, in the order they came in.
    pub closed spec fn keys(self) -> Seq<Seq<char>> {
        Seq::new(self.entries@.len(), |i: int| self.entries@[i].0@)
    }

    /// An object without members.
    pub fn new() -> (object: Object)
        ensures
            object@ == Map::<Seq<char>, Json>::empty(),
    {
        Object { entries: Vec::new() }
    }

    /// Where the entry under `key` is, and the number of entries if there is none.
    fn position(&self, key: &str) -> (at: usize)
        ensures
            at <= self.entries@.len(),
            at < self.entries@.len() ==> self.entries@[at as int].0@ == key@,
            at == self.entries@.len() ==> forall|i: int|
                0 <= i < self.entries@.len() ==> (#[trigger] self.entries@[i]).0@ != key@,
    {
        let wanted = key.to_owned();
        let mut at: usize = 0;
        while at < self.entries.len()
            invariant
                at <= self.entries@.len(),
                wanted@ == key@,
                forall|i: int| 0 <= i < at ==> (#[trigger] self.entries@[i]).0@ != key@,
            decreases self.entries@.len() - at,
        {
            if self.entries[at].0 == wanted {
                return at;
            }
            at = at + 1;
        }
        at
    }

    /// The member under `key`.
    pub fn get(&self, key: &str) -> (member: Option<&Value>)
        ensures
            value_view(member) == Json::Object(self@).get(key@),
    {
        proof {
            use_type_invariant(self);
        }
        let at = self.position(key);
        if at < self.entries.len() {
            proof {
                lemma_present(self.entries@, at as int);
            }
            Some(&self.entries[at].1)
        } else {
            proof {
                lemma_absent(self.entries@, key@);
            }
            None
        }
    }

    /// This object with `value` under `key`, in place of what was there.
    pub fn insert(self, key: &str, value: Value) -> (object: Object)
        ensures
            object@ == self@.insert(key@, value@),
    {
        proof {
            use_type_invariant(&self);
        }
        let at = self.position(key);
        let mut entries = self.entries;
        let entry = (key.to_owned(), value);
        if at < entries.len() {
            proof {
                lemma_replace(entries@, at as int, entry);
            }
            entries.set(at, entry);
        } else {
            proof {
                assert(entries@.push(entry).drop_last() == entries@);
            }
            entries.push(entry);
        }
        Object { entries }
    }

    /// The number of members.
    pub fn len(&self) -> (count: usize)
        ensures
            count == self.keys().len(),
            self.keys().no_duplicates(),
            forall|key: Seq<char>|
                #[trigger] self@.contains_key(key) <==> self.keys().contains(key),
    {
        proof {
            use_type_invariant(self);
            let keys = self.keys();
            assert forall|i: int, j: int|
                0 <= i < keys.len() && 0 <= j < keys.len() && i != j implies keys[i]
                != keys[j] by {
                if i < j {
                    assert(self.entries@[i].0@ != self.entries@[j].0@);
                } else {
                    assert(self.entries@[j].0@ != self.entries@[i].0@);
                }
            }
            assert forall|key: Seq<char>| #[trigger]
                self@.contains_key(key) <==> keys.contains(key) by {
                if keys.contains(key) {
                    let i = choose|i: int| 0 <= i < keys.len() && keys[i] == key;
                    lemma_present(self.entries@, i);
                } else {
                    assert forall|i: int| 0 <= i < self.entries@.len() implies (
                    #[trigger] self.entries@[i]).0@ != key by {
                        assert(keys[i] == self.entries@[i].0@);
                    }
                    lemma_absent(self.entries@, key);
                }
            }
        }
        self.entries.len()
    }

    /// The key and the value of the member at a place.
    pub fn entry(&self, at: usize) -> (entry: (&str, &Value))
        requires
            at < self.keys().len(),
        ensures
            entry.0@ == self.keys()[at as int],
            self@.contains_key(entry.0@),
            entry.1@ == self@[entry.0@],
    {
        proof {
            use_type_invariant(self);
            lemma_present(self.entries@, at as int);
        }
        (self.entries[at].0.as_str(), &self.entries[at].1)
    }
}

impl Clone for Object {
    fn clone(&self) -> (copy: Object)
        ensures
            copy@ == self@,
        decreases self,
    {
        proof {
            use_type_invariant(self);
        }
        let mut entries: Vec<(String, Value)> = Vec::new();
        for i in 0..self.entries.len()
            invariant
                distinct_keys(self.entries@),
                entries@.len() == i,
                forall|j: int|
                    0 <= j < i ==> (#[trigger] entries@[j]).0@ == self.entries@[j].0@,
                json_members(entries@) == json_members(self.entries@.take(i as int)),
        {
            let key = self.entries[i].0.clone();
            let value = self.entries[i].1.clone();
            let ghost before = entries@;
            entries.push((key, value));
            proof {
                assert(entries@.drop_last() == before);
                assert(self.entries@.take(i + 1).drop_last() == self.entries@.take(i as int));
            }
        }
        proof {
            assert(self.entries@.take(self.entries@.len() as int) == self.entries@);
            assert(distinct_keys(entries@)) by {
                assert forall|i: int, j: int|
                    #![trigger entries@[i], entries@[j]]
                    0 <= i < j < entries@.len() implies entries@[i].0@ != entries@[j].0@ by {
                    assert(self.entries@[i].0@ != self.entries@[j].0@);
                }
            }
        }
        Object { entries }
    }
}

impl Clone for Value {
    fn clone(&self) -> (copy: Value)
        ensures
            copy@ == self@,
        decreases self,
    {
        match self {
            Value::Null => Value::Null,
            Value::Bool(value) => Value::Bool(*value),
            Value::Number(number) => Value::Number(*number),
            Value::String(text) => Value::String(text.clone()),
            Value::Array(values) => {
                let mut copies: Vec<Value> = Vec::new();
                for i in 0..values.len()
                    invariant
                        *self == Value::Array(*values),
                        copies@.len() == i,
                        json_list(copies@) == json_list(values@.take(i as int)),
                {
                    assert(decreases_to!(*self => self->Array_0));
                    let copy = values[i].clone();
                    let ghost before = copies@;
                    copies.push(copy);
                    proof {
                        assert(copies@.drop_last() == before);
                        assert(values@.take(i + 1).drop_last() == values@.take(i as int));
                    }
                }
                proof {
                    assert(values@.take(values@.len() as int) == values@);
                }
                Value::Array(copies)
            },
            Value::Object(object) => Value::Object(object.clone()),
        }
    }
}

} // verus!
