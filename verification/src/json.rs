//! A JSON document as the webhook handlers read it, and the field
//! extraction that turns a missing or mistyped field into an error message.

use vstd::prelude::*;

verus! {

/// A JSON value.
///
/// An object keeps its members in order; a member is found by the first
/// key that matches.  A number is held as the bit pattern of its IEEE-754
/// double value (what a JSON reader yields as the number's `f64`): the
/// library only passes numbers on, it never computes with them.
#[derive(Debug)]
pub enum JsonValue {
    Null,
    Bool(bool),
    Number(u64),
    Str(String),
    Array(Vec<JsonValue>),
    Object(Vec<(String, JsonValue)>),
}

/// The message for a value that should be an object and is not.
pub open spec fn not_an_object() -> Seq<char> {
    "Not an object"@
}

/// The message for a key that an object lacks.
pub open spec fn value_not_found() -> Seq<char> {
    "Value not found"@
}

/// The message for a value that should be a string (or a number) and is not.
pub open spec fn not_a_string() -> Seq<char> {
    "Not a string"@
}

/// The value of the first member of `members` whose key is `key`.
pub open spec fn lookup(members: Seq<(String, JsonValue)>, key: Seq<char>) -> Option<JsonValue>
    decreases members.len(),
{
    if members.len() == 0 {
        None
    } else if members[0].0@ == key {
        Some(members[0].1)
    } else {
        lookup(members.drop_first(), key)
    }
}

/// What `get` gives: the member `key` of an object.
pub open spec fn spec_get(v: JsonValue, key: Seq<char>) -> Option<JsonValue> {
    match v {
        JsonValue::Object(members) => lookup(members@, key),
        _ => None,
    }
}

/// What `extract_object_key` gives: the member `name` of an object.
pub open spec fn spec_extract_object_key(v: JsonValue, name: Seq<char>) -> Result<
    JsonValue,
    Seq<char>,
> {
    match v {
        JsonValue::Object(members) => match lookup(members@, name) {
            Some(x) => Ok(x),
            None => Err(value_not_found()),
        },
        _ => Err(not_an_object()),
    }
}

/// What `extract_str` gives: the text of a string.
pub open spec fn spec_extract_str(v: JsonValue) -> Result<Seq<char>, Seq<char>> {
    match v {
        JsonValue::Str(s) => Ok(s@),
        _ => Err(not_a_string()),
    }
}

/// What `extract_obj` gives: the members of an object.
pub open spec fn spec_extract_obj(v: JsonValue) -> Result<Seq<(String, JsonValue)>, Seq<char>> {
    match v {
        JsonValue::Object(members) => Ok(members@),
        _ => Err(not_an_object()),
    }
}

/// What `extract_f64` gives: the (bit pattern of the) number.
pub open spec fn spec_extract_f64(v: JsonValue) -> Result<u64, Seq<char>> {
    match v {
        JsonValue::Number(bits) => Ok(bits),
        _ => Err(not_a_string()),
    }
}

/// What `extract_object_str` gives: the member `name`, as a string.
pub open spec fn spec_extract_object_str(v: JsonValue, name: Seq<char>) -> Result<
    Seq<char>,
    Seq<char>,
> {
    match spec_extract_object_key(v, name) {
        Ok(x) => spec_extract_str(x),
        Err(m) => Err(m),
    }
}

/// What `extract_object_obj` gives: the member `name`, as an object.
pub open spec fn spec_extract_object_obj(v: JsonValue, name: Seq<char>) -> Result<
    Seq<(String, JsonValue)>,
    Seq<char>,
> {
    match spec_extract_object_key(v, name) {
        Ok(x) => spec_extract_obj(x),
        Err(m) => Err(m),
    }
}

/// What `extract_object_f64` gives: the member `name`, as a number.
pub open spec fn spec_extract_object_f64(v: JsonValue, name: Seq<char>) -> Result<u64, Seq<char>> {
    match spec_extract_object_key(v, name) {
        Ok(x) => spec_extract_f64(x),
        Err(m) => Err(m),
    }
}

/// The result of an extraction that hands out a reference, against its specification.
pub open spec fn ref_result_is<T>(r: Result<&T, String>, s: Result<T, Seq<char>>) -> bool {
    match s {
        Ok(x) => r matches Ok(y) && *y == x,
        Err(m) => r matches Err(e) && e@ == m,
    }
}

/// The result of an extraction that hands out a string, against its specification.
pub open spec fn string_result_is(r: Result<String, String>, s: Result<Seq<char>, Seq<char>>) -> bool {
    match s {
        Ok(x) => r matches Ok(y) && y@ == x,
        Err(m) => r matches Err(e) && e@ == m,
    }
}

/// The result of an extraction that hands out a number, against its specification.
pub open spec fn number_result_is(r: Result<u64, String>, s: Result<u64, Seq<char>>) -> bool {
    match s {
        Ok(x) => r == Ok::<u64, String>(x),
        Err(m) => r matches Err(e) && e@ == m,
    }
}

/// Member `i` of `members` is the first one whose key is `key`.
pub open spec fn is_first_member(members: Seq<(String, JsonValue)>, key: Seq<char>, i: int) -> bool {
    &&& 0 <= i < members.len()
    &&& members[i].0@ == key
    &&& forall|j: int| 0 <= j < i ==> #[trigger] members[j].0@ != key
}

/// `v` is an object whose first member with key `key` holds `x`.
pub open spec fn has_member(v: JsonValue, key: Seq<char>, x: JsonValue) -> bool {
    match v {
        JsonValue::Object(members) => exists|i: int|
            is_first_member(members@, key, i) && #[trigger] members@[i].1 == x,
        _ => false,
    }
}

/// `v` is an object without a member with key `key`.
pub open spec fn lacks_member(v: JsonValue, key: Seq<char>) -> bool {
    match v {
        JsonValue::Object(members) => forall|i: int|
            0 <= i < members@.len() ==> #[trigger] members@[i].0@ != key,
        _ => false,
    }
}

proof fn lemma_lookup_at(members: Seq<(String, JsonValue)>, key: Seq<char>, i: int)
    requires
        is_first_member(members, key, i),
    ensures
        lookup(members, key) == Some(members[i].1),
    decreases i,
{
    if i > 0 {
        assert(members[0].0@ != key);
        let rest = members.drop_first();
        assert forall|j: int| 0 <= j < i - 1 implies #[trigger] rest[j].0@ != key by {
            assert(rest[j] == members[j + 1]);
        }
        lemma_lookup_at(rest, key, i - 1);
    }
}

proof fn lemma_lookup_none(members: Seq<(String, JsonValue)>, key: Seq<char>)
    requires
        forall|i: int| 0 <= i < members.len() ==> #[trigger] members[i].0@ != key,
    ensures
        lookup(members, key) is None,
    decreases members.len(),
{
    if members.len() > 0 {
        let rest = members.drop_first();
        assert(members[0].0@ != key);
        assert forall|i: int| 0 <= i < rest.len() implies #[trigger] rest[i].0@ != key by {
            assert(rest[i] == members[i + 1]);
        }
        lemma_lookup_none(rest, key);
    }
}

/// Reading a member: the first member with the key is found; an object
/// without one reports "Value not found"; anything but an object reports
/// "Not an object".
pub proof fn lemma_member_reading(v: JsonValue, key: Seq<char>, x: JsonValue)
    ensures
        has_member(v, key, x) ==> spec_get(v, key) == Some(x) && spec_extract_object_key(v, key)
            == Ok::<JsonValue, Seq<char>>(x),
        lacks_member(v, key) ==> spec_get(v, key) is None && spec_extract_object_key(v, key)
            == Err::<JsonValue, Seq<char>>("Value not found"@),
        !(v is Object) ==> spec_get(v, key) is None && spec_extract_object_key(v, key) == Err::<
            JsonValue,
            Seq<char>,
        >("Not an object"@),
{
    if let JsonValue::Object(members) = v {
        if has_member(v, key, x) {
            let i = choose|i: int| is_first_member(members@, key, i) && #[trigger] members@[i].1 == x;
            lemma_lookup_at(members@, key, i);
        }
        if lacks_member(v, key) {
            lemma_lookup_none(members@, key);
        }
    }
}

/// Reading a typed value: a string gives its text, a number its bits, an
/// object its members; anything else reports "Not a string" (for text and
/// numbers) or "Not an object".
pub proof fn lemma_value_reading(v: JsonValue)
    ensures
        v matches JsonValue::Str(t) ==> spec_extract_str(v) == Ok::<Seq<char>, Seq<char>>(t@),
        !(v is Str) ==> spec_extract_str(v) == Err::<Seq<char>, Seq<char>>("Not a string"@),
        v matches JsonValue::Number(b) ==> spec_extract_f64(v) == Ok::<u64, Seq<char>>(b),
        !(v is Number) ==> spec_extract_f64(v) == Err::<u64, Seq<char>>("Not a string"@),
        v matches JsonValue::Object(m) ==> spec_extract_obj(v) == Ok::<Seq<(String, JsonValue)>, Seq<char>>(m@),
        !(v is Object) ==> spec_extract_obj(v) == Err::<Seq<(String, JsonValue)>, Seq<char>>("Not an object"@),
{
}

impl JsonValue {
    /// The value of the member `key`, if this is an object that has one.
    pub fn get(&self, key: &str) -> (r: Option<&JsonValue>)
        ensures
            match spec_get(*self, key@) {
                Some(x) => r matches Some(y) && *y == x,
                None => r is None,
            },
    {
        match self {
            JsonValue::Object(members) => {
                let wanted = String::from_str(key);
                let mut i: usize = 0;
                assert(members@.skip(0) =~= members@);
                while i < members.len()
                    invariant
                        i <= members@.len(),
                        wanted@ == key@,
                        spec_get(*self, key@) == lookup(members@, key@),
                        lookup(members@, key@) == lookup(members@.skip(i as int), key@),
                    decreases members@.len() - i,
                {
                    assert(members@.skip(i as int).drop_first() =~= members@.skip(i + 1));
                    assert(members@.skip(i as int)[0] == members@[i as int]);
                    if members[i].0 == wanted {
                        return Some(&members[i].1);
                    }
                    i = i + 1;
                }
                None
            },
            _ => None,
        }
    }

    /// The member `name` of this object; "Not an object" or "Value not found" otherwise.
    pub fn extract_object_key(&self, name: &str) -> (r: Result<&JsonValue, String>)
        ensures
            ref_result_is(r, spec_extract_object_key(*self, name@)),
    {
        match self {
            JsonValue::Object(_) => match self.get(name) {
                Some(v) => Ok(v),
                None => Err(String::from_str("Value not found")),
            },
            _ => Err(String::from_str("Not an object")),
        }
    }

    /// The member `name` of this object, as a string.
    pub fn extract_object_str(&self, name: &str) -> (r: Result<String, String>)
        ensures
            string_result_is(r, spec_extract_object_str(*self, name@)),
    {
        match self.extract_object_key(name) {
            Ok(v) => v.extract_str(),
            Err(e) => Err(e),
        }
    }

    /// The member `name` of this object, as an object.
    pub fn extract_object_obj(&self, name: &str) -> (r: Result<&Vec<(String, JsonValue)>, String>)
        ensures
            match spec_extract_object_obj(*self, name@) {
                Ok(x) => r matches Ok(y) && y@ == x,
                Err(m) => r matches Err(e) && e@ == m,
            },
    {
        match self.extract_object_key(name) {
            Ok(v) => v.extract_obj(),
            Err(e) => Err(e),
        }
    }

    /// The member `name` of this object, as a number.
    pub fn extract_object_f64(&self, name: &str) -> (r: Result<u64, String>)
        ensures
            number_result_is(r, spec_extract_object_f64(*self, name@)),
    {
        match self.extract_object_key(name) {
            Ok(v) => v.extract_f64(),
            Err(e) => Err(e),
        }
    }

    /// This value as a string; "Not a string" otherwise.
    pub fn extract_str(&self) -> (r: Result<String, String>)
        ensures
            string_result_is(r, spec_extract_str(*self)),
    {
        match self {
            JsonValue::Str(s) => Ok(s.clone()),
            _ => Err(String::from_str("Not a string")),
        }
    }

    /// The members of this object; "Not an object" otherwise.
    pub fn extract_obj(&self) -> (r: Result<&Vec<(String, JsonValue)>, String>)
        ensures
            match spec_extract_obj(*self) {
                Ok(x) => r matches Ok(y) && y@ == x,
                Err(m) => r matches Err(e) && e@ == m,
            },
    {
        match self {
            JsonValue::Object(members) => Ok(members),
            _ => Err(String::from_str("Not an object")),
        }
    }

    /// This value as a number; "Not a string" otherwise (the message that
    /// a non-number is reported with).
    pub fn extract_f64(&self) -> (r: Result<u64, String>)
        ensures
            number_result_is(r, spec_extract_f64(*self)),
    {
        match self {
            JsonValue::Number(bits) => Ok(*bits),
            _ => Err(String::from_str("Not a string")),
        }
    }
}

} // verus!
