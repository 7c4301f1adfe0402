//! A plain model of JSON values.
//!
//! The engine exchanges JSON documents with tool servers. Inside the
//! library a document is a `JsonValue`: numbers are carried as their
//! decimal text (this core never interprets a number it receives), an
//! object is an ordered list of key/value pairs, and lookup takes the
//! first pair with a matching key.

use vstd::prelude::*;

verus! {

/// One JSON value, as this engine models it.
#[derive(Debug, PartialEq, Eq)]
pub enum JsonValue {
    Null,
    Bool(bool),
    /// A number, kept as its decimal text.
    Num(String),
    Text(String),
    Array(Vec<JsonValue>),
    Object(Vec<(String, JsonValue)>),
}

/// First value paired with `key` in `pairs`, if any.
pub open spec fn spec_lookup(pairs: Seq<(String, JsonValue)>, key: Seq<char>) -> Option<JsonValue>
    decreases pairs.len(),
{
    if pairs.len() == 0 {
        None
    } else if pairs[0].0@ == key {
        Some(pairs[0].1)
    } else {
        spec_lookup(pairs.drop_first(), key)
    }
}

/// Member of object `v` under `key`: the first matching pair, or `None`
/// when `v` is not an object or has no such member.
pub open spec fn spec_get(v: JsonValue, key: Seq<char>) -> Option<JsonValue> {
    match v {
        JsonValue::Object(pairs) => spec_lookup(pairs@, key),
        _ => None,
    }
}

/// Lookup finds a pair exactly when some pair carries the key.
pub proof fn lemma_lookup_some_iff(pairs: Seq<(String, JsonValue)>, key: Seq<char>)
    ensures
        (spec_lookup(pairs, key) is Some) <==> exists|j: int|
            0 <= j < pairs.len() && pairs[j].0@ == key,
    decreases pairs.len(),
{
    if pairs.len() > 0 {
        lemma_lookup_some_iff(pairs.drop_first(), key);
        if pairs[0].0@ == key {
            assert(pairs[0].0@ == key);
        } else {
            assert forall|j: int| 0 <= j < pairs.drop_first().len() implies pairs.drop_first()[j]
                == pairs[j + 1] by {}
            if spec_lookup(pairs, key) is Some {
                let j = choose|j: int|
                    0 <= j < pairs.drop_first().len() && pairs.drop_first()[j].0@ == key;
                assert(pairs[j + 1].0@ == key);
            }
            if exists|j: int| 0 <= j < pairs.len() && pairs[j].0@ == key {
                let j = choose|j: int| 0 <= j < pairs.len() && pairs[j].0@ == key;
                assert(pairs.drop_first()[j - 1].0@ == key);
            }
        }
    }
}

/// Whether some pair of `pairs` carries `key`.
pub fn has_key(pairs: &Vec<(String, JsonValue)>, key: &str) -> (r: bool)
    ensures
        r == (spec_lookup(pairs@, key@) is Some),
{
    let n = pairs.len();
    let mut i: usize = 0;
    let mut found = false;
    while i < n
        invariant
            n == pairs@.len(),
            i <= n,
            found == exists|j: int| 0 <= j < i && pairs@[j].0@ == key@,
        decreases n - i,
    {
        if !found {
            if str_eq(pairs[i].0.as_str(), key) {
                found = true;
            }
        }
        i = i + 1;
    }
    proof {
        lemma_lookup_some_iff(pairs@, key@);
    }
    found
}

/// Equality of two string slices, decided on their character sequences.
pub fn str_eq(a: &str, b: &str) -> (r: bool)
    ensures
        r == (a@ == b@),
{
    let x: String = a.to_owned();
    let y: String = b.to_owned();
    x == y
}

/// Whether `v` is a JSON object.
pub fn is_object(v: &JsonValue) -> (r: bool)
    ensures
        r == (v matches JsonValue::Object(_)),
{
    match v {
        JsonValue::Object(_) => true,
        _ => false,
    }
}

/// Takes the member of `v` under `key`, consuming `v`.
pub fn take_field(v: JsonValue, key: &str) -> (r: Option<JsonValue>)
    ensures
        r == spec_get(v, key@),
{
    match v {
        JsonValue::Object(mut pairs) => {
            let ghost orig = pairs@;
            let mut slot: Option<JsonValue> = None;
            while pairs.len() > 0
                invariant
                    pairs@.len() <= orig.len(),
                    pairs@ == orig.take(pairs@.len() as int),
                    slot == spec_lookup(orig.skip(pairs@.len() as int), key@),
                decreases pairs.len(),
            {
                let ghost n = pairs@.len() as int;
                let (k, val) = pairs.pop().unwrap();
                proof {
                    assert(orig.take(n).drop_last() =~= orig.take(n - 1));
                    assert(orig.skip(n - 1).drop_first() =~= orig.skip(n));
                    assert(orig.skip(n - 1)[0] == orig[n - 1]);
                }
                if str_eq(k.as_str(), key) {
                    slot = Some(val);
                }
            }
            proof {
                assert(orig.skip(0) =~= orig);
            }
            slot
        },
        _ => None,
    }
}

/// Takes the members of `v` under two distinct keys, consuming `v`.
pub fn take_field2(v: JsonValue, key1: &str, key2: &str) -> (r: (
    Option<JsonValue>,
    Option<JsonValue>,
))
    requires
        key1@ != key2@,
    ensures
        r.0 == spec_get(v, key1@),
        r.1 == spec_get(v, key2@),
{
    match v {
        JsonValue::Object(mut pairs) => {
            let ghost orig = pairs@;
            let mut slot1: Option<JsonValue> = None;
            let mut slot2: Option<JsonValue> = None;
            while pairs.len() > 0
                invariant
                    key1@ != key2@,
                    pairs@.len() <= orig.len(),
                    pairs@ == orig.take(pairs@.len() as int),
                    slot1 == spec_lookup(orig.skip(pairs@.len() as int), key1@),
                    slot2 == spec_lookup(orig.skip(pairs@.len() as int), key2@),
                decreases pairs.len(),
            {
                let ghost n = pairs@.len() as int;
                let (k, val) = pairs.pop().unwrap();
                proof {
                    assert(orig.take(n).drop_last() =~= orig.take(n - 1));
                    assert(orig.skip(n - 1).drop_first() =~= orig.skip(n));
                    assert(orig.skip(n - 1)[0] == orig[n - 1]);
                }
                if str_eq(k.as_str(), key1) {
                    slot1 = Some(val);
                } else if str_eq(k.as_str(), key2) {
                    slot2 = Some(val);
                }
            }
            proof {
                assert(orig.skip(0) =~= orig);
            }
            (slot1, slot2)
        },
        _ => (None, None),
    }
}

/// Takes the members of `v` under four pairwise distinct keys, consuming `v`.
pub fn take_field4(v: JsonValue, key1: &str, key2: &str, key3: &str, key4: &str) -> (r: (
    Option<JsonValue>,
    Option<JsonValue>,
    Option<JsonValue>,
    Option<JsonValue>,
))
    requires
        key1@ != key2@,
        key1@ != key3@,
        key1@ != key4@,
        key2@ != key3@,
        key2@ != key4@,
        key3@ != key4@,
    ensures
        r.0 == spec_get(v, key1@),
        r.1 == spec_get(v, key2@),
        r.2 == spec_get(v, key3@),
        r.3 == spec_get(v, key4@),
{
    match v {
        JsonValue::Object(mut pairs) => {
            let ghost orig = pairs@;
            let mut slot1: Option<JsonValue> = None;
            let mut slot2: Option<JsonValue> = None;
            let mut slot3: Option<JsonValue> = None;
            let mut slot4: Option<JsonValue> = None;
            while pairs.len() > 0
                invariant
                    key1@ != key2@,
                    key1@ != key3@,
                    key1@ != key4@,
                    key2@ != key3@,
                    key2@ != key4@,
                    key3@ != key4@,
                    pairs@.len() <= orig.len(),
                    pairs@ == orig.take(pairs@.len() as int),
                    slot1 == spec_lookup(orig.skip(pairs@.len() as int), key1@),
                    slot2 == spec_lookup(orig.skip(pairs@.len() as int), key2@),
                    slot3 == spec_lookup(orig.skip(pairs@.len() as int), key3@),
                    slot4 == spec_lookup(orig.skip(pairs@.len() as int), key4@),
                decreases pairs.len(),
            {
                let ghost n = pairs@.len() as int;
                let (k, val) = pairs.pop().unwrap();
                proof {
                    assert(orig.take(n).drop_last() =~= orig.take(n - 1));
                    assert(orig.skip(n - 1).drop_first() =~= orig.skip(n));
                    assert(orig.skip(n - 1)[0] == orig[n - 1]);
                }
                if str_eq(k.as_str(), key1) {
                    slot1 = Some(val);
                } else if str_eq(k.as_str(), key2) {
                    slot2 = Some(val);
                } else if str_eq(k.as_str(), key3) {
                    slot3 = Some(val);
                } else if str_eq(k.as_str(), key4) {
                    slot4 = Some(val);
                }
            }
            proof {
                assert(orig.skip(0) =~= orig);
            }
            (slot1, slot2, slot3, slot4)
        },
        _ => (None, None, None, None),
    }
}

/// The string-valued pairs of `pairs`, in order; members of any other
/// shape are passed over.
pub open spec fn spec_string_entries(pairs: Seq<(String, JsonValue)>) -> Seq<(String, String)>
    decreases pairs.len(),
{
    if pairs.len() == 0 {
        Seq::empty()
    } else {
        let rest = spec_string_entries(pairs.drop_last());
        match pairs.last().1 {
            JsonValue::Text(s) => rest.push((pairs.last().0, s)),
            _ => rest,
        }
    }
}

/// The string-valued members of `v`: environment maps and header maps
/// apply only these.
pub open spec fn spec_string_members(v: JsonValue) -> Seq<(String, String)> {
    match v {
        JsonValue::Object(pairs) => spec_string_entries(pairs@),
        _ => Seq::empty(),
    }
}

/// `r` holds the same pairs as `m`, character for character.
pub open spec fn spec_pairs_match(r: Seq<(String, String)>, m: Seq<(String, String)>) -> bool {
    &&& r.len() == m.len()
    &&& forall|i: int|
        0 <= i < r.len() ==> #[trigger] r[i].0@ == m[i].0@ && r[i].1@ == m[i].1@
}

/// Collects the string-valued members of `v`, in order.
pub fn string_members(v: &JsonValue) -> (r: Vec<(String, String)>)
    ensures
        spec_pairs_match(r@, spec_string_members(*v)),
{
    let mut out: Vec<(String, String)> = Vec::new();
    match v {
        JsonValue::Object(pairs) => {
            let n = pairs.len();
            let mut i: usize = 0;
            while i < n
                invariant
                    n == pairs@.len(),
                    i <= n,
                    out@.len() == spec_string_entries(pairs@.take(i as int)).len(),
                    forall|j: int|
                        0 <= j < out@.len() ==> #[trigger] out@[j].0@ == spec_string_entries(
                            pairs@.take(i as int),
                        )[j].0@ && out@[j].1@ == spec_string_entries(pairs@.take(i as int))[j].1@,
                decreases n - i,
            {
                proof {
                    assert(pairs@.take(i as int + 1).drop_last() =~= pairs@.take(i as int));
                    assert(pairs@.take(i as int + 1).last() == pairs@[i as int]);
                }
                let pair = &pairs[i];
                match &pair.1 {
                    JsonValue::Text(s) => {
                        out.push((pair.0.clone(), s.clone()));
                    },
                    _ => {},
                }
                i = i + 1;
            }
            proof {
                assert(pairs@.take(n as int) =~= pairs@);
                assert(spec_string_members(*v) == spec_string_entries(pairs@));
            }
        },
        _ => {},
    }
    out
}

} // verus!
