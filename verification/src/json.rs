//! An owned model of a loosely typed JSON document.
//!
//! The directory trailing a sealed archive is JSON text. The decoder keeps a
//! copy of the parsed document in this self-contained form: strings are held
//! as their UTF-8 bytes, numbers only as far as the format reads them (an
//! unsigned integer, or the mere fact that the number was of another shape),
//! and objects as their member list, key bytes first. Lookup takes the first
//! member with the asked-for key; the parser this library trusts hands
//! members over key-sorted, with duplicate keys already resolved (last one
//! wins), so the first match is the only one.

use vstd::prelude::*;

verus! {

/// One parsed JSON value.
pub enum JsonValue {
    /// The JSON `null`.
    Null,
    /// A JSON boolean.
    Bool(bool),
    /// A JSON number representable as an unsigned 64-bit integer.
    UInt(u64),
    /// A JSON number of any other shape (negative or fractional); the
    /// format reads every number it cares about as an unsigned integer,
    /// so nothing more of such a number is kept.
    OtherNum,
    /// A JSON string, as its UTF-8 bytes.
    Str(Vec<u8>),
    /// A JSON array.
    Arr(Vec<JsonValue>),
    /// A JSON object: its members as the parser handed them over, key
    /// bytes first.
    Obj(Vec<(Vec<u8>, JsonValue)>),
}

/// True for a structured JSON value — an object or an array; null and
/// scalars are not structured.
pub open spec fn spec_is_structured(v: JsonValue) -> bool {
    v is Obj || v is Arr
}

/// The first value bound to `key` among `fields`, scanning left to right.
pub open spec fn spec_obj_get(fields: Seq<(Vec<u8>, JsonValue)>, key: Seq<u8>) -> Option<JsonValue>
    decreases fields.len(),
{
    if fields.len() == 0 {
        None
    } else if fields[0].0@ == key {
        Some(fields[0].1)
    } else {
        spec_obj_get(fields.drop_first(), key)
    }
}

/// Member lookup: objects are searched by key; no other value has members.
pub open spec fn spec_get(v: JsonValue, key: Seq<u8>) -> Option<JsonValue> {
    match v {
        JsonValue::Obj(fields) => spec_obj_get(fields@, key),
        _ => None,
    }
}

/// Lookup two levels deep: the member `k2` of the member `k1`.
pub open spec fn spec_get2(v: JsonValue, k1: Seq<u8>, k2: Seq<u8>) -> Option<JsonValue> {
    match spec_get(v, k1) {
        Some(inner) => spec_get(inner, k2),
        None => None,
    }
}

/// The string at `key`, or `default` when the member is absent or not a string.
pub open spec fn spec_str_or(v: JsonValue, key: Seq<u8>, default: Seq<u8>) -> Seq<u8> {
    match spec_get(v, key) {
        Some(JsonValue::Str(s)) => s@,
        _ => default,
    }
}

/// The unsigned integer at `key`, or zero when absent or of another type.
pub open spec fn spec_u64_or_zero(v: JsonValue, key: Seq<u8>) -> u64 {
    match spec_get(v, key) {
        Some(JsonValue::UInt(u)) => u,
        _ => 0,
    }
}

/// Byte-for-byte equality of two slices.
pub fn bytes_eq(a: &[u8], b: &[u8]) -> (r: bool)
    ensures
        r == (a@ == b@),
{
    if a.len() != b.len() {
        return false;
    }
    let mut i: usize = 0;
    while i < a.len()
        invariant
            i <= a@.len(),
            a@.len() == b@.len(),
            forall|j: int| 0 <= j < i ==> a@[j] == b@[j],
        decreases a@.len() - i,
    {
        if a[i] != b[i] {
            return false;
        }
        i += 1;
    }
    proof {
        assert(a@ =~= b@);
    }
    true
}

/// An owned copy of a byte slice.
pub fn bytes_of(b: &[u8]) -> (r: Vec<u8>)
    ensures
        r@ == b@,
{
    let mut out: Vec<u8> = Vec::new();
    let mut i: usize = 0;
    while i < b.len()
        invariant
            i <= b@.len(),
            out@ == b@.subrange(0, i as int),
        decreases b@.len() - i,
    {
        out.push(b[i]);
        i += 1;
        proof {
            assert(out@ =~= b@.subrange(0, i as int));
        }
    }
    proof {
        assert(out@ =~= b@);
    }
    out
}

impl JsonValue {
    /// A reference to the first member named `key`, when `self` is an object
    /// that has one.
    #[verifier::loop_isolation(false)]
    pub fn get<'a>(&'a self, key: &[u8]) -> (r: Option<&'a JsonValue>)
        ensures
            match r {
                Some(x) => spec_get(*self, key@) == Some(*x),
                None => spec_get(*self, key@) is None,
            },
    {
        match self {
            JsonValue::Obj(fields) => {
                proof {
                    assert(fields@.subrange(0, fields@.len() as int) =~= fields@);
                }
                let mut i: usize = 0;
                while i < fields.len()
                    invariant
                        i <= fields@.len(),
                        spec_obj_get(fields@, key@) == spec_obj_get(
                            fields@.subrange(i as int, fields@.len() as int),
                            key@,
                        ),
                    decreases fields@.len() - i,
                {
                    if bytes_eq(fields[i].0.as_slice(), key) {
                        proof {
                            let sub = fields@.subrange(i as int, fields@.len() as int);
                            assert(sub[0] == fields@[i as int]);
                            assert(spec_obj_get(sub, key@) == Some(fields@[i as int].1));
                        }
                        return Some(&fields[i].1);
                    }
                    proof {
                        assert(fields@.subrange(i as int, fields@.len() as int).drop_first()
                            =~= fields@.subrange(i + 1, fields@.len() as int));
                    }
                    i += 1;
                }
                None
            },
            _ => None,
        }
    }

    /// Lookup two levels deep, by reference.
    pub fn get2<'a>(&'a self, k1: &[u8], k2: &[u8]) -> (r: Option<&'a JsonValue>)
        ensures
            match r {
                Some(x) => spec_get2(*self, k1@, k2@) == Some(*x),
                None => spec_get2(*self, k1@, k2@) is None,
            },
    {
        match self.get(k1) {
            Some(inner) => inner.get(k2),
            None => None,
        }
    }

    /// The string member at `key` as an owned copy, or a copy of `default`
    /// when the member is absent or not a string.
    pub fn str_or(&self, key: &[u8], default: &[u8]) -> (r: Vec<u8>)
        ensures
            r@ == spec_str_or(*self, key@, default@),
    {
        match self.get(key) {
            Some(JsonValue::Str(s)) => bytes_of(s.as_slice()),
            _ => bytes_of(default),
        }
    }

    /// The unsigned integer member at `key`, or zero when absent or of
    /// another type.
    pub fn u64_or_zero(&self, key: &[u8]) -> (r: u64)
        ensures
            r == spec_u64_or_zero(*self, key@),
    {
        match self.get(key) {
            Some(JsonValue::UInt(u)) => *u,
            _ => 0,
        }
    }
}

/// Removes and returns the first member named `key`, so that the caller can
/// keep the value without copying it.
#[verifier::loop_isolation(false)]
pub fn obj_take(fields: &mut Vec<(Vec<u8>, JsonValue)>, key: &[u8]) -> (r: Option<JsonValue>)
    ensures
        match r {
            Some(x) => spec_obj_get(old(fields)@, key@) == Some(x),
            None => spec_obj_get(old(fields)@, key@) is None,
        },
{
    proof {
        assert(fields@.subrange(0, fields@.len() as int) =~= fields@);
    }
    let mut i: usize = 0;
    while i < fields.len()
        invariant
            i <= fields@.len(),
            fields@ == old(fields)@,
            spec_obj_get(fields@, key@) == spec_obj_get(
                fields@.subrange(i as int, fields@.len() as int),
                key@,
            ),
        decreases fields@.len() - i,
    {
        if bytes_eq(fields[i].0.as_slice(), key) {
            let pair = fields.remove(i);
            return Some(pair.1);
        }
        proof {
            assert(fields@.subrange(i as int, fields@.len() as int).drop_first()
                =~= fields@.subrange(i + 1, fields@.len() as int));
        }
        i += 1;
    }
    None
}

} // verus!
