use vstd::prelude::*;
use vstd::string::StrSliceExecFns;

verus! {

broadcast use vstd::std_specs::vec::group_vec_axioms;

/// A JSON value as this library reads and writes it. Numbers are integers:
/// the wire format of the device service carries only integral numbers.
#[derive(Debug)]
pub enum Json {
    Null,
    Bool(bool),
    Int(i64),
    UInt(u64),
    Str(String),
    Arr(Vec<Json>),
    Obj(Vec<(String, Json)>),
}

/// Structural equivalence of two JSON values: the same shape with the same
/// texts and numbers, whatever the strings' storage.
pub open spec fn json_eq(a: Json, b: Json) -> bool
    decreases a,
{
    match (a, b) {
        (Json::Null, Json::Null) => true,
        (Json::Bool(x), Json::Bool(y)) => x == y,
        (Json::Int(x), Json::Int(y)) => x == y,
        (Json::UInt(x), Json::UInt(y)) => x == y,
        (Json::Str(x), Json::Str(y)) => x@ == y@,
        (Json::Arr(x), Json::Arr(y)) => x@.len() == y@.len() && (forall|i: int|
            0 <= i < x@.len() ==> json_eq(#[trigger] x@[i], y@[i])),
        (Json::Obj(x), Json::Obj(y)) => x@.len() == y@.len() && (forall|i: int|
            0 <= i < x@.len() ==> (#[trigger] x@[i]).0@ == y@[i].0@ && json_eq(x@[i].1, y@[i].1)),
        _ => false,
    }
}

impl Json {
    /// An owned copy of a JSON value, equivalent to the original.
    #[verifier::loop_isolation(false)]
    pub fn deep_clone(&self) -> (r: Json)
        ensures
            json_eq(r, *self),
        decreases *self,
    {
        match self {
            Json::Null => Json::Null,
            Json::Bool(b) => Json::Bool(*b),
            Json::Int(v) => Json::Int(*v),
            Json::UInt(v) => Json::UInt(*v),
            Json::Str(s) => Json::Str(s.clone()),
            Json::Arr(items) => {
                let n = items.len();
                let mut out: Vec<Json> = Vec::new();
                let mut i: usize = 0;
                while i < n
                    invariant
                        i <= n,
                        n == items@.len(),
                        out@.len() == i,
                        forall|k: int| 0 <= k < i ==> json_eq(#[trigger] out@[k], items@[k]),
                    decreases n - i,
                {
                    proof {
                        assert(decreases_to!(*self => *items));
                        assert(decreases_to!(*items => items[i as int]));
                    }
                    out.push(items[i].deep_clone());
                    i = i + 1;
                }
                Json::Arr(out)
            },
            Json::Obj(pairs) => {
                let n = pairs.len();
                let mut out: Vec<(String, Json)> = Vec::new();
                let mut i: usize = 0;
                while i < n
                    invariant
                        i <= n,
                        n == pairs@.len(),
                        out@.len() == i,
                        forall|k: int|
                            0 <= k < i ==> (#[trigger] out@[k]).0@ == pairs@[k].0@ && json_eq(
                                out@[k].1,
                                pairs@[k].1,
                            ),
                    decreases n - i,
                {
                    let pair = &pairs[i];
                    proof {
                        assert(decreases_to!(*self => *pairs));
                        assert(decreases_to!(*pairs => pairs[i as int]));
                        assert(decreases_to!(pairs[i as int] => pairs[i as int].1));
                    }
                    out.push((pair.0.clone(), pair.1.deep_clone()));
                    i = i + 1;
                }
                Json::Obj(out)
            },
        }
    }
}

/// The first value bound to `key` among `pairs`, if any.
pub open spec fn lookup(pairs: Seq<(String, Json)>, key: Seq<char>) -> Option<Json>
    decreases pairs.len(),
{
    if pairs.len() == 0 {
        None
    } else if pairs[0].0@ == key {
        Some(pairs[0].1)
    } else {
        lookup(pairs.drop_first(), key)
    }
}

/// Character-for-character equality of two string slices.
pub fn str_eq(a: &str, b: &str) -> (r: bool)
    ensures
        r == (a@ == b@),
{
    let na = a.unicode_len();
    let nb = b.unicode_len();
    if na != nb {
        return false;
    }
    let mut i: usize = 0;
    while i < na
        invariant
            i <= na,
            na == a@.len(),
            na == b@.len(),
            forall|j: int| 0 <= j < i ==> a@[j] == b@[j],
        decreases na - i,
    {
        if a.get_char(i) != b.get_char(i) {
            return false;
        }
        i = i + 1;
    }
    proof {
        assert(a@ =~= b@);
    }
    true
}

/// The first pair bound to `key` among `pairs`, if any.
#[verifier::loop_isolation(false)]
pub fn get_field<'a>(pairs: &'a Vec<(String, Json)>, key: &str) -> (r: Option<&'a Json>)
    ensures
        match lookup(pairs@, key@) {
            Some(v) => r matches Some(x) && *x == v,
            None => r is None,
        },
{
    let n = pairs.len();
    let mut i: usize = 0;
    proof {
        assert(pairs@.skip(0) =~= pairs@);
    }
    while i < n
        invariant
            i <= n,
            lookup(pairs@, key@) == lookup(pairs@.skip(i as int), key@),
        decreases n - i,
    {
        let pair = &pairs[i];
        if str_eq(pair.0.as_str(), key) {
            proof {
                assert(pairs@.skip(i as int)[0] == pairs@[i as int]);
                assert(lookup(pairs@.skip(i as int), key@) == Some(pairs@[i as int].1));
            }
            return Some(&pair.1);
        }
        proof {
            assert(pairs@.skip(i as int)[0] == pairs@[i as int]);
            assert(pairs@.skip(i as int).drop_first() =~= pairs@.skip(i as int + 1));
        }
        i = i + 1;
    }
    proof {
        assert(pairs@.skip(n as int) =~= Seq::<(String, Json)>::empty());
    }
    None
}

impl Json {
    /// In an object, the first value bound to `key`; `None` for a missing key or
    /// for a value of any other kind.
    pub fn get<'a>(&'a self, key: &str) -> (r: Option<&'a Json>)
        ensures
            match *self {
                Json::Obj(pairs) => match lookup(pairs@, key@) {
                    Some(v) => r matches Some(x) && *x == v,
                    None => r is None,
                },
                _ => r is None,
            },
    {
        match self {
            Json::Obj(pairs) => get_field(pairs, key),
            _ => None,
        }
    }
}

/// A required string field: the value bound to `key`, if it is a string.
pub open spec fn string_field(pairs: Seq<(String, Json)>, key: Seq<char>) -> Option<String> {
    match lookup(pairs, key) {
        Some(Json::Str(s)) => Some(s),
        _ => None,
    }
}

/// An optional string field: `Some(None)` when `key` is absent or null,
/// `Some(Some(s))` when it is a string, and `None` (a decode failure) otherwise.
pub open spec fn opt_string_field(pairs: Seq<(String, Json)>, key: Seq<char>) -> Option<
    Option<String>,
> {
    match lookup(pairs, key) {
        None => Some(None),
        Some(Json::Null) => Some(None),
        Some(Json::Str(s)) => Some(Some(s)),
        Some(_) => None,
    }
}

/// A required boolean field.
pub open spec fn bool_field(pairs: Seq<(String, Json)>, key: Seq<char>) -> Option<bool> {
    match lookup(pairs, key) {
        Some(Json::Bool(b)) => Some(b),
        _ => None,
    }
}

/// The value of an integral JSON number, if it fits in an `i64`.
pub open spec fn i64_of_json(j: Json) -> Option<i64> {
    match j {
        Json::Int(v) => Some(v),
        Json::UInt(v) => if v <= i64::MAX as u64 {
            Some(v as i64)
        } else {
            None
        },
        _ => None,
    }
}

/// A required signed 32-bit field: an integral number within `i32` range.
pub open spec fn i32_field(pairs: Seq<(String, Json)>, key: Seq<char>) -> Option<i32> {
    match lookup(pairs, key) {
        Some(j) => match i64_of_json(j) {
            Some(v) => if i32::MIN as i64 <= v && v <= i32::MAX as i64 {
                Some(v as i32)
            } else {
                None
            },
            None => None,
        },
        None => None,
    }
}

/// A required unsigned 64-bit field: a non-negative integral number.
pub open spec fn u64_field(pairs: Seq<(String, Json)>, key: Seq<char>) -> Option<u64> {
    match lookup(pairs, key) {
        Some(Json::UInt(v)) => Some(v),
        Some(Json::Int(v)) => if v >= 0 {
            Some(v as u64)
        } else {
            None
        },
        _ => None,
    }
}

/// Reads a required string field, returning an owned copy.
pub fn read_string_field(pairs: &Vec<(String, Json)>, key: &str) -> (r: Option<String>)
    ensures
        r == string_field(pairs@, key@),
{
    match get_field(pairs, key) {
        Some(Json::Str(s)) => Some(s.clone()),
        _ => None,
    }
}

/// Reads an optional string field; the outer `None` is a decode failure.
pub fn read_opt_string_field(pairs: &Vec<(String, Json)>, key: &str) -> (r: Option<Option<String>>)
    ensures
        r == opt_string_field(pairs@, key@),
{
    match get_field(pairs, key) {
        None => Some(None),
        Some(Json::Null) => Some(None),
        Some(Json::Str(s)) => Some(Some(s.clone())),
        Some(_) => None,
    }
}

/// Reads a required boolean field.
pub fn read_bool_field(pairs: &Vec<(String, Json)>, key: &str) -> (r: Option<bool>)
    ensures
        r == bool_field(pairs@, key@),
{
    match get_field(pairs, key) {
        Some(Json::Bool(b)) => Some(*b),
        _ => None,
    }
}

/// Reads a required signed 32-bit field.
pub fn read_i32_field(pairs: &Vec<(String, Json)>, key: &str) -> (r: Option<i32>)
    ensures
        r == i32_field(pairs@, key@),
{
    match get_field(pairs, key) {
        Some(Json::Int(v)) => {
            if i32::MIN as i64 <= *v && *v <= i32::MAX as i64 {
                Some(*v as i32)
            } else {
                None
            }
        },
        Some(Json::UInt(v)) => {
            if *v <= i32::MAX as u64 {
                Some(*v as i32)
            } else {
                None
            }
        },
        _ => None,
    }
}

/// Reads a required unsigned 64-bit field.
pub fn read_u64_field(pairs: &Vec<(String, Json)>, key: &str) -> (r: Option<u64>)
    ensures
        r == u64_field(pairs@, key@),
{
    match get_field(pairs, key) {
        Some(Json::UInt(v)) => Some(*v),
        Some(Json::Int(v)) => {
            if *v >= 0 {
                Some(*v as u64)
            } else {
                None
            }
        },
        _ => None,
    }
}

} // verus!
