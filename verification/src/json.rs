//! A plain model of the dynamically shaped JSON trees that arrive from the
//! venue. The boundary code decodes a wire frame into this type before the
//! pipeline runs; a number carries the bit pattern of the binary64 value it
//! parses to, plus its exact unsigned integer value when it has one, so the
//! verified logic never touches floating point itself.

use vstd::prelude::*;

verus! {

/// A JSON number, reduced to what the pipeline reads of it.
#[derive(Clone, Copy, PartialEq, Eq, Structural, Debug)]
pub struct JsonNum {
    /// Bit pattern of the binary64 (f64) value of the number, carried
    /// opaquely; the pipeline never interprets it.
    pub f_bits: u64,
    /// The number's exact value as an unsigned 64-bit integer, when it is a
    /// non-negative integer in range; `None` otherwise.
    pub as_u64: Option<u64>,
}

/// A JSON value. Objects keep their members in order; a lookup takes the
/// first member with the wanted key (keys are unique in decoded JSON, so
/// this matches map semantics).
pub enum JsonVal {
    Null,
    Bool(bool),
    Num(JsonNum),
    Str(String),
    Arr(Vec<JsonVal>),
    Obj(Vec<(String, JsonVal)>),
}

/// First value under `key` in an object member list, if any.
pub open spec fn spec_members_get(pairs: Seq<(String, JsonVal)>, key: Seq<char>) -> Option<
    JsonVal,
>
    decreases pairs.len(),
{
    if pairs.len() == 0 {
        None
    } else if pairs[0].0@ == key {
        Some(pairs[0].1)
    } else {
        spec_members_get(pairs.drop_first(), key)
    }
}

/// Value under `key` when `v` is an object holding that key; `None` when the
/// key is absent or `v` is not an object.
pub open spec fn spec_get(v: JsonVal, key: Seq<char>) -> Option<JsonVal> {
    match v {
        JsonVal::Obj(pairs) => spec_members_get(pairs@, key),
        _ => None,
    }
}

/// Whether two string slices hold the same characters.
pub fn str_eq(a: &str, b: &str) -> (r: bool)
    ensures
        r == (a@ == b@),
{
    let x: String = a.to_owned();
    let y: String = b.to_owned();
    x == y
}

impl JsonVal {
    /// Member lookup on an object, `None` on every other shape.
    pub fn get<'a>(&'a self, key: &str) -> (r: Option<&'a JsonVal>)
        ensures
            match r {
                Some(x) => spec_get(*self, key@) == Some(*x),
                None => spec_get(*self, key@) is None,
            },
    {
        match self {
            JsonVal::Obj(pairs) => {
                proof {
                    assert(pairs@.skip(0) =~= pairs@);
                }
                let mut i: usize = 0;
                while i < pairs.len()
                    invariant
                        i <= pairs@.len(),
                        spec_get(*self, key@) == spec_members_get(pairs@, key@),
                        spec_members_get(pairs@.skip(i as int), key@) == spec_members_get(
                            pairs@,
                            key@,
                        ),
                    decreases pairs@.len() - i,
                {
                    proof {
                        assert(pairs@.skip(i as int)[0] == pairs@[i as int]);
                    }
                    if str_eq(pairs[i].0.as_str(), key) {
                        proof {
                            assert(spec_members_get(pairs@.skip(i as int), key@) == Some(
                                pairs@[i as int].1,
                            ));
                        }
                        return Some(&pairs[i].1);
                    }
                    proof {
                        assert(pairs@.skip(i as int).drop_first() =~= pairs@.skip(i as int + 1));
                    }
                    i = i + 1;
                }
                proof {
                    assert(pairs@.skip(i as int) =~= Seq::<(String, JsonVal)>::empty());
                }
                None
            },
            _ => None,
        }
    }
}

} // verus!
