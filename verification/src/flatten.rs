//! Batch flattening: turns one raw inbound message into the ordered list of
//! trade-record candidates that the field extractor runs over.

use vstd::prelude::*;
use crate::json::{spec_get, JsonVal};

verus! {

/// The candidates of a raw message, tried in order with first match winning:
/// an array yields its elements; a `data` member yields its elements when it
/// is an array and itself otherwise; a `trades` member that is an array
/// yields its elements; failing all of those, the message itself is the sole
/// candidate.
pub open spec fn spec_flatten(v: JsonVal) -> Seq<JsonVal> {
    match v {
        JsonVal::Arr(items) => items@,
        _ => match spec_get(v, "data"@) {
            Some(d) => match d {
                JsonVal::Arr(items) => items@,
                _ => seq![d],
            },
            None => match spec_get(v, "trades"@) {
                Some(JsonVal::Arr(items)) => items@,
                _ => seq![v],
            },
        },
    }
}

/// Collects references to the elements of an array.
fn arr_refs<'a>(items: &'a Vec<JsonVal>) -> (r: Vec<&'a JsonVal>)
    ensures
        r@.len() == items@.len(),
        forall|j: int| 0 <= j < r@.len() ==> *r@[j] == items@[j],
{
    let mut r: Vec<&JsonVal> = Vec::new();
    let mut i: usize = 0;
    #[verifier::loop_isolation(false)]
    while i < items.len()
        invariant
            i <= items@.len(),
            r@.len() == i,
            forall|j: int| 0 <= j < i ==> *r@[j] == items@[j],
        decreases items@.len() - i,
    {
        r.push(&items[i]);
        i = i + 1;
    }
    r
}

/// Flattens a raw message into its trade-record candidates, in order.
pub fn flatten_trade_items<'a>(v: &'a JsonVal) -> (r: Vec<&'a JsonVal>)
    ensures
        r@.len() == spec_flatten(*v).len(),
        forall|j: int| 0 <= j < r@.len() ==> *r@[j] == spec_flatten(*v)[j],
{
    if let JsonVal::Arr(items) = v {
        return arr_refs(items);
    }
    match v.get("data") {
        Some(d) => {
            if let JsonVal::Arr(items) = d {
                arr_refs(items)
            } else {
                let mut r: Vec<&JsonVal> = Vec::new();
                r.push(d);
                r
            }
        },
        None => {
            match v.get("trades") {
                Some(t) => {
                    if let JsonVal::Arr(items) = t {
                        arr_refs(items)
                    } else {
                        let mut r: Vec<&JsonVal> = Vec::new();
                        r.push(v);
                        r
                    }
                },
                None => {
                    let mut r: Vec<&JsonVal> = Vec::new();
                    r.push(v);
                    r
                },
            }
        },
    }
}

/// The fallback order of the flattener: an array of n objects yields those
/// n candidates; an object whose `data` member is an array yields that
/// array's elements, and a non-array `data` member is the sole candidate; an
/// object without `data` whose `trades` member is an array yields that
/// array's elements; a message with none of those is its own sole candidate.
pub proof fn lemma_flatten_fallback_order(v: JsonVal)
    ensures
        v is Arr ==> spec_flatten(v) == v->Arr_0@,
        (!(v is Arr) && spec_get(v, "data"@) is Some) ==> spec_flatten(v) == ({
            let d = spec_get(v, "data"@)->Some_0;
            if d is Arr {
                d->Arr_0@
            } else {
                seq![d]
            }
        }),
        (!(v is Arr) && spec_get(v, "data"@) is None && spec_get(v, "trades"@) is Some
            && spec_get(v, "trades"@)->Some_0 is Arr) ==> spec_flatten(v) == spec_get(
            v,
            "trades"@,
        )->Some_0->Arr_0@,
        (!(v is Arr) && spec_get(v, "data"@) is None && (spec_get(v, "trades"@) is None || !(
        spec_get(v, "trades"@)->Some_0 is Arr))) ==> spec_flatten(v) == seq![v],
{
}

} // verus!
