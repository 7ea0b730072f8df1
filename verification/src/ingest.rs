//! Ingestion: every record becomes a point of the collection, numbered by
//! its place in the batch and carrying its embedding and its metadata.

use crate::json::json_view;
use crate::loader::LoadedData;
use crate::payload::{payload_of, payload_view, to_payload};
use vstd::prelude::*;

verus! {

/// A point as the store takes it. `V` is the form in which the caller holds
/// embedding vectors; it is carried through untouched.
pub struct Point<V> {
    pub id: u64,
    pub vector: V,
    pub payload: qdrant_client::Payload,
}

/// No batch was built: the payload at this position is not a JSON object.
#[derive(Debug, PartialEq, Eq)]
pub struct PayloadRejected {
    pub index: usize,
}

/// The same items, last first.
fn reversed<T>(items: Vec<T>) -> (r: Vec<T>)
    ensures
        r@ == items@.reverse(),
{
    let mut rest = items;
    let mut out: Vec<T> = Vec::new();
    while rest.len() > 0
        invariant
            rest.len() + out.len() == items.len(),
            forall|j: int| 0 <= j < rest.len() ==> rest[j] == items[j],
            forall|j: int| 0 <= j < out.len() ==> out[j] == items[items.len() - 1 - j],
        decreases rest.len(),
    {
        let item = rest.pop().unwrap();
        out.push(item);
    }
    out
}

/// The payloads of a well-formed load are all JSON objects, so that
/// `build_points` rejects none of them.
pub proof fn lemma_loaded_payloads_are_objects(data: LoadedData)
    requires
        data.well_formed(),
    ensures
        forall|k: int|
            0 <= k < data.payloads.len() ==> json_view(#[trigger] data.payloads[k]) is Object,
{
}

/// Builds the batch of points for one ingestion.
///
/// Point `i` gets the identifier `i`, the `i`-th vector and the payload made
/// of the `i`-th document. Fails, with the position of the first offender,
/// exactly when some document is not a JSON object; no point is handed out
/// then.
pub fn build_points<V>(vectors: Vec<V>, payloads: Vec<serde_json::Value>) -> (r: Result<
    Vec<Point<V>>,
    PayloadRejected,
>)
    requires
        vectors.len() == payloads.len(),
    ensures
        match r {
            Ok(points) => {
                &&& points.len() == payloads.len()
                &&& forall|i: int|
                    0 <= i < payloads.len() ==> json_view(#[trigger] payloads[i]) is Object
                &&& forall|i: int|
                    0 <= i < points.len() ==> {
                        &&& (#[trigger] points[i]).id == i
                        &&& points[i].vector == vectors[i]
                        &&& payload_view(points[i].payload) == payload_of(json_view(payloads[i]))
                    }
            },
            Err(rejected) => {
                &&& rejected.index < payloads.len()
                &&& !(json_view(payloads[rejected.index as int]) is Object)
                &&& forall|i: int|
                    0 <= i < rejected.index ==> json_view(#[trigger] payloads[i]) is Object
            },
        },
{
    let count = payloads.len();
    let mut vectors_left = reversed(vectors);
    let mut payloads_left = reversed(payloads);
    let mut points: Vec<Point<V>> = Vec::new();
    let mut i: usize = 0;
    while i < count
        invariant
            i <= count,
            count == payloads.len(),
            count == vectors.len(),
            vectors_left.len() == count - i,
            payloads_left.len() == count - i,
            forall|j: int| 0 <= j < count - i ==> vectors_left[j] == vectors[count - 1 - j],
            forall|j: int| 0 <= j < count - i ==> payloads_left[j] == payloads[count - 1 - j],
            points.len() == i,
            forall|k: int| 0 <= k < i ==> json_view(#[trigger] payloads[k]) is Object,
            forall|k: int|
                0 <= k < i ==> {
                    &&& (#[trigger] points[k]).id == k
                    &&& points[k].vector == vectors[k]
                    &&& payload_view(points[k].payload) == payload_of(json_view(payloads[k]))
                },
        decreases count - i,
    {
        let vector = vectors_left.pop().unwrap();
        let value = payloads_left.pop().unwrap();
        match to_payload(value) {
            Ok(payload) => {
                points.push(Point { id: i as u64, vector, payload });
            },
            Err(_) => {
                return Err(PayloadRejected { index: i });
            },
        }
        i += 1;
    }
    Ok(points)
}

} // verus!
