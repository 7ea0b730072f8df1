//! Point payloads: the store's own form of a record's metadata, and the
//! call into `qdrant_client` that makes one out of a JSON document.

use crate::json::{json_view, JsonModel};
use vstd::prelude::*;

verus! {

/// `qdrant_client::Payload`, carried as it is.
#[verifier::external_type_specification]
#[verifier::external_body]
pub struct ExPayload(qdrant_client::Payload);

/// `qdrant_client::QdrantError`, the reason why a value was refused as a
/// payload. Nothing is read from it.
#[verifier::external_type_specification]
#[verifier::external_body]
pub struct ExQdrantError(qdrant_client::QdrantError);

/// The members that a `qdrant_client::Payload` holds, by key, each read as
/// a JSON document.
pub uninterp spec fn payload_view(payload: qdrant_client::Payload) -> Map<Seq<char>, JsonModel>;

/// The members of the payload that `Payload::try_from` makes of a JSON
/// object.
pub uninterp spec fn payload_of(document: JsonModel) -> Map<Seq<char>, JsonModel>;

/// Calls `Payload::try_from` on a `serde_json::Value`. Trusted: it succeeds
/// exactly on JSON objects, and the payload it makes is a function of the
/// object alone, named by `payload_of`.
#[verifier::external_body]
pub(crate) fn to_payload(value: serde_json::Value) -> (r: Result<
    qdrant_client::Payload,
    qdrant_client::QdrantError,
>)
    ensures
        match r {
            Ok(payload) => json_view(value) is Object && payload_view(payload) == payload_of(
                json_view(value),
            ),
            Err(_) => !(json_view(value) is Object),
        },
{
    qdrant_client::Payload::try_from(value)
}

} // verus!
