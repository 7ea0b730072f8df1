//! Querying: what is asked of the embedding model and of the store for one
//! free-text query, and what is reported about the best match.

use crate::json::{json_view, member, JsonModel};
use vstd::prelude::*;

verus! {

/// How many matches a search asks for unless told otherwise.
pub const DEFAULT_TOP_K: u64 = 10;

/// What a similarity search asks of the store.
pub struct SearchRequest {
    pub collection: String,
    /// The number of best matches wanted.
    pub limit: u64,
    /// Compare against every stored vector instead of walking the index.
    pub exact: bool,
    /// Hand back each match's payload.
    pub with_payload: bool,
}

/// What is known of two fields of a match: the member found under each key,
/// or `None` where the payload has no such member.
pub struct HitReport<'a> {
    pub description: Option<&'a serde_json::Value>,
    pub link: Option<&'a serde_json::Value>,
}

/// The document behind a member that was looked up.
pub open spec fn found_view(found: Option<&serde_json::Value>) -> Option<JsonModel> {
    match found {
        Some(value) => Some(json_view(*value)),
        None => None,
    }
}

/// The batch handed to the embedding model for a query: the query text and
/// nothing else.
pub fn query_batch(query: &str) -> (batch: Vec<String>)
    ensures
        batch.len() == 1,
        batch[0]@ == query@,
{
    let mut batch: Vec<String> = Vec::new();
    batch.push(query.to_owned());
    batch
}

/// The vector to search with: the first of those that the model returned
/// for the query batch. `None` where it returned none.
pub fn search_vector<V>(embeddings: Vec<V>) -> (r: Option<V>)
    ensures
        match r {
            Some(vector) => embeddings.len() > 0 && vector == embeddings[0],
            None => embeddings.len() == 0,
        },
{
    let mut embeddings = embeddings;
    if embeddings.len() == 0 {
        None
    } else {
        Some(embeddings.swap_remove(0))
    }
}

/// The search for the `top_k` best matches in `collection`: exact, and with
/// payloads.
pub fn search_request(collection: &str, top_k: u64) -> (request: SearchRequest)
    ensures
        request.collection@ == collection@,
        request.limit == top_k,
        request.exact,
        request.with_payload,
{
    SearchRequest { collection: collection.to_owned(), limit: top_k, exact: true, with_payload: true }
}

/// Looks up `description` and `link` in the payload of a match. A missing
/// member is reported as missing; it is no failure.
pub fn describe_hit<'a>(payload: &'a serde_json::Value) -> (report: HitReport<'a>)
    ensures
        found_view(report.description) == json_view(*payload).member("description"@),
        found_view(report.link) == json_view(*payload).member("link"@),
{
    HitReport { description: member(payload, "description"), link: member(payload, "link") }
}

/// Reports on the best match. `hits` holds the payloads of the matches,
/// best first; there is a report exactly when there is a match.
pub fn report_top_hit<'a>(hits: &'a Vec<serde_json::Value>) -> (r: Option<HitReport<'a>>)
    ensures
        match r {
            Some(report) => {
                &&& hits.len() > 0
                &&& found_view(report.description) == json_view(hits[0]).member("description"@)
                &&& found_view(report.link) == json_view(hits[0]).member("link"@)
            },
            None => hits.len() == 0,
        },
{
    if hits.len() == 0 {
        None
    } else {
        Some(describe_hit(&hits[0]))
    }
}

} // verus!
