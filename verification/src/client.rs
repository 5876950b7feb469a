use vstd::prelude::*;
use crate::error::{ApiError, DecodeError};
use crate::fields::{Fields, keys_unique};
use crate::value::{
    Timestamp, ValueModel, WireValue, decode_pairs, encode_pairs, spec_decode_pairs,
    spec_encode_pairs, wire_pairs_model,
};

verus! {

/// A document snapshot held by the client: ephemeral and read-only; the
/// remote store owns the document.
#[derive(Debug, PartialEq)]
pub struct Document {
    pub id: String,
    pub fields: Fields,
    pub create_time: Option<Timestamp>,
    pub update_time: Option<Timestamp>,
}

/// A document as the wire carries it.
#[derive(Debug, PartialEq)]
pub struct WireDocument {
    pub name: String,
    pub fields: Vec<(String, WireValue)>,
    pub create_time: Option<Timestamp>,
    pub update_time: Option<Timestamp>,
}

/// What decoding a wire document's fields yields.
pub open spec fn spec_document_fields(w: WireDocument) -> Result<Seq<(Seq<char>, ValueModel)>, DecodeError> {
    spec_decode_pairs(wire_pairs_model(w.fields@))
}

/// A wire document is well formed when its fields decode and name no key
/// twice.
pub open spec fn spec_document_decodes(w: WireDocument) -> bool {
    spec_document_fields(w) matches Ok(ms) && keys_unique(ms)
}

/// Decodes one received document. An unset value inside is the codec's
/// error; a duplicated field name is an unexpected server failure. Both
/// are malformed-document failures, distinct from a missing document.
pub fn decode_document(w: &WireDocument) -> (r: Result<Document, ApiError>)
    ensures
        spec_document_fields(*w) matches Err(e) ==> r == Result::<Document, ApiError>::Err(
            ApiError::Decode(e),
        ),
        spec_document_fields(*w) matches Ok(ms) ==> (!keys_unique(ms) ==> r == Result::<
            Document,
            ApiError,
        >::Err(ApiError::Internal)),
        spec_document_fields(*w) matches Ok(ms) ==> (keys_unique(ms) ==> r is Ok
            && (r->Ok_0).id@ == w.name@ && (r->Ok_0).fields@ == ms && (r->Ok_0).fields.wf()
            && (r->Ok_0).create_time == w.create_time && (r->Ok_0).update_time == w.update_time),
{
    match decode_pairs(&w.fields) {
        Err(e) => Err(ApiError::Decode(e)),
        Ok(vs) => match Fields::from_pairs(vs) {
            None => Err(ApiError::Internal),
            Some(fields) => Ok(
                Document {
                    id: w.name.clone(),
                    fields,
                    create_time: w.create_time,
                    update_time: w.update_time,
                },
            ),
        },
    }
}

/// Turns one page of a raw listing into document snapshots. A collection
/// with no documents is an empty sequence, not an error; one malformed
/// document is the failure of the whole response.
pub fn process_list_response(docs: &Vec<WireDocument>, next_page_token: String) -> (r: Result<
    (Vec<Document>, String),
    ApiError,
>)
    ensures
        docs@.len() == 0 ==> r is Ok && (r->Ok_0).0@.len() == 0,
        (forall|i: int| 0 <= i < docs@.len() ==> spec_document_decodes(#[trigger] docs@[i])) <==> r is Ok,
        r is Ok ==> (r->Ok_0).0@.len() == docs@.len() && ((r->Ok_0).1)@ == next_page_token@
            && forall|i: int|
            0 <= i < docs@.len() ==> {
                let d = (r->Ok_0).0@[i];
                &&& d.id@ == (#[trigger] docs@[i]).name@
                &&& (spec_document_fields(docs@[i]) matches Ok(ms) && d.fields@ == ms)
                &&& d.fields.wf()
                &&& d.create_time == docs@[i].create_time
                &&& d.update_time == docs@[i].update_time
            },
{
    let mut out: Vec<Document> = Vec::new();
    let mut i: usize = 0;
    while i < docs.len()
        invariant
            i <= docs@.len(),
            out@.len() == i,
            forall|k: int| 0 <= k < i ==> spec_document_decodes(#[trigger] docs@[k]),
            forall|k: int|
                0 <= k < i ==> {
                    let d = out@[k];
                    &&& d.id@ == (#[trigger] docs@[k]).name@
                    &&& spec_document_fields(docs@[k]) matches Ok(ms) && d.fields@ == ms
                    &&& d.fields.wf()
                    &&& d.create_time == docs@[k].create_time
                    &&& d.update_time == docs@[k].update_time
                },
        decreases docs@.len() - i,
    {
        match decode_document(&docs[i]) {
            Err(e) => {
                proof {
                    assert(!spec_document_decodes(docs@[i as int]));
                }
                return Err(e);
            },
            Ok(d) => {
                out.push(d);
            },
        }
        i = i + 1;
    }
    Ok((out, next_page_token))
}

/// A listing request for one page of a collection.
#[derive(Debug, PartialEq)]
pub struct ListDocumentsRequest {
    pub parent: String,
    pub collection_id: String,
    pub page_size: i32,
    pub page_token: String,
}

/// Validates and builds a listing request. An empty parent path or
/// collection identifier is rejected; a page size of zero or below means
/// "no explicit limit" and is normalized to zero, leaving the server's
/// default to apply.
pub fn build_list_request(parent: &str, collection_id: &str, page_size: i32, page_token: &str) -> (r:
    Result<ListDocumentsRequest, ApiError>)
    ensures
        (parent@.len() == 0 || collection_id@.len() == 0) ==> (r matches Err(e) && e is InvalidArgument),
        (parent@.len() > 0 && collection_id@.len() > 0) ==> (r matches Ok(q) && q.parent@ == parent@
            && q.collection_id@ == collection_id@ && q.page_token@ == page_token@ && q.page_size == (
        if page_size <= 0 {
            0i32
        } else {
            page_size
        })),
{
    if parent.is_empty() || collection_id.is_empty() {
        return Err(ApiError::InvalidArgument { reason: "empty collection path".to_owned() });
    }
    Ok(
        ListDocumentsRequest {
            parent: parent.to_owned(),
            collection_id: collection_id.to_owned(),
            page_size: if page_size <= 0 {
                0
            } else {
                page_size
            },
            page_token: page_token.to_owned(),
        },
    )
}

/// A request for one document, with an optional field mask restricting
/// which fields come back.
#[derive(Debug, PartialEq)]
pub struct GetDocumentRequest {
    pub name: String,
    pub mask_fields: Option<Vec<String>>,
}

/// Validates and builds a get request; an empty document path is rejected.
pub fn build_get_request(name: &str, mask_fields: Option<Vec<String>>) -> (r: Result<
    GetDocumentRequest,
    ApiError,
>)
    ensures
        name@.len() == 0 ==> (r matches Err(e) && e is InvalidArgument),
        name@.len() > 0 ==> (r matches Ok(q) && q.name@ == name@ && q.mask_fields == mask_fields),
{
    if name.is_empty() {
        return Err(ApiError::InvalidArgument { reason: "empty document path".to_owned() });
    }
    Ok(GetDocumentRequest { name: name.to_owned(), mask_fields })
}

/// A creation request: where the document goes, the identifier it asks for
/// — empty when the store is to assign one — and its encoded fields.
#[derive(Debug, PartialEq)]
pub struct CreateDocumentRequest {
    pub parent: String,
    pub collection_id: String,
    pub document_id: String,
    pub fields: Vec<(String, WireValue)>,
}

/// Validates and builds a creation request. An empty parent path or
/// collection identifier is rejected; the fields go out exactly as the
/// codec encodes them.
pub fn build_create_request(
    parent: &str,
    collection_id: &str,
    document_id: Option<&str>,
    fields: &Fields,
) -> (r: Result<CreateDocumentRequest, ApiError>)
    ensures
        (parent@.len() == 0 || collection_id@.len() == 0) ==> (r matches Err(e) && e is InvalidArgument),
        (parent@.len() > 0 && collection_id@.len() > 0) ==> (r matches Ok(q) && q.parent@ == parent@
            && q.collection_id@ == collection_id@ && wire_pairs_model(q.fields@) == spec_encode_pairs(
            fields@,
        ) && (match document_id {
            Some(d) => q.document_id@ == d@,
            None => q.document_id@ == Seq::<char>::empty(),
        })),
{
    if parent.is_empty() || collection_id.is_empty() {
        return Err(ApiError::InvalidArgument { reason: "empty collection path".to_owned() });
    }
    let id = match document_id {
        Some(d) => d.to_owned(),
        None => String::new(),
    };
    Ok(
        CreateDocumentRequest {
            parent: parent.to_owned(),
            collection_id: collection_id.to_owned(),
            document_id: id,
            fields: encode_pairs(fields.raw_pairs()),
        },
    )
}

/// What the client does with one attempt's outcome.
#[derive(Clone, Copy, PartialEq, Eq, Structural, Debug)]
pub enum RetryDecision {
    /// Hand the success to the caller.
    Deliver,
    /// Force one credential refresh and retry the call once.
    RefreshAndRetry,
    /// Surface the failure to the caller; no further attempt.
    Surface,
}

/// The decision rule for one attempt: a success is delivered; the first
/// authentication rejection forces one refresh and one retry; everything
/// else — and any rejection once a retry has happened — surfaces.
pub open spec fn spec_retry_decision(already_retried: bool, outcome_ok: bool, unauthenticated: bool) -> RetryDecision {
    if outcome_ok {
        RetryDecision::Deliver
    } else if unauthenticated && !already_retried {
        RetryDecision::RefreshAndRetry
    } else {
        RetryDecision::Surface
    }
}

/// Decides what to do with one attempt's outcome.
pub fn on_call_outcome<T>(already_retried: bool, outcome: &Result<T, ApiError>) -> (r: RetryDecision)
    ensures
        r == spec_retry_decision(
            already_retried,
            outcome is Ok,
            outcome matches Err(ApiError::Unauthenticated),
        ),
{
    match outcome {
        Ok(_) => RetryDecision::Deliver,
        Err(ApiError::Unauthenticated) => {
            if already_retried {
                RetryDecision::Surface
            } else {
                RetryDecision::RefreshAndRetry
            }
        },
        Err(_) => RetryDecision::Surface,
    }
}

/// An authentication rejection triggers exactly one forced refresh and one
/// retried call; a second rejection, on the retry, surfaces to the caller
/// with no further attempt.
pub proof fn lemma_unauthenticated_retry<T>(first: Result<T, ApiError>, second: Result<T, ApiError>)
    requires
        first matches Err(ApiError::Unauthenticated),
        second matches Err(ApiError::Unauthenticated),
    ensures
        spec_retry_decision(false, first is Ok, first matches Err(ApiError::Unauthenticated))
            == RetryDecision::RefreshAndRetry,
        spec_retry_decision(true, second is Ok, second matches Err(ApiError::Unauthenticated))
            == RetryDecision::Surface,
{
}

} // verus!
