use docstore::client::{
    RetryDecision, WireDocument, build_create_request, build_get_request, build_list_request,
    decode_document, on_call_outcome, process_list_response,
};
use docstore::error::{ApiError, ConfigError, DecodeError, TransportError, classify_status};
use docstore::fields::Fields;
use docstore::transport::{TransportConfig, attach_authorization, auth_header_value};
use docstore::value::{Value, WireKind, WireValue};

fn task_wire_document(name: &str, task_name: &str, done: bool) -> WireDocument {
    WireDocument {
        name: String::from(name),
        fields: vec![
            (
                String::from("name"),
                WireValue { value_type: Some(WireKind::StringValue(String::from(task_name))) },
            ),
            (String::from("done"), WireValue { value_type: Some(WireKind::BooleanValue(done)) }),
        ],
        create_time: None,
        update_time: None,
    }
}

#[test]
fn empty_collection_lists_as_empty() {
    let r = process_list_response(&vec![], String::from("next"));
    let (docs, token) = r.expect("an empty collection is not an error");
    assert!(docs.is_empty());
    assert_eq!(token, "next");
}

#[test]
fn listed_documents_are_decoded() {
    let wire = vec![
        task_wire_document("projects/p/documents/test/doc1", "chiba", true),
        task_wire_document("projects/p/documents/test/doc2", "tokyo", false),
    ];
    let (docs, _) = process_list_response(&wire, String::new()).expect("well-formed documents");
    assert_eq!(docs.len(), 2);
    assert_eq!(docs[0].id, "projects/p/documents/test/doc1");
    assert_eq!(docs[0].fields.get("name"), Some(&Value::Text(String::from("chiba"))));
    assert_eq!(docs[1].fields.get("done"), Some(&Value::Boolean(false)));
}

#[test]
fn unset_union_in_a_document_fails_the_listing() {
    let wire = vec![WireDocument {
        name: String::from("projects/p/documents/test/doc1"),
        fields: vec![(String::from("name"), WireValue { value_type: None })],
        create_time: None,
        update_time: None,
    }];
    assert_eq!(
        process_list_response(&wire, String::new()),
        Err(ApiError::Decode(DecodeError::EmptyValue)),
    );
}

#[test]
fn duplicated_field_name_is_an_internal_failure() {
    let doc = WireDocument {
        name: String::from("doc"),
        fields: vec![
            (String::from("k"), WireValue { value_type: Some(WireKind::IntegerValue(1)) }),
            (String::from("k"), WireValue { value_type: Some(WireKind::IntegerValue(2)) }),
        ],
        create_time: None,
        update_time: None,
    };
    assert_eq!(decode_document(&doc), Err(ApiError::Internal));
}

#[test]
fn status_codes_map_onto_the_taxonomy() {
    assert!(matches!(classify_status(3, "p"), ApiError::InvalidArgument { .. }));
    assert_eq!(classify_status(4, "p"), ApiError::DeadlineExceeded);
    assert_eq!(classify_status(5, "p"), ApiError::NotFound { path: String::from("p") });
    assert_eq!(classify_status(6, "p"), ApiError::AlreadyExists { path: String::from("p") });
    assert_eq!(classify_status(14, "p"), ApiError::Unavailable);
    assert_eq!(classify_status(16, "p"), ApiError::Unauthenticated);
    assert_eq!(classify_status(0, "p"), ApiError::Internal);
    assert_eq!(classify_status(99, "p"), ApiError::Internal);
}

#[test]
fn only_transient_failures_are_retryable() {
    assert!(ApiError::Unavailable.is_retryable());
    assert!(ApiError::DeadlineExceeded.is_retryable());
    assert!(ApiError::Transport(TransportError::ConnectionRefused).is_retryable());
    assert!(!ApiError::Unauthenticated.is_retryable());
    assert!(!ApiError::NotFound { path: String::new() }.is_retryable());
    assert!(!ApiError::Internal.is_retryable());
}

#[test]
fn list_request_normalizes_the_page_size() {
    let q = build_list_request("projects/p/databases/(default)/documents", "test", -3, "")
        .expect("a valid path");
    assert_eq!(q.page_size, 0);
    assert_eq!(q.collection_id, "test");
    let q2 = build_list_request("projects/p/databases/(default)/documents", "test", 25, "tok")
        .expect("a valid path");
    assert_eq!(q2.page_size, 25);
    assert_eq!(q2.page_token, "tok");
}

#[test]
fn empty_paths_are_invalid_arguments() {
    assert!(matches!(
        build_list_request("", "test", 0, ""),
        Err(ApiError::InvalidArgument { .. }),
    ));
    assert!(matches!(build_get_request("", None), Err(ApiError::InvalidArgument { .. })));
    assert!(matches!(
        build_create_request("parent", "", None, &Fields::new()),
        Err(ApiError::InvalidArgument { .. }),
    ));
}

#[test]
fn get_request_carries_the_mask() {
    let q = build_get_request("projects/p/documents/test/doc1", Some(vec![String::from("name")]))
        .expect("a valid path");
    assert_eq!(q.name, "projects/p/documents/test/doc1");
    assert_eq!(q.mask_fields, Some(vec![String::from("name")]));
}

#[test]
fn create_request_encodes_the_fields() {
    let fields = Fields::from_pairs(vec![
        (String::from("name"), Value::Text(String::from("chiba"))),
        (String::from("done"), Value::Boolean(true)),
    ])
    .expect("distinct keys");
    let q = build_create_request("parent", "test", Some("doc1"), &fields).expect("a valid path");
    assert_eq!(q.document_id, "doc1");
    assert_eq!(q.fields.len(), 2);
    assert_eq!(q.fields[0].0, "name");
    assert_eq!(
        q.fields[0].1,
        WireValue { value_type: Some(WireKind::StringValue(String::from("chiba"))) },
    );
    let unnamed = build_create_request("parent", "test", None, &fields).expect("a valid path");
    assert_eq!(unnamed.document_id, "");
}

#[test]
fn unauthenticated_is_retried_exactly_once() {
    let first: Result<(), ApiError> = Err(ApiError::Unauthenticated);
    let mut forced_refreshes: u32 = 0;
    let mut decision = on_call_outcome(false, &first);
    assert_eq!(decision, RetryDecision::RefreshAndRetry);
    if decision == RetryDecision::RefreshAndRetry {
        forced_refreshes += 1;
        let second: Result<(), ApiError> = Err(ApiError::Unauthenticated);
        decision = on_call_outcome(true, &second);
    }
    assert_eq!(forced_refreshes, 1);
    assert_eq!(decision, RetryDecision::Surface);
}

#[test]
fn other_outcomes_are_not_retried() {
    let ok: Result<u32, ApiError> = Ok(7);
    assert_eq!(on_call_outcome(false, &ok), RetryDecision::Deliver);
    assert_eq!(on_call_outcome(true, &ok), RetryDecision::Deliver);
    let not_found: Result<u32, ApiError> = Err(ApiError::NotFound { path: String::from("p") });
    assert_eq!(on_call_outcome(false, &not_found), RetryDecision::Surface);
}

#[test]
fn bearer_header_is_attached_once() {
    assert_eq!(auth_header_value("abc"), "Bearer abc");
    let mut metadata = vec![(String::from("x-goog-request-params"), String::from("db"))];
    attach_authorization(&mut metadata, "abc");
    assert_eq!(metadata.len(), 2);
    assert_eq!(metadata[0], (String::from("x-goog-request-params"), String::from("db")));
    assert_eq!(metadata[1], (String::from("authorization"), String::from("Bearer abc")));
}

#[test]
fn transport_config_requires_every_piece() {
    assert_eq!(
        TransportConfig::new(String::new(), String::from("d"), vec![1]),
        Err(ConfigError::EmptyEndpoint),
    );
    assert_eq!(
        TransportConfig::new(String::from("https://e"), String::new(), vec![1]),
        Err(ConfigError::EmptyDomainName),
    );
    assert_eq!(
        TransportConfig::new(String::from("https://e"), String::from("d"), vec![]),
        Err(ConfigError::EmptyTrustRoots),
    );
    let cfg = TransportConfig::new(String::from("https://e"), String::from("d"), vec![1, 2])
        .expect("a complete configuration");
    assert_eq!(cfg.endpoint, "https://e");
    assert_eq!(cfg.domain_name, "d");
    assert_eq!(cfg.root_certificates, vec![1, 2]);
}
