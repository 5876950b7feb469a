use docstore::error::MappingError;
use docstore::fields::Fields;
use docstore::record::{Task, check_schema, from_record, get_boolean_field, get_text_field, to_record};
use docstore::value::{FieldType, Value};

fn task_fields(name: &str, done: bool) -> Fields {
    Fields::from_pairs(vec![
        (String::from("name"), Value::Text(String::from(name))),
        (String::from("done"), Value::Boolean(done)),
    ])
    .expect("distinct keys")
}

#[test]
fn missing_field_is_reported_by_name() {
    let fields = Fields::from_pairs(vec![
        (String::from("name"), Value::Text(String::from("chiba"))),
    ])
    .expect("distinct keys");
    let r = to_record(String::from("doc1"), &fields);
    assert_eq!(r, Err(MappingError::MissingField { field: String::from("done") }));
}

#[test]
fn end_to_end_task_round_trip() {
    let fields = task_fields("chiba", true);
    let task = to_record(String::from("doc1"), &fields).expect("well-shaped fields");
    assert_eq!(
        task,
        Task { document_id: String::from("doc1"), name: String::from("chiba"), done: true },
    );
    let back = from_record(&task);
    assert_eq!(back, task_fields("chiba", true));
}

#[test]
fn mismatched_field_reports_both_kinds() {
    let fields = Fields::from_pairs(vec![
        (String::from("name"), Value::Boolean(true)),
        (String::from("done"), Value::Boolean(true)),
    ])
    .expect("distinct keys");
    let r = to_record(String::from("doc1"), &fields);
    assert_eq!(
        r,
        Err(MappingError::TypeMismatch {
            field: String::from("name"),
            expected: FieldType::Text,
            actual: FieldType::Boolean,
        }),
    );
}

#[test]
fn mismatched_done_field_is_not_coerced() {
    let fields = Fields::from_pairs(vec![
        (String::from("name"), Value::Text(String::from("chiba"))),
        (String::from("done"), Value::Integer(1)),
    ])
    .expect("distinct keys");
    let r = to_record(String::from("doc1"), &fields);
    assert_eq!(
        r,
        Err(MappingError::TypeMismatch {
            field: String::from("done"),
            expected: FieldType::Boolean,
            actual: FieldType::Integer,
        }),
    );
}

#[test]
fn typed_getters_extract_and_reject() {
    let fields = task_fields("chiba", false);
    assert_eq!(get_text_field(&fields, "name"), Ok(String::from("chiba")));
    assert_eq!(get_boolean_field(&fields, "done"), Ok(false));
    assert_eq!(
        get_boolean_field(&fields, "name"),
        Err(MappingError::TypeMismatch {
            field: String::from("name"),
            expected: FieldType::Boolean,
            actual: FieldType::Text,
        }),
    );
    assert_eq!(
        get_text_field(&fields, "absent"),
        Err(MappingError::MissingField { field: String::from("absent") }),
    );
}

#[test]
fn schema_check_accepts_and_rejects() {
    let fields = task_fields("chiba", true);
    let schema = vec![
        (String::from("name"), FieldType::Text),
        (String::from("done"), FieldType::Boolean),
    ];
    assert_eq!(check_schema(&fields, &schema), Ok(()));

    let wider = vec![
        (String::from("name"), FieldType::Text),
        (String::from("owner"), FieldType::Text),
    ];
    assert_eq!(
        check_schema(&fields, &wider),
        Err(MappingError::MissingField { field: String::from("owner") }),
    );

    let wrong = vec![(String::from("done"), FieldType::Integer)];
    assert_eq!(
        check_schema(&fields, &wrong),
        Err(MappingError::TypeMismatch {
            field: String::from("done"),
            expected: FieldType::Integer,
            actual: FieldType::Boolean,
        }),
    );
}

#[test]
fn duplicate_keys_are_rejected() {
    let r = Fields::from_pairs(vec![
        (String::from("name"), Value::Text(String::from("a"))),
        (String::from("name"), Value::Text(String::from("b"))),
    ]);
    assert!(r.is_none());
}

#[test]
fn fields_lookup_finds_only_present_keys() {
    let fields = task_fields("chiba", true);
    assert_eq!(fields.get("name"), Some(&Value::Text(String::from("chiba"))));
    assert_eq!(fields.get("done"), Some(&Value::Boolean(true)));
    assert_eq!(fields.get("other"), None);
    assert_eq!(fields.len(), 2);
}
