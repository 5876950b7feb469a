use vstd::prelude::*;
use crate::error::MappingError;
use crate::fields::{Fields, spec_lookup};
use crate::value::{Value, ValueModel, FieldType, spec_type_of};

verus! {

/// Extracts a required text field: present and of kind Text, or the exact
/// failure — a missing key, or the actual kind found in its place.
pub fn get_text_field(fields: &Fields, name: &str) -> (r: Result<String, MappingError>)
    ensures
        spec_lookup(fields@, name@) is None ==> (r matches Err(MappingError::MissingField { field })
            && field@ == name@),
        spec_lookup(fields@, name@) matches Some(ValueModel::Text(s)) ==> r is Ok && (r->Ok_0)@ == s,
        spec_lookup(fields@, name@) matches Some(m) ==> (!(m is Text) ==> (r matches Err(
            MappingError::TypeMismatch { field, expected, actual },
        ) && field@ == name@ && expected == FieldType::Text && actual == spec_type_of(m))),
{
    match fields.get(name) {
        None => Err(MappingError::MissingField { field: name.to_owned() }),
        Some(v) => match v.as_text() {
            Ok(s) => Ok(s),
            Err(actual) => Err(MappingError::TypeMismatch {
                field: name.to_owned(),
                expected: FieldType::Text,
                actual,
            }),
        },
    }
}

/// Extracts a required boolean field; as `get_text_field`, with no coercion.
pub fn get_boolean_field(fields: &Fields, name: &str) -> (r: Result<bool, MappingError>)
    ensures
        spec_lookup(fields@, name@) is None ==> (r matches Err(MappingError::MissingField { field })
            && field@ == name@),
        spec_lookup(fields@, name@) matches Some(ValueModel::Boolean(b)) ==> r
            == Result::<bool, MappingError>::Ok(b),
        spec_lookup(fields@, name@) matches Some(m) ==> (!(m is Boolean) ==> (r matches Err(
            MappingError::TypeMismatch { field, expected, actual },
        ) && field@ == name@ && expected == FieldType::Boolean && actual == spec_type_of(m))),
{
    match fields.get(name) {
        None => Err(MappingError::MissingField { field: name.to_owned() }),
        Some(v) => match v.as_boolean() {
            Ok(b) => Ok(b),
            Err(actual) => Err(MappingError::TypeMismatch {
                field: name.to_owned(),
                expected: FieldType::Boolean,
                actual,
            }),
        },
    }
}

/// One schema entry satisfied: the named field is present and carries the
/// declared kind.
pub open spec fn spec_entry_satisfied(fields: Seq<(Seq<char>, ValueModel)>, name: Seq<char>, ty: FieldType) -> bool {
    match spec_lookup(fields, name) {
        Some(m) => spec_type_of(m) == ty,
        None => false,
    }
}

/// Checks a raw field mapping against a record schema — a table of field
/// names and the kinds their values must carry. The mapper is generic over
/// that table, not over one record shape. A missing key or a wrong kind is
/// reported with the field's name and, for a mismatch, both kinds.
pub fn check_schema(fields: &Fields, schema: &Vec<(String, FieldType)>) -> (r: Result<(), MappingError>)
    ensures
        r is Ok <==> (forall|i: int| 0 <= i < schema@.len() ==> spec_entry_satisfied(
            fields@,
            #[trigger] schema@[i].0@,
            schema@[i].1,
        )),
        r matches Err(MappingError::MissingField { field }) ==> spec_lookup(fields@, field@) is None
            && exists|i: int| 0 <= i < schema@.len() && #[trigger] schema@[i].0@ == field@,
        r matches Err(MappingError::TypeMismatch { field, expected, actual }) ==> (spec_lookup(
            fields@,
            field@,
        ) matches Some(m) && spec_type_of(m) == actual && actual != expected && exists|i: int|
            0 <= i < schema@.len() && #[trigger] schema@[i].0@ == field@ && schema@[i].1 == expected),
{
    let mut i: usize = 0;
    while i < schema.len()
        invariant
            i <= schema@.len(),
            forall|k: int| 0 <= k < i ==> spec_entry_satisfied(fields@, #[trigger] schema@[k].0@, schema@[k].1),
        decreases schema@.len() - i,
    {
        let name = schema[i].0.as_str();
        let expected = schema[i].1;
        match fields.get(name) {
            None => {
                return Err(MappingError::MissingField { field: name.to_owned() });
            },
            Some(v) => {
                let actual = v.field_type();
                if actual != expected {
                    return Err(MappingError::TypeMismatch { field: name.to_owned(), expected, actual });
                }
            },
        }
        i = i + 1;
    }
    Ok(())
}

/// An application record: the projection of a document's fields onto a
/// fixed shape, together with the document's identifier.
#[derive(Debug, PartialEq)]
pub struct Task {
    pub document_id: String,
    pub name: String,
    pub done: bool,
}

/// Projects raw fields onto a `Task`: `name` must be text and `done` a
/// boolean, checked in that order; nothing is coerced and nothing defaulted.
pub fn to_record(document_id: String, fields: &Fields) -> (r: Result<Task, MappingError>)
    ensures
        spec_lookup(fields@, "name"@) is None ==> (r matches Err(MappingError::MissingField { field })
            && field@ == "name"@),
        spec_lookup(fields@, "name"@) matches Some(m) ==> (!(m is Text) ==> (r matches Err(
            MappingError::TypeMismatch { field, expected, actual },
        ) && field@ == "name"@ && expected == FieldType::Text && actual == spec_type_of(m))),
        spec_lookup(fields@, "name"@) matches Some(m) ==> ((m is Text && spec_lookup(fields@, "done"@) is None)
            ==> (r matches Err(MappingError::MissingField { field }) && field@ == "done"@)),
        spec_lookup(fields@, "name"@) matches Some(m) ==> (m is Text ==> (spec_lookup(fields@, "done"@)
            matches Some(d) ==> (!(d is Boolean) ==> (r matches Err(
            MappingError::TypeMismatch { field, expected, actual },
        ) && field@ == "done"@ && expected == FieldType::Boolean && actual == spec_type_of(d))))),
        spec_lookup(fields@, "name"@) matches Some(ValueModel::Text(nm)) ==> (spec_lookup(fields@, "done"@)
            matches Some(ValueModel::Boolean(d)) ==> (r is Ok && (r->Ok_0).document_id == document_id
            && (r->Ok_0).name@ == nm && (r->Ok_0).done == d)),
{
    let name = match get_text_field(fields, "name") {
        Ok(s) => s,
        Err(e) => {
            return Err(e);
        },
    };
    let done = match get_boolean_field(fields, "done") {
        Ok(b) => b,
        Err(e) => {
            return Err(e);
        },
    };
    Ok(Task { document_id, name, done })
}

/// The inverse projection: exactly the schema's two fields, in schema
/// order, and nothing else.
pub fn from_record(task: &Task) -> (r: Fields)
    ensures
        r@ == seq![
            ("name"@, ValueModel::Text(task.name@)),
            ("done"@, ValueModel::Boolean(task.done)),
        ],
        r.wf(),
{
    let mut f = Fields::new();
    f.push_field("name".to_owned(), Value::Text(task.name.clone()));
    proof {
        reveal_strlit("name");
        reveal_strlit("done");
        assert("name"@.len() == 4);
        assert("done"@[0] == 'd');
        assert("name"@[0] == 'n');
        assert("name"@ != "done"@);
        assert(f@ =~= seq![("name"@, ValueModel::Text(task.name@))]);
        reveal_with_fuel(spec_lookup, 3);
        assert(f@.subrange(1, f@.len() as int).len() == 0);
        assert(spec_lookup(f@, "done"@) is None);
    }
    f.push_field("done".to_owned(), Value::Boolean(task.done));
    proof {
        assert(f@ =~= seq![
            ("name"@, ValueModel::Text(task.name@)),
            ("done"@, ValueModel::Boolean(task.done)),
        ]);
    }
    f
}

} // verus!
