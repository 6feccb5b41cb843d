//! Flat-placeholder wrappers, the file-upload wrapper, schema reference
//! handling, and the sorted map.

use apidesc::descriptor::OperationDescriptor;
use apidesc::models::{Location, Response, Schema, SecurityScheme};
use apidesc::modifier::{definitions_ref, OperationModifier};
use apidesc::order::str_lt;
use apidesc::strmap::StringMap;

struct Plain;

struct WithSchema;

impl apidesc::modifier::SchemaDescriptor for WithSchema {
    fn schema_name() -> Option<String> {
        Some("WithSchema".to_string())
    }

    fn raw_schema() -> Schema {
        Schema {
            name: Some("WithSchema".to_string()),
            reference: None,
            data_type: Some("object".to_string()),
            format: None,
            properties: Vec::new(),
        }
    }

    fn security_scheme() -> Option<SecurityScheme> {
        None
    }
}

fn single_flat_parameter<T: OperationModifier>() -> OperationDescriptor {
    let mut op = OperationDescriptor::new();
    T::update_parameter(&mut op);
    T::update_response(&mut op);
    T::update_security(&mut op);
    assert_eq!(op.parameters.len(), 1);
    assert!(op.parameters[0].required);
    assert!(op.parameters[0].schema.is_none());
    assert_eq!(op.responses.len(), 0);
    assert!(op.security.is_empty());
    op
}

#[test]
fn path_wrapper_yields_flat_placeholder() {
    let op = single_flat_parameter::<actix_web::web::Path<WithSchema>>();
    assert!(op.parameters[0].location == Location::Path);
    assert_eq!(op.parameters[0].name, "path".to_string());
}

#[test]
fn query_wrapper_yields_flat_placeholder() {
    let op = single_flat_parameter::<actix_web::web::Query<Plain>>();
    assert!(op.parameters[0].location == Location::Query);
    assert_eq!(op.parameters[0].name, "query".to_string());
}

#[test]
fn form_wrapper_yields_flat_placeholder() {
    let op = single_flat_parameter::<actix_web::web::Form<Plain>>();
    assert!(op.parameters[0].location == Location::FormData);
    assert_eq!(op.parameters[0].name, "form".to_string());
}

#[test]
fn data_wrapper_yields_flat_placeholder() {
    let op = single_flat_parameter::<actix_web::web::Data<Plain>>();
    assert!(op.parameters[0].location == Location::Data);
    assert_eq!(op.parameters[0].name, "data".to_string());
}

#[test]
fn deep_query_wrapper_yields_flat_placeholder() {
    let op = single_flat_parameter::<serde_qs::actix::QsQuery<Plain>>();
    assert!(op.parameters[0].location == Location::Query);
    assert_eq!(op.parameters[0].name, "query".to_string());
}

#[test]
fn flat_wrapper_discards_wrapped_schema() {
    let mut defs: StringMap<Schema> = StringMap::new();
    <actix_web::web::Path<WithSchema> as OperationModifier>::update_definitions(&mut defs);
    assert_eq!(defs.len(), 0);
}

#[test]
fn multipart_yields_file_parameter() {
    let mut op = OperationDescriptor::new();
    <actix_multipart::Multipart as OperationModifier>::update_parameter(&mut op);
    assert_eq!(op.parameters.len(), 1);
    assert!(op.parameters[0].location == Location::FormData);
    assert_eq!(op.parameters[0].name, "file_data".to_string());
    assert!(op.parameters[0].required);
    assert!(op.parameters[0].schema.is_none());
    assert_eq!(op.parameters[0].data_type, Some("file".to_string()));
    assert_eq!(op.parameters[0].format, None);
}

#[test]
fn retain_ref_keeps_only_the_pointer() {
    let mut s = Schema {
        name: Some("Thing".to_string()),
        reference: Some("#/definitions/Thing".to_string()),
        data_type: Some("object".to_string()),
        format: None,
        properties: vec![Schema {
            name: None,
            reference: None,
            data_type: Some("string".to_string()),
            format: None,
            properties: Vec::new(),
        }],
    };
    s.retain_ref();
    assert_eq!(s.reference, Some("#/definitions/Thing".to_string()));
    assert!(s.name.is_none());
    assert!(s.data_type.is_none());
    assert!(s.properties.is_empty());

    let mut plain = Schema {
        name: None,
        reference: None,
        data_type: Some("string".to_string()),
        format: None,
        properties: Vec::new(),
    };
    plain.retain_ref();
    assert_eq!(plain.data_type, Some("string".to_string()));
}

#[test]
fn definitions_ref_builds_the_pointer_path() {
    assert_eq!(definitions_ref("User"), "#/definitions/User".to_string());
    assert_eq!(definitions_ref(""), "#/definitions/".to_string());
}

#[test]
fn map_iterates_in_sorted_key_order() {
    let mut m: StringMap<Response> = StringMap::new();
    for key in ["delta", "alpha", "charlie", "bravo"] {
        m.insert(key.to_string(), Response { description: None, schema: None });
    }
    assert_eq!(
        m.keys(),
        vec![
            "alpha".to_string(),
            "bravo".to_string(),
            "charlie".to_string(),
            "delta".to_string()
        ]
    );
}

#[test]
fn map_insert_overwrites_and_never_duplicates() {
    let mut m: StringMap<Response> = StringMap::new();
    m.insert(
        "200".to_string(),
        Response { description: Some("first".to_string()), schema: None },
    );
    m.insert(
        "200".to_string(),
        Response { description: Some("second".to_string()), schema: None },
    );
    assert_eq!(m.len(), 1);
    assert_eq!(m.get("200").unwrap().description, Some("second".to_string()));
    assert!(m.get("404").is_none());
    assert!(!m.contains_key("404"));
    assert!(m.contains_key("200"));
}

#[test]
fn string_order_is_lexicographic() {
    assert!(str_lt("abc", "abd"));
    assert!(str_lt("ab", "abc"));
    assert!(!str_lt("abc", "abc"));
    assert!(!str_lt("b", "a"));
    assert!(str_lt("", "a"));
    assert!(str_lt("Zoo", "apple"));
    assert!(str_lt("199", "200"));
}
