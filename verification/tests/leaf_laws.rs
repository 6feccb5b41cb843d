//! Inert-leaf scenarios: every scalar and framework handle leaves the
//! descriptor and both maps untouched.

use apidesc::descriptor::OperationDescriptor;
use apidesc::models::{Schema, SecurityScheme};
use apidesc::modifier::{compose, OperationDescription, OperationModifier};
use apidesc::strmap::StringMap;

fn assert_untouched<T: OperationModifier>() {
    let mut op = OperationDescriptor::new();
    let mut defs: StringMap<Schema> = StringMap::new();
    let mut sec: StringMap<SecurityScheme> = StringMap::new();
    compose::<T>(&mut op, &mut defs, &mut sec);
    assert!(op.parameters.is_empty());
    assert_eq!(op.responses.len(), 0);
    assert!(op.security.is_empty());
    assert_eq!(defs.len(), 0);
    assert_eq!(sec.len(), 0);
}

#[test]
fn scalar_leaves_are_inert() {
    assert_untouched::<bool>();
    assert_untouched::<char>();
    assert_untouched::<String>();
    assert_untouched::<&str>();
    assert_untouched::<&[u8]>();
    assert_untouched::<i8>();
    assert_untouched::<i16>();
    assert_untouched::<i32>();
    assert_untouched::<i64>();
    assert_untouched::<i128>();
    assert_untouched::<isize>();
    assert_untouched::<u8>();
    assert_untouched::<u16>();
    assert_untouched::<u32>();
    assert_untouched::<u64>();
    assert_untouched::<u128>();
    assert_untouched::<usize>();
}

#[test]
fn foreign_scalar_leaves_are_inert() {
    assert_untouched::<chrono::NaiveDateTime>();
    assert_untouched::<rust_decimal::Decimal>();
    assert_untouched::<url::Url>();
    assert_untouched::<uuid::Uuid>();
}

#[test]
fn framework_handles_are_inert() {
    assert_untouched::<actix_web::HttpRequest>();
    assert_untouched::<actix_web::HttpResponse>();
    assert_untouched::<actix_web::web::Bytes>();
    assert_untouched::<actix_web::web::Payload>();
    assert_untouched::<actix_web::web::ReqData<u32>>();
    assert_untouched::<actix_session::Session>();
    assert_untouched::<actix_files::NamedFile>();
}

#[test]
fn optional_leaf_is_inert() {
    assert_untouched::<Option<u32>>();
    assert_untouched::<Option<Option<String>>>();
}

#[test]
fn leaf_operations_preserve_existing_state() {
    let mut op = OperationDescriptor::new();
    op.push_security("token".to_string());
    let mut defs: StringMap<Schema> = StringMap::new();
    defs.insert(
        "Kept".to_string(),
        Schema {
            name: Some("Kept".to_string()),
            reference: None,
            data_type: None,
            format: None,
            properties: Vec::new(),
        },
    );
    let mut sec: StringMap<SecurityScheme> = StringMap::new();
    compose::<u64>(&mut op, &mut defs, &mut sec);
    assert_eq!(op.security, vec!["token".to_string()]);
    assert_eq!(defs.len(), 1);
    assert!(defs.get("Kept").is_some());
}

#[test]
fn bare_response_describes_empty_operation() {
    let op = <actix_web::HttpResponse as OperationDescription>::operation();
    assert!(op.parameters.is_empty());
    assert_eq!(op.responses.len(), 0);
    assert!(op.security.is_empty());
    let defs = <actix_web::HttpResponse as OperationDescription>::definitions();
    assert_eq!(defs.len(), 0);
    let sec = <actix_web::HttpResponse as OperationDescription>::security_definitions();
    assert_eq!(sec.len(), 0);
}
