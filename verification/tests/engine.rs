//! End-to-end composition scenarios.

use apidesc::descriptor::OperationDescriptor;
use apidesc::models::{Location, Response, Schema, SecurityScheme};
use apidesc::modifier::{compose, compose_return, ErrorDescriptor, OperationModifier, SchemaDescriptor};
use apidesc::strmap::StringMap;

struct UserId;

struct Pagination;

struct CreateUserRequest;

impl SchemaDescriptor for CreateUserRequest {
    fn schema_name() -> Option<String> {
        Some("CreateUserRequest".to_string())
    }

    fn raw_schema() -> Schema {
        Schema {
            name: Some("CreateUserRequest".to_string()),
            reference: None,
            data_type: Some("object".to_string()),
            format: None,
            properties: Vec::new(),
        }
    }

    fn security_scheme() -> Option<SecurityScheme> {
        None
    }
}

struct UserResponse;

impl SchemaDescriptor for UserResponse {
    fn schema_name() -> Option<String> {
        Some("UserResponse".to_string())
    }

    fn raw_schema() -> Schema {
        Schema {
            name: Some("UserResponse".to_string()),
            reference: None,
            data_type: Some("object".to_string()),
            format: None,
            properties: Vec::new(),
        }
    }

    fn security_scheme() -> Option<SecurityScheme> {
        None
    }
}

struct ApiError;

impl ErrorDescriptor for ApiError {
    fn update_error_definitions(op: &mut OperationDescriptor) {
        op.insert_response(
            "400".to_string(),
            Response { description: Some("Bad Request".to_string()), schema: None },
        );
        op.insert_response(
            "404".to_string(),
            Response { description: Some("Not Found".to_string()), schema: None },
        );
    }

    fn update_definitions(map: &mut StringMap<Schema>) {
        map.insert(
            "ApiErrorBody".to_string(),
            Schema {
                name: Some("ApiErrorBody".to_string()),
                reference: None,
                data_type: Some("object".to_string()),
                format: None,
                properties: Vec::new(),
            },
        );
    }
}

#[test]
fn end_to_end_scenario() {
    let mut op = OperationDescriptor::new();
    let mut defs: StringMap<Schema> = StringMap::new();
    let mut sec: StringMap<SecurityScheme> = StringMap::new();

    compose::<actix_web::web::Path<UserId>>(&mut op, &mut defs, &mut sec);
    compose::<actix_web::web::Query<Pagination>>(&mut op, &mut defs, &mut sec);
    compose::<actix_web::web::Json<CreateUserRequest>>(&mut op, &mut defs, &mut sec);
    compose_return::<Result<actix_web::web::Json<UserResponse>, ApiError>>(&mut op, &mut defs, &mut sec);

    assert_eq!(op.parameters.len(), 3);
    assert!(op.parameters[0].location == Location::Path);
    assert_eq!(op.parameters[0].name, "path".to_string());
    assert!(op.parameters[0].required);
    assert!(op.parameters[0].schema.is_none());
    assert!(op.parameters[1].location == Location::Query);
    assert_eq!(op.parameters[1].name, "query".to_string());
    assert!(op.parameters[1].required);
    assert!(op.parameters[1].schema.is_none());
    assert!(op.parameters[2].location == Location::Body);
    assert_eq!(op.parameters[2].name, "body".to_string());
    assert!(op.parameters[2].required);
    let body_schema = op.parameters[2].schema.as_ref().unwrap();
    assert_eq!(
        body_schema.reference,
        Some("#/definitions/CreateUserRequest".to_string())
    );
    assert!(body_schema.name.is_none());
    assert!(body_schema.properties.is_empty());

    let response_keys = op.responses.keys();
    assert_eq!(
        response_keys,
        vec!["200".to_string(), "400".to_string(), "404".to_string()]
    );
    let ok = op.responses.get("200").unwrap();
    assert_eq!(ok.description, Some("OK".to_string()));
    assert_eq!(
        ok.schema.as_ref().unwrap().reference,
        Some("#/definitions/UserResponse".to_string())
    );
    let bad = op.responses.get("400").unwrap();
    assert_eq!(bad.description, Some("Bad Request".to_string()));
    let missing = op.responses.get("404").unwrap();
    assert_eq!(missing.description, Some("Not Found".to_string()));

    assert!(defs.get("CreateUserRequest").is_some());
    assert!(defs.get("UserResponse").is_some());
    assert!(defs.get("ApiErrorBody").is_some());
    assert_eq!(defs.len(), 3);
    assert_eq!(sec.len(), 0);
    assert!(op.security.is_empty());
}

type BodyWrapped = actix_web::web::Json<CreateUserRequest>;

struct ClashError;

impl ErrorDescriptor for ClashError {
    fn update_error_definitions(op: &mut OperationDescriptor) {
        op.insert_response(
            "200".to_string(),
            Response { description: Some("Overridden".to_string()), schema: None },
        );
    }

    fn update_definitions(_map: &mut StringMap<Schema>) {}
}

#[test]
fn outcome_error_entry_wins_on_collision() {
    let mut op = OperationDescriptor::new();
    <Result<actix_web::web::Json<UserResponse>, ClashError> as OperationModifier>::update_response(
        &mut op,
    );
    assert_eq!(op.responses.len(), 1);
    let ok = op.responses.get("200").unwrap();
    assert_eq!(ok.description, Some("Overridden".to_string()));
}

#[test]
fn optional_wrapper_is_transparent() {
    let mut direct = OperationDescriptor::new();
    let mut wrapped = OperationDescriptor::new();
    <BodyWrapped as OperationModifier>::update_parameter(&mut direct);
    <BodyWrapped as OperationModifier>::update_response(&mut direct);
    <Option<BodyWrapped> as OperationModifier>::update_parameter(&mut wrapped);
    <Option<BodyWrapped> as OperationModifier>::update_response(&mut wrapped);
    assert_eq!(direct.parameters.len(), wrapped.parameters.len());
    assert_eq!(direct.parameters[0].name, wrapped.parameters[0].name);
    assert!(direct.parameters[0].location == wrapped.parameters[0].location);
    assert_eq!(
        direct.parameters[0].schema.as_ref().unwrap().reference,
        wrapped.parameters[0].schema.as_ref().unwrap().reference
    );
    assert_eq!(direct.responses.len(), wrapped.responses.len());
    assert_eq!(
        direct.responses.get("200").unwrap().description,
        wrapped.responses.get("200").unwrap().description
    );
}

#[test]
fn update_definitions_is_idempotent() {
    let mut defs: StringMap<Schema> = StringMap::new();
    <BodyWrapped as OperationModifier>::update_definitions(&mut defs);
    let once = defs.keys();
    let once_len = defs.len();
    <BodyWrapped as OperationModifier>::update_definitions(&mut defs);
    assert_eq!(defs.keys(), once);
    assert_eq!(defs.len(), once_len);
    assert_eq!(once_len, 1);
    assert_eq!(once, vec!["CreateUserRequest".to_string()]);
}

struct Order;

impl SchemaDescriptor for Order {
    fn schema_name() -> Option<String> {
        Some("Order".to_string())
    }

    fn raw_schema() -> Schema {
        Schema {
            name: Some("Order".to_string()),
            reference: None,
            data_type: Some("object".to_string()),
            format: None,
            properties: vec![Schema {
                name: Some("OrderLine".to_string()),
                reference: None,
                data_type: Some("object".to_string()),
                format: None,
                properties: Vec::new(),
            }],
        }
    }

    fn security_scheme() -> Option<SecurityScheme> {
        None
    }
}

#[test]
fn nested_fragments_are_collected() {
    let mut defs: StringMap<Schema> = StringMap::new();
    <actix_web::web::Json<Order> as OperationModifier>::update_definitions(&mut defs);
    assert_eq!(defs.len(), 2);
    assert_eq!(defs.keys(), vec!["Order".to_string(), "OrderLine".to_string()]);
    let nested = defs.get("OrderLine").unwrap();
    assert_eq!(nested.data_type, Some("object".to_string()));
}

struct Guarded;

impl SchemaDescriptor for Guarded {
    fn schema_name() -> Option<String> {
        Some("Guarded".to_string())
    }

    fn raw_schema() -> Schema {
        Schema {
            name: Some("Guarded".to_string()),
            reference: None,
            data_type: Some("object".to_string()),
            format: None,
            properties: Vec::new(),
        }
    }

    fn security_scheme() -> Option<SecurityScheme> {
        Some(SecurityScheme {
            name: "api_key".to_string(),
            scheme_type: "apiKey".to_string(),
            description: None,
        })
    }
}

#[test]
fn security_scheme_is_collected() {
    let mut op = OperationDescriptor::new();
    let mut defs: StringMap<Schema> = StringMap::new();
    let mut sec: StringMap<SecurityScheme> = StringMap::new();
    compose::<actix_web::web::Json<Guarded>>(&mut op, &mut defs, &mut sec);
    assert_eq!(op.security, vec!["api_key".to_string()]);
    assert_eq!(sec.len(), 1);
    let scheme = sec.get("api_key").unwrap();
    assert_eq!(scheme.scheme_type, "apiKey".to_string());
}
