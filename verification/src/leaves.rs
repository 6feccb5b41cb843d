//! Leaf registrations: every scalar value type and every
//! framework-context handle is an inert contributor.  None of them is part
//! of the wire contract, so none of them may appear in the generated
//! descriptor: all five operations leave every structure unchanged.

use crate::descriptor::{DefinitionsMap, OperationDescriptor, SecurityDefinitionsMap};
use crate::modifier::{Contribution, OperationDescription, OperationModifier};
use vstd::prelude::*;

verus! {

/// Declares `actix_web::HttpRequest`, the raw request handle.
#[verifier::external_type_specification]
#[verifier::external_body]
pub struct ExHttpRequest(actix_web::HttpRequest);

/// Declares `actix_web::body::BoxBody`, the default response body.
#[verifier::external_type_specification]
#[verifier::external_body]
pub struct ExBoxBody(actix_web::body::BoxBody);

/// Declares `actix_web::HttpResponse`, the raw response handle.
#[verifier::external_type_specification]
#[verifier::external_body]
#[verifier::reject_recursive_types(B)]
pub struct ExHttpResponse<B>(actix_web::HttpResponse<B>);

/// Declares `actix_web::web::Bytes`, the raw byte-buffer payload.
#[verifier::external_type_specification]
#[verifier::external_body]
pub struct ExBytes(actix_web::web::Bytes);

/// Declares `actix_web::web::Payload`, the raw streaming payload handle.
#[verifier::external_type_specification]
#[verifier::external_body]
pub struct ExPayload(actix_web::web::Payload);

/// Declares `actix_web::web::ReqData`, the per-request injected-data
/// handle.
#[verifier::external_type_specification]
#[verifier::external_body]
#[verifier::reject_recursive_types(T)]
pub struct ExReqData<T: Clone + 'static>(actix_web::web::ReqData<T>);

/// Declares `actix_session::Session`, the per-request session handle.
#[verifier::external_type_specification]
#[verifier::external_body]
pub struct ExSession(actix_session::Session);

/// Declares `actix_files::NamedFile`, the file-response handle.
#[verifier::external_type_specification]
#[verifier::external_body]
pub struct ExNamedFile(actix_files::NamedFile);

/// Declares `chrono::NaiveDateTime`, the date-time scalar.
#[verifier::external_type_specification]
#[verifier::external_body]
pub struct ExNaiveDateTime(chrono::NaiveDateTime);

/// Declares `rust_decimal::Decimal`, the decimal scalar.
#[verifier::external_type_specification]
#[verifier::external_body]
pub struct ExDecimal(rust_decimal::Decimal);

/// Declares `url::Url`, the URL scalar.
#[verifier::external_type_specification]
#[verifier::external_body]
pub struct ExUrl(url::Url);

/// Declares `uuid::Uuid`, the UUID scalar.
#[verifier::external_type_specification]
#[verifier::external_body]
pub struct ExUuid(uuid::Uuid);

impl OperationModifier for bool {
    open spec fn contribution() -> Contribution {
        Contribution::inert()
    }

    fn update_parameter(op: &mut OperationDescriptor) {
    }

    fn update_response(op: &mut OperationDescriptor) {
    }

    fn update_definitions(map: &mut DefinitionsMap) {
    }

    fn update_security(op: &mut OperationDescriptor) {
    }

    fn update_security_definitions(map: &mut SecurityDefinitionsMap) {
    }
}

impl OperationModifier for char {
    open spec fn contribution() -> Contribution {
        Contribution::inert()
    }

    fn update_parameter(op: &mut OperationDescriptor) {
    }

    fn update_response(op: &mut OperationDescriptor) {
    }

    fn update_definitions(map: &mut DefinitionsMap) {
    }

    fn update_security(op: &mut OperationDescriptor) {
    }

    fn update_security_definitions(map: &mut SecurityDefinitionsMap) {
    }
}

impl OperationModifier for String {
    open spec fn contribution() -> Contribution {
        Contribution::inert()
    }

    fn update_parameter(op: &mut OperationDescriptor) {
    }

    fn update_response(op: &mut OperationDescriptor) {
    }

    fn update_definitions(map: &mut DefinitionsMap) {
    }

    fn update_security(op: &mut OperationDescriptor) {
    }

    fn update_security_definitions(map: &mut SecurityDefinitionsMap) {
    }
}

impl<'a> OperationModifier for &'a str {
    open spec fn contribution() -> Contribution {
        Contribution::inert()
    }

    fn update_parameter(op: &mut OperationDescriptor) {
    }

    fn update_response(op: &mut OperationDescriptor) {
    }

    fn update_definitions(map: &mut DefinitionsMap) {
    }

    fn update_security(op: &mut OperationDescriptor) {
    }

    fn update_security_definitions(map: &mut SecurityDefinitionsMap) {
    }
}

impl<'a, T: OperationModifier> OperationModifier for &'a [T] {
    open spec fn contribution() -> Contribution {
        Contribution::inert()
    }

    fn update_parameter(op: &mut OperationDescriptor) {
    }

    fn update_response(op: &mut OperationDescriptor) {
    }

    fn update_definitions(map: &mut DefinitionsMap) {
    }

    fn update_security(op: &mut OperationDescriptor) {
    }

    fn update_security_definitions(map: &mut SecurityDefinitionsMap) {
    }
}

impl OperationModifier for i8 {
    open spec fn contribution() -> Contribution {
        Contribution::inert()
    }

    fn update_parameter(op: &mut OperationDescriptor) {
    }

    fn update_response(op: &mut OperationDescriptor) {
    }

    fn update_definitions(map: &mut DefinitionsMap) {
    }

    fn update_security(op: &mut OperationDescriptor) {
    }

    fn update_security_definitions(map: &mut SecurityDefinitionsMap) {
    }
}

impl OperationModifier for i16 {
    open spec fn contribution() -> Contribution {
        Contribution::inert()
    }

    fn update_parameter(op: &mut OperationDescriptor) {
    }

    fn update_response(op: &mut OperationDescriptor) {
    }

    fn update_definitions(map: &mut DefinitionsMap) {
    }

    fn update_security(op: &mut OperationDescriptor) {
    }

    fn update_security_definitions(map: &mut SecurityDefinitionsMap) {
    }
}

impl OperationModifier for i32 {
    open spec fn contribution() -> Contribution {
        Contribution::inert()
    }

    fn update_parameter(op: &mut OperationDescriptor) {
    }

    fn update_response(op: &mut OperationDescriptor) {
    }

    fn update_definitions(map: &mut DefinitionsMap) {
    }

    fn update_security(op: &mut OperationDescriptor) {
    }

    fn update_security_definitions(map: &mut SecurityDefinitionsMap) {
    }
}

impl OperationModifier for i64 {
    open spec fn contribution() -> Contribution {
        Contribution::inert()
    }

    fn update_parameter(op: &mut OperationDescriptor) {
    }

    fn update_response(op: &mut OperationDescriptor) {
    }

    fn update_definitions(map: &mut DefinitionsMap) {
    }

    fn update_security(op: &mut OperationDescriptor) {
    }

    fn update_security_definitions(map: &mut SecurityDefinitionsMap) {
    }
}

impl OperationModifier for i128 {
    open spec fn contribution() -> Contribution {
        Contribution::inert()
    }

    fn update_parameter(op: &mut OperationDescriptor) {
    }

    fn update_response(op: &mut OperationDescriptor) {
    }

    fn update_definitions(map: &mut DefinitionsMap) {
    }

    fn update_security(op: &mut OperationDescriptor) {
    }

    fn update_security_definitions(map: &mut SecurityDefinitionsMap) {
    }
}

impl OperationModifier for isize {
    open spec fn contribution() -> Contribution {
        Contribution::inert()
    }

    fn update_parameter(op: &mut OperationDescriptor) {
    }

    fn update_response(op: &mut OperationDescriptor) {
    }

    fn update_definitions(map: &mut DefinitionsMap) {
    }

    fn update_security(op: &mut OperationDescriptor) {
    }

    fn update_security_definitions(map: &mut SecurityDefinitionsMap) {
    }
}

impl OperationModifier for u8 {
    open spec fn contribution() -> Contribution {
        Contribution::inert()
    }

    fn update_parameter(op: &mut OperationDescriptor) {
    }

    fn update_response(op: &mut OperationDescriptor) {
    }

    fn update_definitions(map: &mut DefinitionsMap) {
    }

    fn update_security(op: &mut OperationDescriptor) {
    }

    fn update_security_definitions(map: &mut SecurityDefinitionsMap) {
    }
}

impl OperationModifier for u16 {
    open spec fn contribution() -> Contribution {
        Contribution::inert()
    }

    fn update_parameter(op: &mut OperationDescriptor) {
    }

    fn update_response(op: &mut OperationDescriptor) {
    }

    fn update_definitions(map: &mut DefinitionsMap) {
    }

    fn update_security(op: &mut OperationDescriptor) {
    }

    fn update_security_definitions(map: &mut SecurityDefinitionsMap) {
    }
}

impl OperationModifier for u32 {
    open spec fn contribution() -> Contribution {
        Contribution::inert()
    }

    fn update_parameter(op: &mut OperationDescriptor) {
    }

    fn update_response(op: &mut OperationDescriptor) {
    }

    fn update_definitions(map: &mut DefinitionsMap) {
    }

    fn update_security(op: &mut OperationDescriptor) {
    }

    fn update_security_definitions(map: &mut SecurityDefinitionsMap) {
    }
}

impl OperationModifier for u64 {
    open spec fn contribution() -> Contribution {
        Contribution::inert()
    }

    fn update_parameter(op: &mut OperationDescriptor) {
    }

    fn update_response(op: &mut OperationDescriptor) {
    }

    fn update_definitions(map: &mut DefinitionsMap) {
    }

    fn update_security(op: &mut OperationDescriptor) {
    }

    fn update_security_definitions(map: &mut SecurityDefinitionsMap) {
    }
}

impl OperationModifier for u128 {
    open spec fn contribution() -> Contribution {
        Contribution::inert()
    }

    fn update_parameter(op: &mut OperationDescriptor) {
    }

    fn update_response(op: &mut OperationDescriptor) {
    }

    fn update_definitions(map: &mut DefinitionsMap) {
    }

    fn update_security(op: &mut OperationDescriptor) {
    }

    fn update_security_definitions(map: &mut SecurityDefinitionsMap) {
    }
}

impl OperationModifier for usize {
    open spec fn contribution() -> Contribution {
        Contribution::inert()
    }

    fn update_parameter(op: &mut OperationDescriptor) {
    }

    fn update_response(op: &mut OperationDescriptor) {
    }

    fn update_definitions(map: &mut DefinitionsMap) {
    }

    fn update_security(op: &mut OperationDescriptor) {
    }

    fn update_security_definitions(map: &mut SecurityDefinitionsMap) {
    }
}

impl OperationModifier for chrono::NaiveDateTime {
    open spec fn contribution() -> Contribution {
        Contribution::inert()
    }

    fn update_parameter(op: &mut OperationDescriptor) {
    }

    fn update_response(op: &mut OperationDescriptor) {
    }

    fn update_definitions(map: &mut DefinitionsMap) {
    }

    fn update_security(op: &mut OperationDescriptor) {
    }

    fn update_security_definitions(map: &mut SecurityDefinitionsMap) {
    }
}

impl OperationModifier for rust_decimal::Decimal {
    open spec fn contribution() -> Contribution {
        Contribution::inert()
    }

    fn update_parameter(op: &mut OperationDescriptor) {
    }

    fn update_response(op: &mut OperationDescriptor) {
    }

    fn update_definitions(map: &mut DefinitionsMap) {
    }

    fn update_security(op: &mut OperationDescriptor) {
    }

    fn update_security_definitions(map: &mut SecurityDefinitionsMap) {
    }
}

impl OperationModifier for url::Url {
    open spec fn contribution() -> Contribution {
        Contribution::inert()
    }

    fn update_parameter(op: &mut OperationDescriptor) {
    }

    fn update_response(op: &mut OperationDescriptor) {
    }

    fn update_definitions(map: &mut DefinitionsMap) {
    }

    fn update_security(op: &mut OperationDescriptor) {
    }

    fn update_security_definitions(map: &mut SecurityDefinitionsMap) {
    }
}

impl OperationModifier for uuid::Uuid {
    open spec fn contribution() -> Contribution {
        Contribution::inert()
    }

    fn update_parameter(op: &mut OperationDescriptor) {
    }

    fn update_response(op: &mut OperationDescriptor) {
    }

    fn update_definitions(map: &mut DefinitionsMap) {
    }

    fn update_security(op: &mut OperationDescriptor) {
    }

    fn update_security_definitions(map: &mut SecurityDefinitionsMap) {
    }
}

impl OperationModifier for actix_web::HttpRequest {
    open spec fn contribution() -> Contribution {
        Contribution::inert()
    }

    fn update_parameter(op: &mut OperationDescriptor) {
    }

    fn update_response(op: &mut OperationDescriptor) {
    }

    fn update_definitions(map: &mut DefinitionsMap) {
    }

    fn update_security(op: &mut OperationDescriptor) {
    }

    fn update_security_definitions(map: &mut SecurityDefinitionsMap) {
    }
}

impl OperationModifier for actix_web::HttpResponse {
    open spec fn contribution() -> Contribution {
        Contribution::inert()
    }

    fn update_parameter(op: &mut OperationDescriptor) {
    }

    fn update_response(op: &mut OperationDescriptor) {
    }

    fn update_definitions(map: &mut DefinitionsMap) {
    }

    fn update_security(op: &mut OperationDescriptor) {
    }

    fn update_security_definitions(map: &mut SecurityDefinitionsMap) {
    }
}

impl OperationModifier for actix_web::web::Bytes {
    open spec fn contribution() -> Contribution {
        Contribution::inert()
    }

    fn update_parameter(op: &mut OperationDescriptor) {
    }

    fn update_response(op: &mut OperationDescriptor) {
    }

    fn update_definitions(map: &mut DefinitionsMap) {
    }

    fn update_security(op: &mut OperationDescriptor) {
    }

    fn update_security_definitions(map: &mut SecurityDefinitionsMap) {
    }
}

impl OperationModifier for actix_web::web::Payload {
    open spec fn contribution() -> Contribution {
        Contribution::inert()
    }

    fn update_parameter(op: &mut OperationDescriptor) {
    }

    fn update_response(op: &mut OperationDescriptor) {
    }

    fn update_definitions(map: &mut DefinitionsMap) {
    }

    fn update_security(op: &mut OperationDescriptor) {
    }

    fn update_security_definitions(map: &mut SecurityDefinitionsMap) {
    }
}

impl<T: Clone + 'static> OperationModifier for actix_web::web::ReqData<T> {
    open spec fn contribution() -> Contribution {
        Contribution::inert()
    }

    fn update_parameter(op: &mut OperationDescriptor) {
    }

    fn update_response(op: &mut OperationDescriptor) {
    }

    fn update_definitions(map: &mut DefinitionsMap) {
    }

    fn update_security(op: &mut OperationDescriptor) {
    }

    fn update_security_definitions(map: &mut SecurityDefinitionsMap) {
    }
}

impl OperationModifier for actix_session::Session {
    open spec fn contribution() -> Contribution {
        Contribution::inert()
    }

    fn update_parameter(op: &mut OperationDescriptor) {
    }

    fn update_response(op: &mut OperationDescriptor) {
    }

    fn update_definitions(map: &mut DefinitionsMap) {
    }

    fn update_security(op: &mut OperationDescriptor) {
    }

    fn update_security_definitions(map: &mut SecurityDefinitionsMap) {
    }
}

impl OperationModifier for actix_files::NamedFile {
    open spec fn contribution() -> Contribution {
        Contribution::inert()
    }

    fn update_parameter(op: &mut OperationDescriptor) {
    }

    fn update_response(op: &mut OperationDescriptor) {
    }

    fn update_definitions(map: &mut DefinitionsMap) {
    }

    fn update_security(op: &mut OperationDescriptor) {
    }

    fn update_security_definitions(map: &mut SecurityDefinitionsMap) {
    }
}

/// A bare response handle describes a whole operation that declares
/// nothing: an empty descriptor and empty maps.
impl OperationDescription for actix_web::HttpResponse {
    open spec fn spec_operation() -> crate::descriptor::OperationView {
        crate::descriptor::OperationView::empty_op()
    }

    open spec fn spec_definitions() -> Map<Seq<char>, crate::models::SchemaView> {
        Map::empty()
    }

    open spec fn spec_security_definitions() -> Map<Seq<char>, crate::models::SecuritySchemeView> {
        Map::empty()
    }

    fn operation() -> OperationDescriptor {
        OperationDescriptor::new()
    }

    fn definitions() -> DefinitionsMap {
        crate::strmap::StringMap::new()
    }

    fn security_definitions() -> SecurityDefinitionsMap {
        crate::strmap::StringMap::new()
    }
}

} // verus!
