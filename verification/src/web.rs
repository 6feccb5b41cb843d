//! The framework-facing surface: declarations of the web framework's
//! extractor and handle types, the body wrapper, the location-tagged flat
//! wrappers, and the file-upload wrapper.
//!
//! Every `Ex*` struct below only declares an outside type so that it can
//! carry the capability traits of this crate; nothing is assumed about the
//! values of those types, and none of their code is called.

use crate::descriptor::{DefinitionsMap, OperationDescriptor, OperationView,
    SecurityDefinitionsMap};
use crate::models::{Location, Parameter, ParameterView, Response, ResponseView, Schema,
    SchemaView};
use crate::modifier::{append_security_of, definition_entries_of, definitions_path,
    definitions_ref, merge_definitions_of, merge_security_definitions_of,
    security_definitions_of, security_of, Contribution, OperationModifier, SchemaDescriptor,
    TypedPayload};
use crate::strmap::lemma_merge_entries_singleton;
use vstd::prelude::*;

verus! {

broadcast use crate::strmap::lemma_merge_entries_empty, crate::strmap::lemma_seq_add_empty;

/// Declares `actix_web::web::Json`, the whole-body extractor.
#[verifier::external_type_specification]
#[verifier::external_body]
#[verifier::reject_recursive_types(T)]
pub struct ExJson<T>(actix_web::web::Json<T>);

/// Declares `actix_web::web::Path`, the path extractor.
#[verifier::external_type_specification]
#[verifier::external_body]
#[verifier::reject_recursive_types(T)]
pub struct ExPath<T>(actix_web::web::Path<T>);

/// Declares `actix_web::web::Query`, the query-string extractor.
#[verifier::external_type_specification]
#[verifier::external_body]
#[verifier::reject_recursive_types(T)]
pub struct ExQuery<T>(actix_web::web::Query<T>);

/// Declares `actix_web::web::Form`, the url-encoded form extractor.
#[verifier::external_type_specification]
#[verifier::external_body]
#[verifier::reject_recursive_types(T)]
pub struct ExForm<T>(actix_web::web::Form<T>);

/// Declares `actix_web::web::Data`, the injected shared-state handle.
#[verifier::external_type_specification]
#[verifier::external_body]
#[verifier::reject_recursive_types(T)]
pub struct ExData<T: ?Sized>(actix_web::web::Data<T>);

/// Declares `serde_qs::actix::QsQuery`, the deep query-string extractor.
#[verifier::external_type_specification]
#[verifier::external_body]
#[verifier::reject_recursive_types(T)]
pub struct ExQsQuery<T>(serde_qs::actix::QsQuery<T>);

/// Declares `actix_multipart::Multipart`, the file-upload payload.
#[verifier::external_type_specification]
#[verifier::external_body]
pub struct ExMultipart(actix_multipart::Multipart);

/// The schema a use site embeds for a schema-bearing type: when the type
/// has a canonical name, a pure pointer to its definitions-map entry;
/// otherwise its raw fragment, itself reduced to its pointer when it
/// carries one.
pub open spec fn reference_schema_view<T: SchemaDescriptor>() -> SchemaView {
    match T::spec_name() {
        Option::Some(n) => SchemaView::reference_only(definitions_path(n)),
        Option::None => {
            let s = T::spec_schema();
            if s.reference is Some {
                SchemaView::reference_only(s.reference->0)
            } else {
                s
            }
        },
    }
}

/// Builds the reference-form schema for a schema-bearing type: its raw
/// fragment with the pointer to its name filled in, then reduced to the
/// pointer alone so that the fragment's body is never duplicated at a use
/// site.
pub fn reference_schema_of<T: SchemaDescriptor>() -> (r: Schema)
    ensures
        r@ == reference_schema_view::<T>(),
{
    let mut s = T::raw_schema();
    match T::schema_name() {
        Option::Some(n) => {
            let path = definitions_ref(n.as_str());
            let ghost before = s@;
            s = Schema {
                name: s.name,
                reference: Option::Some(path),
                data_type: s.data_type,
                format: s.format,
                properties: s.properties,
            };
            proof {
                assert(s@.properties =~= before.properties);
            }
        },
        Option::None => {},
    }
    s.retain_ref();
    s
}

/// The one parameter the body wrapper contributes: location `Body`, name
/// `"body"`, required, embedding the wrapped type's reference-form schema.
pub open spec fn body_parameter_view<T: SchemaDescriptor>() -> ParameterView {
    ParameterView {
        location: Location::Body,
        name: "body"@,
        required: true,
        schema: Option::Some(reference_schema_view::<T>()),
        data_type: Option::None,
        format: Option::None,
        description: Option::None,
    }
}

/// The one response entry the body wrapper contributes at status `"200"`.
pub open spec fn ok_response_view<T: SchemaDescriptor>() -> ResponseView {
    ResponseView {
        description: Option::Some("OK"@),
        schema: Option::Some(reference_schema_view::<T>()),
    }
}

/// The body wrapper forwards the wrapped type's schema capability.
impl<T: SchemaDescriptor> SchemaDescriptor for actix_web::web::Json<T> {
    open spec fn spec_name() -> Option<Seq<char>> {
        T::spec_name()
    }

    open spec fn spec_schema() -> SchemaView {
        T::spec_schema()
    }

    open spec fn spec_security_scheme() -> Option<crate::models::SecuritySchemeView> {
        T::spec_security_scheme()
    }

    fn schema_name() -> Option<String> {
        T::schema_name()
    }

    fn raw_schema() -> Schema {
        T::raw_schema()
    }

    fn security_scheme() -> Option<crate::models::SecurityScheme> {
        T::security_scheme()
    }
}

/// The body wrapper: one required `Body` parameter named `"body"` with the
/// wrapped type's reference-form schema, one `"200"`/`"OK"` response with
/// the same schema, and the wrapped type's definitions and security.
impl<T: SchemaDescriptor> OperationModifier for actix_web::web::Json<T> {
    open spec fn contribution() -> Contribution {
        Contribution {
            parameters: seq![body_parameter_view::<T>()],
            responses: seq![("200"@, ok_response_view::<T>())],
            definitions: definition_entries_of::<T>(),
            security: security_of::<T>(),
            security_definitions: security_definitions_of::<T>(),
        }
    }

    fn update_parameter(op: &mut OperationDescriptor) {
        let schema = reference_schema_of::<T>();
        op.push_parameter(
            Parameter {
                location: Location::Body,
                name: "body".to_owned(),
                required: true,
                schema: Option::Some(schema),
                data_type: Option::None,
                format: Option::None,
                description: Option::None,
            },
        );
        proof {
            assert(old(op)@.parameters.push(body_parameter_view::<T>()) =~= old(
                op,
            )@.parameters + seq![body_parameter_view::<T>()]);
        }
    }

    fn update_response(op: &mut OperationDescriptor) {
        let schema = reference_schema_of::<T>();
        op.insert_response(
            "200".to_owned(),
            Response {
                description: Option::Some("OK".to_owned()),
                schema: Option::Some(schema),
            },
        );
        proof {
            lemma_merge_entries_singleton(
                old(op)@.responses,
                ("200"@, ok_response_view::<T>()),
            );
        }
    }

    fn update_definitions(map: &mut DefinitionsMap) {
        merge_definitions_of::<T>(map);
    }

    fn update_security(op: &mut OperationDescriptor) {
        append_security_of::<T>(op);
    }

    fn update_security_definitions(map: &mut SecurityDefinitionsMap) {
        merge_security_definitions_of::<T>(map);
    }
}

/// The one flat placeholder parameter a location-tagged wrapper
/// contributes: the wrapper's fixed location and label, required, with no
/// embedded schema.
pub open spec fn flat_parameter_view(loc: Location, name: Seq<char>) -> ParameterView {
    ParameterView {
        location: loc,
        name: name,
        required: true,
        schema: Option::None,
        data_type: Option::None,
        format: Option::None,
        description: Option::None,
    }
}

/// The contribution of a location-tagged wrapper: exactly its one flat
/// placeholder parameter, nothing else.
pub open spec fn flat_contribution(loc: Location, name: Seq<char>) -> Contribution {
    Contribution { parameters: seq![flat_parameter_view(loc, name)], ..Contribution::inert() }
}

/// Appends the flat placeholder parameter of a location-tagged wrapper.
pub fn push_flat_parameter(op: &mut OperationDescriptor, loc: Location, name: String)
    requires
        old(op).wf(),
    ensures
        final(op).wf(),
        final(op)@ == (OperationView {
            parameters: old(op)@.parameters + seq![flat_parameter_view(loc, name@)],
            ..old(op)@
        }),
{
    let ghost nv = name@;
    op.push_parameter(
        Parameter {
            location: loc,
            name: name,
            required: true,
            schema: Option::None,
            data_type: Option::None,
            format: Option::None,
            description: Option::None,
        },
    );
    proof {
        assert(old(op)@.parameters.push(flat_parameter_view(loc, nv)) =~= old(op)@.parameters
            + seq![flat_parameter_view(loc, nv)]);
    }
}

/// Path-bound values: one required flat parameter at the `Path` location
/// named `"path"`; the wrapped type's own schema is discarded, since the
/// target format forbids reference schemas outside the request body.
impl<T> OperationModifier for actix_web::web::Path<T> {
    open spec fn contribution() -> Contribution {
        flat_contribution(Location::Path, "path"@)
    }

    fn update_parameter(op: &mut OperationDescriptor) {
        push_flat_parameter(op, Location::Path, "path".to_owned());
    }

    fn update_response(op: &mut OperationDescriptor) {
    }

    fn update_definitions(map: &mut DefinitionsMap) {
    }

    fn update_security(op: &mut OperationDescriptor) {
    }

    fn update_security_definitions(map: &mut SecurityDefinitionsMap) {
    }
}

/// Query-bound values: one required flat parameter at the `Query` location
/// named `"query"`.
impl<T> OperationModifier for actix_web::web::Query<T> {
    open spec fn contribution() -> Contribution {
        flat_contribution(Location::Query, "query"@)
    }

    fn update_parameter(op: &mut OperationDescriptor) {
        push_flat_parameter(op, Location::Query, "query".to_owned());
    }

    fn update_response(op: &mut OperationDescriptor) {
    }

    fn update_definitions(map: &mut DefinitionsMap) {
    }

    fn update_security(op: &mut OperationDescriptor) {
    }

    fn update_security_definitions(map: &mut SecurityDefinitionsMap) {
    }
}

/// Form-bound values: one required flat parameter at the `FormData`
/// location named `"form"`.
impl<T> OperationModifier for actix_web::web::Form<T> {
    open spec fn contribution() -> Contribution {
        flat_contribution(Location::FormData, "form"@)
    }

    fn update_parameter(op: &mut OperationDescriptor) {
        push_flat_parameter(op, Location::FormData, "form".to_owned());
    }

    fn update_response(op: &mut OperationDescriptor) {
    }

    fn update_definitions(map: &mut DefinitionsMap) {
    }

    fn update_security(op: &mut OperationDescriptor) {
    }

    fn update_security_definitions(map: &mut SecurityDefinitionsMap) {
    }
}

/// Injected-data-bound values: one required flat parameter at the `Data`
/// location named `"data"`.
impl<T> OperationModifier for actix_web::web::Data<T> {
    open spec fn contribution() -> Contribution {
        flat_contribution(Location::Data, "data"@)
    }

    fn update_parameter(op: &mut OperationDescriptor) {
        push_flat_parameter(op, Location::Data, "data".to_owned());
    }

    fn update_response(op: &mut OperationDescriptor) {
    }

    fn update_definitions(map: &mut DefinitionsMap) {
    }

    fn update_security(op: &mut OperationDescriptor) {
    }

    fn update_security_definitions(map: &mut SecurityDefinitionsMap) {
    }
}

/// Deep query-bound values are query-bound values: the same one flat
/// placeholder at the `Query` location.
impl<T> OperationModifier for serde_qs::actix::QsQuery<T> {
    open spec fn contribution() -> Contribution {
        flat_contribution(Location::Query, "query"@)
    }

    fn update_parameter(op: &mut OperationDescriptor) {
        push_flat_parameter(op, Location::Query, "query".to_owned());
    }

    fn update_response(op: &mut OperationDescriptor) {
    }

    fn update_definitions(map: &mut DefinitionsMap) {
    }

    fn update_security(op: &mut OperationDescriptor) {
    }

    fn update_security_definitions(map: &mut SecurityDefinitionsMap) {
    }
}

/// The upload payload declares the `file` wire data type and no format.
impl TypedPayload for actix_multipart::Multipart {
    open spec fn spec_data_type() -> Seq<char> {
        "file"@
    }

    open spec fn spec_format() -> Option<Seq<char>> {
        Option::None
    }

    fn data_type() -> String {
        "file".to_owned()
    }

    fn format() -> Option<String> {
        Option::None
    }
}

/// The one parameter the file-upload wrapper contributes: location
/// `FormData`, name `"file_data"`, required, with the payload's declared
/// data type and format instead of a schema.
pub open spec fn upload_parameter_view() -> ParameterView {
    ParameterView {
        location: Location::FormData,
        name: "file_data"@,
        required: true,
        schema: Option::None,
        data_type: Option::Some(
            <actix_multipart::Multipart as TypedPayload>::spec_data_type(),
        ),
        format: <actix_multipart::Multipart as TypedPayload>::spec_format(),
        description: Option::None,
    }
}

/// The file-upload wrapper: exactly one required `FormData` parameter
/// named `"file_data"` typed by the payload capability.
impl OperationModifier for actix_multipart::Multipart {
    open spec fn contribution() -> Contribution {
        Contribution { parameters: seq![upload_parameter_view()], ..Contribution::inert() }
    }

    fn update_parameter(op: &mut OperationDescriptor) {
        let dt = <actix_multipart::Multipart as TypedPayload>::data_type();
        let fmt = <actix_multipart::Multipart as TypedPayload>::format();
        op.push_parameter(
            Parameter {
                location: Location::FormData,
                name: "file_data".to_owned(),
                required: true,
                schema: Option::None,
                data_type: Option::Some(dt),
                format: fmt,
                description: Option::None,
            },
        );
        proof {
            assert(old(op)@.parameters.push(upload_parameter_view()) =~= old(op)@.parameters
                + seq![upload_parameter_view()]);
        }
    }

    fn update_response(op: &mut OperationDescriptor) {
    }

    fn update_definitions(map: &mut DefinitionsMap) {
    }

    fn update_security(op: &mut OperationDescriptor) {
    }

    fn update_security_definitions(map: &mut SecurityDefinitionsMap) {
    }
}

} // verus!
