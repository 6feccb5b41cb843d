//! The laws of the composition engine, stated and proved once for every
//! type.

use crate::descriptor::OperationView;
use crate::models::{Location, ParameterView, ResponseView, SchemaView, SecuritySchemeView};
use crate::modifier::{Contribution, ErrorDescriptor, OperationModifier, SchemaDescriptor};
use crate::strmap::{has_key, last_value, lemma_merge_entries_app, lemma_merge_entries_at,
    lemma_merge_entries_idempotent, merge_entries};
use crate::web::{body_parameter_view, flat_contribution, flat_parameter_view, ok_response_view};
use vstd::prelude::*;

verus! {

/// No-op leaf law: for a type whose contribution is inert, the five
/// operations leave the descriptor and both maps exactly as they were
/// given, whatever they held.
pub proof fn lemma_inert_noop<T: OperationModifier>(
    o: OperationView,
    d: Map<Seq<char>, SchemaView>,
    s: Map<Seq<char>, SecuritySchemeView>,
)
    requires
        T::contribution() == Contribution::inert(),
    ensures
        (OperationView {
            parameters: o.parameters + T::contribution().parameters,
            responses: merge_entries(o.responses, T::contribution().responses),
            security: o.security + T::contribution().security,
        }) == o,
        merge_entries(d, T::contribution().definitions) == d,
        merge_entries(s, T::contribution().security_definitions) == s,
{
    assert(o.parameters + Seq::<ParameterView>::empty() =~= o.parameters);
    assert(o.security + Seq::<Seq<char>>::empty() =~= o.security);
}

/// Idempotence: for any type, merging its definition entries a second
/// time into the map the first merge produced changes nothing.
pub proof fn lemma_definitions_idempotent<T: OperationModifier>(m: Map<Seq<char>, SchemaView>)
    ensures
        merge_entries(merge_entries(m, T::contribution().definitions), T::contribution().definitions)
            == merge_entries(m, T::contribution().definitions),
{
    lemma_merge_entries_idempotent(m, T::contribution().definitions);
}

/// The same, for the security definitions merge.
pub proof fn lemma_security_definitions_idempotent<T: OperationModifier>(
    m: Map<Seq<char>, SecuritySchemeView>,
)
    ensures
        merge_entries(
            merge_entries(m, T::contribution().security_definitions),
            T::contribution().security_definitions,
        ) == merge_entries(m, T::contribution().security_definitions),
{
    lemma_merge_entries_idempotent(m, T::contribution().security_definitions);
}

/// Optional transparency: the optional wrapper's contribution is the
/// wrapped type's contribution, so each of the five operations, applied
/// through the wrapper, mutates the descriptor and the maps exactly as
/// the wrapped type's own operation does, from any starting state.
pub proof fn lemma_optional_transparent<T: OperationModifier>()
    ensures
        <Option<T> as OperationModifier>::contribution() == T::contribution(),
{
}

/// Outcome response superset: after the outcome wrapper's response
/// operation, every status code that the success type alone would have
/// produced is present; a code the failure type also writes carries the
/// failure type's last value for it; every other code reads as it does
/// after the success type's merge alone.
pub proof fn lemma_outcome_response_superset<T: OperationModifier, E: ErrorDescriptor>(
    m: Map<Seq<char>, ResponseView>,
    k: Seq<char>,
)
    ensures
        merge_entries(m, T::contribution().responses).contains_key(k) ==> merge_entries(
            m,
            <Result<T, E> as OperationModifier>::contribution().responses,
        ).contains_key(k),
        has_key(E::spec_error_responses(), k) ==> merge_entries(
            m,
            <Result<T, E> as OperationModifier>::contribution().responses,
        )[k] == last_value(E::spec_error_responses(), k),
        !has_key(E::spec_error_responses(), k) && merge_entries(
            m,
            T::contribution().responses,
        ).contains_key(k) ==> merge_entries(
            m,
            <Result<T, E> as OperationModifier>::contribution().responses,
        )[k] == merge_entries(m, T::contribution().responses)[k],
{
    let tr = T::contribution().responses;
    let er = E::spec_error_responses();
    lemma_merge_entries_app(m, tr, er);
    lemma_merge_entries_at(merge_entries(m, tr), er, k);
}

/// Body wrapper exactness: for a wrapped type with a canonical name, the
/// body wrapper contributes exactly one parameter, at location `Body`,
/// named `"body"`, required, whose schema is in pure reference form, and
/// exactly one response entry, at key `"200"`, with description `"OK"`
/// and the same reference-form schema.
pub proof fn lemma_body_wrapper_exact<T: SchemaDescriptor>()
    requires
        T::spec_name() is Some,
    ensures
        <actix_web::web::Json<T> as OperationModifier>::contribution().parameters
            == seq![body_parameter_view::<T>()],
        body_parameter_view::<T>().location == Location::Body,
        body_parameter_view::<T>().name == "body"@,
        body_parameter_view::<T>().required,
        body_parameter_view::<T>().schema is Some,
        body_parameter_view::<T>().schema->0.is_reference_form(),
        <actix_web::web::Json<T> as OperationModifier>::contribution().responses == seq![
            ("200"@, ok_response_view::<T>()),
        ],
        ok_response_view::<T>().description == Option::Some("OK"@),
        ok_response_view::<T>().schema is Some,
        ok_response_view::<T>().schema->0.is_reference_form(),
{
}

/// Flat-placeholder exactness: each location-tagged wrapper contributes
/// exactly its one flat placeholder, whatever the wrapped type offers.
pub proof fn lemma_flat_placeholder_exact<T>()
    ensures
        <actix_web::web::Path<T> as OperationModifier>::contribution() == flat_contribution(
            Location::Path,
            "path"@,
        ),
        <actix_web::web::Query<T> as OperationModifier>::contribution() == flat_contribution(
            Location::Query,
            "query"@,
        ),
        <actix_web::web::Form<T> as OperationModifier>::contribution() == flat_contribution(
            Location::FormData,
            "form"@,
        ),
        <actix_web::web::Data<T> as OperationModifier>::contribution() == flat_contribution(
            Location::Data,
            "data"@,
        ),
{
}

/// The shape of a flat placeholder contribution: one parameter with the
/// given location and name, required, without a schema, and nothing else.
pub proof fn lemma_flat_contribution_shape(loc: Location, name: Seq<char>)
    ensures
        flat_contribution(loc, name).parameters == seq![flat_parameter_view(loc, name)],
        flat_parameter_view(loc, name).location == loc,
        flat_parameter_view(loc, name).name == name,
        flat_parameter_view(loc, name).required,
        flat_parameter_view(loc, name).schema is None,
        flat_contribution(loc, name).responses == Seq::<(Seq<char>, ResponseView)>::empty(),
        flat_contribution(loc, name).definitions == Seq::<(Seq<char>, SchemaView)>::empty(),
        flat_contribution(loc, name).security == Seq::<Seq<char>>::empty(),
        flat_contribution(loc, name).security_definitions == Seq::<
            (Seq<char>, SecuritySchemeView),
        >::empty(),
{
}

} // verus!
