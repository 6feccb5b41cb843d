//! The operation-contributor capability: five operations that every
//! handler argument or return type may use to add to a descriptor, with
//! inert behaviour as the degenerate case.

use crate::descriptor::{DefinitionsMap, OperationDescriptor, OperationView,
    SecurityDefinitionsMap};
use crate::models::{named_fragments_seq, opt_str_view, ParameterView, ResponseView, Schema,
    SchemaView, SecurityScheme, SecuritySchemeView};
use crate::strmap::{lemma_merge_entries_singleton, merge_entries};
use vstd::prelude::*;
use vstd::string::StringExecFns;

verus! {

broadcast use crate::strmap::lemma_merge_entries_empty, crate::strmap::lemma_seq_add_empty;

/// Everything one type adds to a descriptor and the two shared maps, as
/// plain mathematical data: the five operations of [`OperationModifier`]
/// are each bound to one field of this record.
pub ghost struct Contribution {
    pub parameters: Seq<ParameterView>,
    pub responses: Seq<(Seq<char>, ResponseView)>,
    pub definitions: Seq<(Seq<char>, SchemaView)>,
    pub security: Seq<Seq<char>>,
    pub security_definitions: Seq<(Seq<char>, SecuritySchemeView)>,
}

impl Contribution {
    /// The contribution of a pure leaf: nothing at all.
    pub open spec fn inert() -> Contribution {
        Contribution {
            parameters: Seq::empty(),
            responses: Seq::empty(),
            definitions: Seq::empty(),
            security: Seq::empty(),
            security_definitions: Seq::empty(),
        }
    }
}

/// The schema capability consumed by the composition engine: an optional
/// canonical name, a raw schema fragment, and an optional security scheme.
/// User types supply it; the engine only reads it.
pub trait SchemaDescriptor {
    /// The canonical name, as specification data; by default a type has
    /// none.
    open spec fn spec_name() -> Option<Seq<char>> {
        Option::None
    }

    /// The raw fragment, as specification data; by default the empty
    /// fragment.
    open spec fn spec_schema() -> SchemaView {
        SchemaView::empty_schema()
    }

    /// The security scheme, as specification data; by default a type has
    /// none.
    open spec fn spec_security_scheme() -> Option<SecuritySchemeView> {
        Option::None
    }

    /// The canonical name under which this type's fragment is stored in
    /// the definitions map, if it has one.
    fn schema_name() -> (r: Option<String>)
        ensures
            opt_str_view(r) == Self::spec_name(),
    ;

    /// This type's raw schema fragment.
    fn raw_schema() -> (r: Schema)
        ensures
            r@ == Self::spec_schema(),
    ;

    /// This type's named security scheme, if it declares one.
    fn security_scheme() -> (r: Option<SecurityScheme>)
        ensures
            (match r {
                Option::Some(s) => Self::spec_security_scheme() == Option::Some(s@),
                Option::None => Self::spec_security_scheme() is None,
            }),
    ;
}

/// The error capability consumed by the outcome wrapper: a failure type
/// appends its failure-case response entries and the schema definitions
/// they refer to.
pub trait ErrorDescriptor {
    /// The failure response entries, in the order they are written; by
    /// default there are none.
    open spec fn spec_error_responses() -> Seq<(Seq<char>, ResponseView)> {
        Seq::empty()
    }

    /// The definition entries backing the failure responses; by default
    /// there are none.
    open spec fn spec_error_definitions() -> Seq<(Seq<char>, SchemaView)> {
        Seq::empty()
    }

    /// Appends this type's failure-case response entries.
    fn update_error_definitions(op: &mut OperationDescriptor)
        requires
            old(op).wf(),
        ensures
            final(op).wf(),
            final(op)@ == (OperationView {
                responses: merge_entries(old(op)@.responses, Self::spec_error_responses()),
                ..old(op)@
            }),
    ;

    /// Merges the definitions backing the failure responses.
    fn update_definitions(map: &mut DefinitionsMap)
        requires
            old(map).wf(),
        ensures
            final(map).wf(),
            final(map)@ == merge_entries(old(map)@, Self::spec_error_definitions()),
    ;
}

/// The wire-payload capability consumed by the file-upload wrapper: the
/// declared primitive data type and format of a binary payload.
pub trait TypedPayload {
    /// The declared data type, as specification data.
    spec fn spec_data_type() -> Seq<char>;

    /// The declared format, as specification data.
    spec fn spec_format() -> Option<Seq<char>>;

    /// The declared primitive data type.
    fn data_type() -> (r: String)
        ensures
            r@ == Self::spec_data_type(),
    ;

    /// The declared primitive format.
    fn format() -> (r: Option<String>)
        ensures
            opt_str_view(r) == Self::spec_format(),
    ;
}

/// The core capability: five operations invoked in a fixed order against
/// one shared descriptor and two shared maps.  Each operation is bound
/// exactly to one field of [`Contribution`]: parameters and security
/// requirements are appended, responses and the two maps are merged with
/// later entries overwriting earlier ones.
pub trait OperationModifier {
    /// What this type contributes, as one record of specification data.
    spec fn contribution() -> Contribution;

    /// Appends this type's parameters.
    fn update_parameter(op: &mut OperationDescriptor)
        requires
            old(op).wf(),
        ensures
            final(op).wf(),
            final(op)@ == (OperationView {
                parameters: old(op)@.parameters + Self::contribution().parameters,
                ..old(op)@
            }),
    ;

    /// Inserts or overwrites this type's response entries, keyed by status
    /// code.
    fn update_response(op: &mut OperationDescriptor)
        requires
            old(op).wf(),
        ensures
            final(op).wf(),
            final(op)@ == (OperationView {
                responses: merge_entries(old(op)@.responses, Self::contribution().responses),
                ..old(op)@
            }),
    ;

    /// Merges this type's schema fragment, and every fragment it refers
    /// to, into the shared definitions map.
    fn update_definitions(map: &mut DefinitionsMap)
        requires
            old(map).wf(),
        ensures
            final(map).wf(),
            final(map)@ == merge_entries(old(map)@, Self::contribution().definitions),
    ;

    /// Appends this type's security requirement references.
    fn update_security(op: &mut OperationDescriptor)
        requires
            old(op).wf(),
        ensures
            final(op).wf(),
            final(op)@ == (OperationView {
                security: old(op)@.security + Self::contribution().security,
                ..old(op)@
            }),
    ;

    /// Merges this type's named security scheme fragments.
    fn update_security_definitions(map: &mut SecurityDefinitionsMap)
        requires
            old(map).wf(),
        ensures
            final(map).wf(),
            final(map)@ == merge_entries(old(map)@, Self::contribution().security_definitions),
    ;
}

/// A type that stands for a whole operation on its own, outside the
/// argument-by-argument composition: it supplies a complete descriptor and
/// both maps directly.
pub trait OperationDescription {
    /// The descriptor, as specification data.
    spec fn spec_operation() -> OperationView;

    /// The definitions map, as specification data.
    spec fn spec_definitions() -> Map<Seq<char>, SchemaView>;

    /// The security definitions map, as specification data.
    spec fn spec_security_definitions() -> Map<Seq<char>, SecuritySchemeView>;

    /// The operation descriptor this type stands for.
    fn operation() -> (r: OperationDescriptor)
        ensures
            r.wf(),
            r@ == Self::spec_operation(),
    ;

    /// The definitions this type brings along.
    fn definitions() -> (r: DefinitionsMap)
        ensures
            r.wf(),
            r@ == Self::spec_definitions(),
    ;

    /// The security schemes this type brings along.
    fn security_definitions() -> (r: SecurityDefinitionsMap)
        ensures
            r.wf(),
            r@ == Self::spec_security_definitions(),
    ;
}

/// The key under which a named fragment is referenced from a use site.
pub open spec fn definitions_path(n: Seq<char>) -> Seq<char> {
    "#/definitions/"@ + n
}

/// Builds the reference path for a schema name.
pub fn definitions_ref(n: &str) -> (r: String)
    ensures
        r@ == definitions_path(n@),
{
    "#/definitions/".to_owned().concat(n)
}

/// The definition entries of a schema-bearing type: the named fragments
/// inside its schema, then the schema itself under the type's canonical
/// name when it has one.
pub open spec fn definition_entries_of<T: SchemaDescriptor>() -> Seq<(Seq<char>, SchemaView)> {
    named_fragments_seq(T::spec_schema().properties) + (match T::spec_name() {
        Option::Some(n) => seq![(n, T::spec_schema())],
        Option::None => Seq::empty(),
    })
}

/// Merges a schema-bearing type's fragment and all fragments it refers to
/// into the definitions map.  This is the shared body behind every
/// schema-driven `update_definitions`.
pub fn merge_definitions_of<T: SchemaDescriptor>(map: &mut DefinitionsMap)
    requires
        old(map).wf(),
    ensures
        final(map).wf(),
        final(map)@ == merge_entries(old(map)@, definition_entries_of::<T>()),
{
    let s = T::raw_schema();
    s.merge_named_fragments(map);
    let ghost mid = map@;
    let ghost frags = named_fragments_seq(T::spec_schema().properties);
    match T::schema_name() {
        Option::Some(n) => {
            let ghost nv = n@;
            map.insert(n, s);
            proof {
                let es = definition_entries_of::<T>();
                assert(es.drop_last() =~= frags);
                assert(es.last() == (nv, T::spec_schema()));
                assert(es.len() > 0);
            }
        },
        Option::None => {
            proof {
                assert(definition_entries_of::<T>() =~= frags);
            }
        },
    }
}

/// The security requirement references of a type: the name of its scheme,
/// if it declares one.
pub open spec fn security_of<T: SchemaDescriptor>() -> Seq<Seq<char>> {
    match T::spec_security_scheme() {
        Option::Some(s) => seq![s.name],
        Option::None => Seq::empty(),
    }
}

/// The security scheme entries of a type: its scheme keyed by the scheme's
/// name, if it declares one.
pub open spec fn security_definitions_of<T: SchemaDescriptor>() -> Seq<
    (Seq<char>, SecuritySchemeView),
> {
    match T::spec_security_scheme() {
        Option::Some(s) => seq![(s.name, s)],
        Option::None => Seq::empty(),
    }
}

/// Appends a type's security requirement reference, if it declares a
/// scheme.  This is the shared body behind every schema-driven
/// `update_security`.
pub fn append_security_of<T: SchemaDescriptor>(op: &mut OperationDescriptor)
    requires
        old(op).wf(),
    ensures
        final(op).wf(),
        final(op)@ == (OperationView {
            security: old(op)@.security + security_of::<T>(),
            ..old(op)@
        }),
{
    match T::security_scheme() {
        Option::Some(s) => {
            let ghost sv = s@;
            op.push_security(s.name);
            proof {
                assert(old(op)@.security.push(sv.name) =~= old(op)@.security + seq![sv.name]);
            }
        },
        Option::None => {},
    }
}

/// Merges a type's named security scheme, if it declares one.  This is the
/// shared body behind every schema-driven `update_security_definitions`.
pub fn merge_security_definitions_of<T: SchemaDescriptor>(map: &mut SecurityDefinitionsMap)
    requires
        old(map).wf(),
    ensures
        final(map).wf(),
        final(map)@ == merge_entries(old(map)@, security_definitions_of::<T>()),
{
    match T::security_scheme() {
        Option::Some(s) => {
            let ghost sv = s@;
            let key = s.name.clone();
            map.insert(key, s);
            proof {
                lemma_merge_entries_singleton(old(map)@, (sv.name, sv));
            }
        },
        Option::None => {},
    }
}

/// The composition engine's step for one type: the five operations, in
/// their fixed order, against the shared descriptor and the two shared
/// maps.
pub fn compose<T: OperationModifier>(
    op: &mut OperationDescriptor,
    defs: &mut DefinitionsMap,
    sec: &mut SecurityDefinitionsMap,
)
    requires
        old(op).wf(),
        old(defs).wf(),
        old(sec).wf(),
    ensures
        final(op).wf(),
        final(defs).wf(),
        final(sec).wf(),
        final(op)@ == (OperationView {
            parameters: old(op)@.parameters + T::contribution().parameters,
            responses: merge_entries(old(op)@.responses, T::contribution().responses),
            security: old(op)@.security + T::contribution().security,
        }),
        final(defs)@ == merge_entries(old(defs)@, T::contribution().definitions),
        final(sec)@ == merge_entries(old(sec)@, T::contribution().security_definitions),
{
    T::update_parameter(op);
    T::update_response(op);
    T::update_definitions(defs);
    T::update_security(op);
    T::update_security_definitions(sec);
}

/// The composition engine's step for a handler's return type: only the
/// response-side operations run, so a body-wrapped return value documents
/// its response without adding a request parameter.
pub fn compose_return<T: OperationModifier>(
    op: &mut OperationDescriptor,
    defs: &mut DefinitionsMap,
    sec: &mut SecurityDefinitionsMap,
)
    requires
        old(op).wf(),
        old(defs).wf(),
        old(sec).wf(),
    ensures
        final(op).wf(),
        final(defs).wf(),
        final(sec).wf(),
        final(op)@ == (OperationView {
            responses: merge_entries(old(op)@.responses, T::contribution().responses),
            ..old(op)@
        }),
        final(defs)@ == merge_entries(old(defs)@, T::contribution().definitions),
        final(sec)@ == merge_entries(old(sec)@, T::contribution().security_definitions),
{
    T::update_response(op);
    T::update_definitions(defs);
    T::update_security_definitions(sec);
}

} // verus!
