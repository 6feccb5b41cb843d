//! The data model of an operation descriptor: parameters, responses,
//! schema fragments and security schemes.

use crate::strmap::{lemma_merge_entries_app, merge_entries, StringMap};
use vstd::prelude::*;

verus! {

/// The part of an HTTP request a parameter is read from.
#[derive(Clone, Copy, PartialEq, Eq, Structural, Debug)]
pub enum Location {
    Query,
    Path,
    Header,
    FormData,
    Body,
    Cookie,
    Data,
}

/// View of an [`Option`] of [`String`] as an option of a character sequence.
pub open spec fn opt_str_view(o: Option<String>) -> Option<Seq<char>> {
    match o {
        Option::Some(s) => Option::Some(s@),
        Option::None => Option::None,
    }
}

/// A structural description of a value's shape.  A fragment either carries
/// its shape inline (type, format and named sub-fragments) or is a pure
/// pointer-by-name into the definitions map (`reference` set, rest empty).
pub struct Schema {
    /// Canonical name of this fragment, the key under which it is stored
    /// in the definitions map.
    pub name: Option<String>,
    /// Pointer-by-name into the definitions map.
    pub reference: Option<String>,
    /// Declared primitive data type.
    pub data_type: Option<String>,
    /// Declared primitive format.
    pub format: Option<String>,
    /// Nested fragments, e.g. one per field of a structured value.
    pub properties: Vec<Schema>,
}

/// Mathematical view of a [`Schema`].
pub ghost struct SchemaView {
    pub name: Option<Seq<char>>,
    pub reference: Option<Seq<char>>,
    pub data_type: Option<Seq<char>>,
    pub format: Option<Seq<char>>,
    pub properties: Seq<SchemaView>,
}

/// The view of a fragment, defined recursively over its sub-fragments.
pub open spec fn schema_view_of(s: Schema) -> SchemaView
    decreases s,
    via schema_view_of_decreases
{
    SchemaView {
        name: opt_str_view(s.name),
        reference: opt_str_view(s.reference),
        data_type: opt_str_view(s.data_type),
        format: opt_str_view(s.format),
        properties: Seq::new(
            s.properties@.len(),
            |i: int|
                if 0 <= i < s.properties@.len() {
                    schema_view_of(s.properties@[i])
                } else {
                    SchemaView::empty_schema()
                },
        ),
    }
}

#[via_fn]
proof fn schema_view_of_decreases(s: Schema) {
    assert forall|i: int| 0 <= i < s.properties@.len() implies decreases_to!(
        s => s.properties@[i]
    ) by {
        assert(decreases_to!(s => s.properties));
        assert(decreases_to!(s.properties => s.properties@));
        assert(decreases_to!(s.properties@ => s.properties@[i]));
    }
}

impl View for Schema {
    type V = SchemaView;

    open spec fn view(&self) -> SchemaView {
        schema_view_of(*self)
    }
}

impl SchemaView {
    /// A fragment in pure reference form: a pointer and nothing else.
    pub open spec fn reference_only(r: Seq<char>) -> SchemaView {
        SchemaView {
            name: Option::None,
            reference: Option::Some(r),
            data_type: Option::None,
            format: Option::None,
            properties: Seq::empty(),
        }
    }

    /// Holds when the fragment carries no inline shape besides a pointer.
    pub open spec fn is_reference_form(self) -> bool {
        self.reference is Some && self == SchemaView::reference_only(self.reference->0)
    }
}

/// Duplicates an optional string.
pub fn dup_opt_string(o: &Option<String>) -> (r: Option<String>)
    ensures
        opt_str_view(r) == opt_str_view(*o),
{
    match o {
        Option::Some(s) => Option::Some(s.clone()),
        Option::None => Option::None,
    }
}

impl Schema {
    /// The empty fragment: no name, no pointer, no shape.
    pub fn empty() -> (r: Schema)
        ensures
            r@ == SchemaView::empty_schema(),
    {
        let r = Schema {
            name: Option::None,
            reference: Option::None,
            data_type: Option::None,
            format: Option::None,
            properties: Vec::new(),
        };
        proof {
            assert(r@.properties =~= Seq::<SchemaView>::empty());
        }
        r
    }

    /// A structural copy of this fragment.
    pub fn duplicate(&self) -> (r: Schema)
        ensures
            r@ == self@,
        decreases self,
    {
        let mut props: Vec<Schema> = Vec::new();
        let mut i: usize = 0;
        while i < self.properties.len()
            invariant
                i <= self.properties.len(),
                props@.len() == i as int,
                forall|j: int| 0 <= j < i ==> props@[j]@ == self.properties@[j]@,
            decreases self.properties.len() - i,
        {
            let c = self.properties[i].duplicate();
            props.push(c);
            i = i + 1;
        }
        let r = Schema {
            name: dup_opt_string(&self.name),
            reference: dup_opt_string(&self.reference),
            data_type: dup_opt_string(&self.data_type),
            format: dup_opt_string(&self.format),
            properties: props,
        };
        proof {
            assert(r@.properties =~= self@.properties);
        }
        r
    }

    /// Converts this fragment from inline to reference form: when a pointer
    /// is present, every inline part is discarded and only the pointer is
    /// kept; a fragment without a pointer is left unchanged.
    pub fn retain_ref(&mut self)
        ensures
            old(self)@.reference is Some ==> final(self)@ == SchemaView::reference_only(
                old(self)@.reference->0,
            ),
            old(self)@.reference is None ==> final(self)@ == old(self)@,
    {
        match &self.reference {
            Option::Some(_) => {
                let mut r = Option::None;
                core::mem::swap(&mut r, &mut self.reference);
                *self = Schema {
                    name: Option::None,
                    reference: r,
                    data_type: Option::None,
                    format: Option::None,
                    properties: Vec::new(),
                };
                proof {
                    assert(self@.properties =~= Seq::<SchemaView>::empty());
                }
            },
            Option::None => {},
        }
    }
}

impl SchemaView {
    /// View of the empty fragment.
    pub open spec fn empty_schema() -> SchemaView {
        SchemaView {
            name: Option::None,
            reference: Option::None,
            data_type: Option::None,
            format: Option::None,
            properties: Seq::empty(),
        }
    }
}

/// The definition entries contributed by one fragment: the entries of its
/// sub-fragments, then the fragment itself under its own name when it has
/// one.
pub open spec fn fragment_entries(c: SchemaView) -> Seq<(Seq<char>, SchemaView)>
    decreases c,
{
    named_fragments_seq(c.properties) + (match c.name {
        Option::Some(n) => seq![(n, c)],
        Option::None => Seq::empty(),
    })
}

/// The definition entries contributed by a sequence of fragments, in
/// order.
pub open spec fn named_fragments_seq(cs: Seq<SchemaView>) -> Seq<(Seq<char>, SchemaView)>
    decreases cs,
{
    if cs.len() == 0 {
        Seq::empty()
    } else {
        named_fragments_seq(cs.drop_last()) + fragment_entries(cs.last())
    }
}

impl Schema {
    /// Merges every named sub-fragment of this fragment, transitively, into
    /// the definitions map.
    pub fn merge_named_fragments(&self, map: &mut StringMap<Schema>)
        requires
            old(map).wf(),
        ensures
            final(map).wf(),
            final(map)@ == merge_entries(
                old(map)@,
                named_fragments_seq(self@.properties),
            ),
        decreases self,
    {
        let n = self.properties.len();
        let mut i: usize = 0;
        while i < n
            invariant
                i <= n,
                n == self.properties@.len(),
                map.wf(),
                map@ == merge_entries(
                    old(map)@,
                    named_fragments_seq(self@.properties.take(i as int)),
                ),
            decreases n - i,
        {
            let ghost before = map@;
            proof {
                assert(decreases_to!(self => self.properties));
                assert(decreases_to!(self.properties => self.properties@));
                assert(decreases_to!(self.properties@ => self.properties@[i as int]));
            }
            let child = &self.properties[i];
            child.merge_named_fragments(map);
            match &child.name {
                Option::Some(nm) => {
                    map.insert(nm.clone(), child.duplicate());
                },
                Option::None => {},
            }
            proof {
                let cv = self@.properties[i as int];
                assert(cv == child@);
                let frags = named_fragments_seq(cv.properties);
                match cv.name {
                    Option::Some(nm) => {
                        assert(frags + seq![(nm, cv)] == fragment_entries(cv));
                        assert((frags + seq![(nm, cv)]).drop_last() =~= frags);
                        assert((frags + seq![(nm, cv)]).last() == (nm, cv));
                        lemma_merge_entries_app(before, frags, seq![(nm, cv)]);
                        assert(merge_entries(before, seq![(nm, cv)])
                            == merge_entries(before, Seq::empty()).insert(nm, cv))
                            by {
                            assert(seq![(nm, cv)].drop_last()
                                =~= Seq::<(Seq<char>, SchemaView)>::empty());
                        }
                        assert(map@ == merge_entries(before, fragment_entries(cv)));
                    },
                    Option::None => {
                        assert(fragment_entries(cv) =~= frags);
                        assert(map@ == merge_entries(before, fragment_entries(cv)));
                    },
                }
                let taken = self@.properties.take(i as int);
                let taken1 = self@.properties.take(i + 1);
                assert(taken1.drop_last() =~= taken);
                assert(taken1.last() == cv);
                assert(named_fragments_seq(taken1) == named_fragments_seq(taken)
                    + fragment_entries(cv));
                lemma_merge_entries_app(
                    old(map)@,
                    named_fragments_seq(taken),
                    fragment_entries(cv),
                );
            }
            i = i + 1;
        }
        proof {
            assert(self@.properties.take(n as int) =~= self@.properties);
        }
    }
}

/// A single operation parameter.
pub struct Parameter {
    pub location: Location,
    pub name: String,
    pub required: bool,
    pub schema: Option<Schema>,
    pub data_type: Option<String>,
    pub format: Option<String>,
    pub description: Option<String>,
}

/// Mathematical view of a [`Parameter`].
pub ghost struct ParameterView {
    pub location: Location,
    pub name: Seq<char>,
    pub required: bool,
    pub schema: Option<SchemaView>,
    pub data_type: Option<Seq<char>>,
    pub format: Option<Seq<char>>,
    pub description: Option<Seq<char>>,
}

impl View for Parameter {
    type V = ParameterView;

    open spec fn view(&self) -> ParameterView {
        ParameterView {
            location: self.location,
            name: self.name@,
            required: self.required,
            schema: match self.schema {
                Option::Some(s) => Option::Some(s@),
                Option::None => Option::None,
            },
            data_type: opt_str_view(self.data_type),
            format: opt_str_view(self.format),
            description: opt_str_view(self.description),
        }
    }
}

/// A response entry: a human-readable description and an optional schema
/// for the response body.
pub struct Response {
    pub description: Option<String>,
    pub schema: Option<Schema>,
}

/// Mathematical view of a [`Response`].
pub ghost struct ResponseView {
    pub description: Option<Seq<char>>,
    pub schema: Option<SchemaView>,
}

impl View for Response {
    type V = ResponseView;

    open spec fn view(&self) -> ResponseView {
        ResponseView {
            description: opt_str_view(self.description),
            schema: match self.schema {
                Option::Some(s) => Option::Some(s@),
                Option::None => Option::None,
            },
        }
    }
}

impl Response {
    /// A structural copy of this response entry.
    pub fn duplicate(&self) -> (r: Response)
        ensures
            r@ == self@,
    {
        Response {
            description: dup_opt_string(&self.description),
            schema: match &self.schema {
                Option::Some(s) => Option::Some(s.duplicate()),
                Option::None => Option::None,
            },
        }
    }
}

/// A named security scheme fragment.
pub struct SecurityScheme {
    /// Name under which the scheme is stored and referenced.
    pub name: String,
    /// Kind of the scheme, e.g. an API key or an authorization flow.
    pub scheme_type: String,
    pub description: Option<String>,
}

/// Mathematical view of a [`SecurityScheme`].
pub ghost struct SecuritySchemeView {
    pub name: Seq<char>,
    pub scheme_type: Seq<char>,
    pub description: Option<Seq<char>>,
}

impl View for SecurityScheme {
    type V = SecuritySchemeView;

    open spec fn view(&self) -> SecuritySchemeView {
        SecuritySchemeView {
            name: self.name@,
            scheme_type: self.scheme_type@,
            description: opt_str_view(self.description),
        }
    }
}

impl SecurityScheme {
    /// A structural copy of this scheme.
    pub fn duplicate(&self) -> (r: SecurityScheme)
        ensures
            r@ == self@,
    {
        SecurityScheme {
            name: self.name.clone(),
            scheme_type: self.scheme_type.clone(),
            description: dup_opt_string(&self.description),
        }
    }
}

} // verus!
