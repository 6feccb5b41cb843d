//! The per-endpoint operation descriptor.

use crate::models::{Parameter, ParameterView, Response, ResponseView, Schema, SecurityScheme};
use crate::strmap::StringMap;
use vstd::prelude::*;

verus! {

/// The map from schema name to schema fragment shared by one composition.
pub type DefinitionsMap = StringMap<Schema>;

/// The map from scheme name to security scheme fragment shared by one
/// composition.
pub type SecurityDefinitionsMap = StringMap<SecurityScheme>;

/// Everything one endpoint's composition collects besides the two shared
/// maps: its parameters in invocation order, its responses keyed by status
/// code, and its security requirement references.
pub struct OperationDescriptor {
    pub parameters: Vec<Parameter>,
    pub responses: StringMap<Response>,
    pub security: Vec<String>,
}

/// Mathematical view of an [`OperationDescriptor`].
pub ghost struct OperationView {
    pub parameters: Seq<ParameterView>,
    pub responses: Map<Seq<char>, ResponseView>,
    pub security: Seq<Seq<char>>,
}

impl View for OperationDescriptor {
    type V = OperationView;

    open spec fn view(&self) -> OperationView {
        OperationView {
            parameters: self.parameters@.map_values(|p: Parameter| p@),
            responses: self.responses@,
            security: self.security@.map_values(|s: String| s@),
        }
    }
}

impl OperationView {
    /// The view of a descriptor with nothing collected yet.
    pub open spec fn empty_op() -> OperationView {
        OperationView {
            parameters: Seq::empty(),
            responses: Map::empty(),
            security: Seq::empty(),
        }
    }
}

impl OperationDescriptor {
    /// Well-formed: the response table keeps its keys sorted.
    pub open spec fn wf(self) -> bool {
        self.responses.wf()
    }

    /// An empty descriptor.
    pub fn new() -> (r: OperationDescriptor)
        ensures
            r.wf(),
            r@ == OperationView::empty_op(),
    {
        let r = OperationDescriptor {
            parameters: Vec::new(),
            responses: StringMap::new(),
            security: Vec::new(),
        };
        proof {
            assert(r@.parameters =~= Seq::<ParameterView>::empty());
            assert(r@.security =~= Seq::<Seq<char>>::empty());
        }
        r
    }

    /// Appends one parameter; everything else is untouched.
    pub fn push_parameter(&mut self, p: Parameter)
        requires
            old(self).wf(),
        ensures
            final(self).wf(),
            final(self)@ == (OperationView {
                parameters: old(self)@.parameters.push(p@),
                ..old(self)@
            }),
    {
        let ghost pv = p@;
        self.parameters.push(p);
        proof {
            assert(self@.parameters =~= old(self)@.parameters.push(pv));
        }
    }

    /// Inserts or overwrites one response entry, keyed by status code;
    /// everything else is untouched.
    pub fn insert_response(&mut self, code: String, r: Response)
        requires
            old(self).wf(),
        ensures
            final(self).wf(),
            final(self)@ == (OperationView {
                responses: old(self)@.responses.insert(code@, r@),
                ..old(self)@
            }),
    {
        self.responses.insert(code, r);
    }

    /// Appends one security requirement reference; everything else is
    /// untouched.
    pub fn push_security(&mut self, name: String)
        requires
            old(self).wf(),
        ensures
            final(self).wf(),
            final(self)@ == (OperationView {
                security: old(self)@.security.push(name@),
                ..old(self)@
            }),
    {
        let ghost nv = name@;
        self.security.push(name);
        proof {
            assert(self@.security =~= old(self)@.security.push(nv));
        }
    }
}

} // verus!
