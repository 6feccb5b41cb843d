//! Wrapper forwarding: optional values forward every operation to the
//! wrapped type; outcome values forward to the success type and let the
//! failure type append its failure-case responses.

use crate::descriptor::{DefinitionsMap, OperationDescriptor, SecurityDefinitionsMap};
use crate::modifier::{Contribution, ErrorDescriptor, OperationModifier};
use crate::strmap::lemma_merge_entries_app;
use vstd::prelude::*;

verus! {

/// The optional wrapper is transparent: all five operations are forwarded
/// verbatim to the wrapped type.  In particular the `required` flag of any
/// parameter the wrapped type contributes is not cleared: an
/// optional-wrapped parameter is still documented as the wrapped type
/// documents it.
impl<T: OperationModifier> OperationModifier for Option<T> {
    open spec fn contribution() -> Contribution {
        T::contribution()
    }

    fn update_parameter(op: &mut OperationDescriptor) {
        T::update_parameter(op);
    }

    fn update_response(op: &mut OperationDescriptor) {
        T::update_response(op);
    }

    fn update_definitions(map: &mut DefinitionsMap) {
        T::update_definitions(map);
    }

    fn update_security(op: &mut OperationDescriptor) {
        T::update_security(op);
    }

    fn update_security_definitions(map: &mut SecurityDefinitionsMap) {
        T::update_security_definitions(map);
    }
}

/// The outcome wrapper forwards parameters, security and security
/// definitions to the success type; responses are the success type's
/// followed by the failure type's failure-case entries, so on a shared
/// status code the failure entry wins; definitions merge both sides.
impl<T: OperationModifier, E: ErrorDescriptor> OperationModifier for Result<T, E> {
    open spec fn contribution() -> Contribution {
        Contribution {
            parameters: T::contribution().parameters,
            responses: T::contribution().responses + E::spec_error_responses(),
            definitions: T::contribution().definitions + E::spec_error_definitions(),
            security: T::contribution().security,
            security_definitions: T::contribution().security_definitions,
        }
    }

    fn update_parameter(op: &mut OperationDescriptor) {
        T::update_parameter(op);
    }

    fn update_response(op: &mut OperationDescriptor) {
        T::update_response(op);
        E::update_error_definitions(op);
        proof {
            lemma_merge_entries_app(
                old(op)@.responses,
                T::contribution().responses,
                E::spec_error_responses(),
            );
        }
    }

    fn update_definitions(map: &mut DefinitionsMap) {
        T::update_definitions(map);
        E::update_definitions(map);
        proof {
            lemma_merge_entries_app(
                old(map)@,
                T::contribution().definitions,
                E::spec_error_definitions(),
            );
        }
    }

    fn update_security(op: &mut OperationDescriptor) {
        T::update_security(op);
    }

    fn update_security_definitions(map: &mut SecurityDefinitionsMap) {
        T::update_security_definitions(map);
    }
}

} // verus!
