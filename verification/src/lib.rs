//! Type-driven composition of API operation descriptors.
//!
//! Each type that can appear as a handler argument or return value
//! contributes parameters, responses, schema definitions and security
//! requirements to a shared operation descriptor through the
//! [`OperationModifier`](modifier::OperationModifier) capability trait.

pub mod descriptor;
pub mod forwarding;
pub mod laws;
pub mod leaves;
pub mod models;
pub mod modifier;
pub mod order;
pub mod strmap;
pub mod web;

pub use descriptor::{DefinitionsMap, OperationDescriptor, SecurityDefinitionsMap};
pub use models::{Location, Parameter, Response, Schema, SecurityScheme};
pub use modifier::{compose, compose_return, Contribution, ErrorDescriptor, OperationDescription,
    OperationModifier, SchemaDescriptor, TypedPayload};
pub use strmap::StringMap;
