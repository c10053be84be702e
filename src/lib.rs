//! Policy evaluation core: decides whether a request is authorized by a set of
//! allow and deny grants, or lists the grants that apply to it, and builds and
//! checks the schemas that identities, resources, grants and requests follow.
//!
//! Queries run through a search function that the caller supplies; schemas
//! are checked with `jsonschema`.

pub mod definitions;
pub mod engine;
pub mod errors;
pub mod evaluate;
pub mod json;
pub mod laws;
pub mod model;
pub mod schemas;
pub mod validator;
pub mod workflow;

pub use crate::definitions::{
    get_identity_definition_schema, get_resource_definition_schema, validate_definitions,
};
pub use crate::engine::{audit, authorize};
pub use crate::errors::{
    AuditResponse, AuthorizeResponse, ContextError, DefinitionError, Errors, EvaluateOneResult,
    GrantError, GrantValidationResult, JMESPathError, RequestError, RequestValidationResult,
    Schemas, ValidationResult,
};
pub use crate::evaluate::{evaluate_one, join, resolve_context_validation, resolve_query_validation};
pub use crate::json::{entry, Json, Member};
pub use crate::model::{
    ContextValidation, DefinitionType, Effect, Grant, IdentityDefinition, QueryValidation,
    Request, ResourceDefinition, StringMap,
};
pub use crate::schemas::generate_schemas;
pub use crate::validator::{validate_against, UNSAFE_SCHEMA_MESSAGE};
pub use crate::workflow::{audit_workflow, authorize_workflow, validate_grants, validate_request};
