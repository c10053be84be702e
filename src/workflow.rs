use vstd::prelude::*;

use crate::definitions::{definition_issues, reports, validate_definitions};
use crate::engine::{
    audit, audit_fold, audit_scan, authorize, authorize_outcome, authorize_scan, bucket,
    grant_views, scan_order,
};
use crate::errors::{
    AuditResponse, AuthorizeResponse, Errors, ErrorsView, EvaluationView, GrantError,
    GrantErrorView, GrantValidationResult, RequestError, RequestValidationResult,
};
use crate::evaluate::{join, joined};
use crate::json::{Json, JsonView};
use crate::validator::{schema_passes, validate_against, violations_of};
use crate::model::{grant_json, request_json, Effect, Grant, IdentityDefinition, Request, ResourceDefinition};
use crate::schemas::{all_actions, generate_schemas, grant_schema, request_schema};

verus! {

/// How a grant that fails the grant schema is reported.
pub const GRANT_ERROR: &'static str = "The grant is not valid. Schema Error: ";

/// How a request that fails the request schema is reported.
pub const REQUEST_ERROR: &'static str = "The request is not valid for the request schema: ";

/// Why a request was refused when the definitions are not valid.
pub const DEFINITIONS_INVALID_MESSAGE: &'static str = "One or more identity and/or resource definitions are not valid. Therefore, the request is not authorized.";

/// Why a request was refused when a grant is not valid.
pub const GRANTS_INVALID_MESSAGE: &'static str = "One or more grants are not valid. Therefore, the request is not authorized.";

/// Why a request was refused when it is not valid itself.
pub const REQUEST_INVALID_MESSAGE: &'static str = "The request is not valid. Therefore the request is not authorized.";

/// The serialized forms of the grants of `grants` that `schema` rejects, in order.
pub open spec fn grant_failures(grants: Seq<Grant>, schema: JsonView) -> Seq<JsonView>
    decreases grants.len(),
{
    if grants.len() == 0 {
        Seq::empty()
    } else {
        let prev = grant_failures(grants.drop_last(), schema);
        let value = grant_json(grants.last()@);
        if schema_passes(schema, value) {
            prev
        } else {
            prev.push(value)
        }
    }
}

/// The message for a grant `value` that fails `schema`.
pub open spec fn grant_error_message(schema: JsonView, value: JsonView) -> Seq<char> {
    GRANT_ERROR@ + joined(violations_of(schema, value), ", "@)
}

/// `errors` report the grants `failures` that fail `schema`, one for one and in order.
pub open spec fn grant_errors_report(
    errors: Seq<GrantErrorView>,
    failures: Seq<JsonView>,
    schema: JsonView,
) -> bool {
    &&& errors.len() == failures.len()
    &&& forall|k: int|
        0 <= k < failures.len() ==> {
            &&& (#[trigger] errors[k]).critical
            &&& errors[k].grant == failures[k]
            &&& errors[k].message == grant_error_message(schema, failures[k])
        }
}

/// The message for a request `value` that fails `schema`.
pub open spec fn request_error_message(schema: JsonView, value: JsonView) -> Seq<char> {
    REQUEST_ERROR@ + joined(violations_of(schema, value), ", "@)
}

/// Checks each grant against the grant schema `schema`, reporting every grant
/// that fails it.
pub fn validate_grants(grants: &[Grant], schema: &Json) -> (r: GrantValidationResult)
    ensures
        grant_errors_report(r.errors.deep_view(), grant_failures(grants@, schema@), schema@),
        r.valid == (grant_failures(grants@, schema@).len() == 0),
{
    let mut errors: Vec<GrantError> = Vec::new();
    for i in 0..grants.len()
        invariant
            grant_errors_report(
                errors.deep_view(),
                grant_failures(grants@.take(i as int), schema@),
                schema@,
            ),
    {
        let ghost prefix = grants@.take(i as int);
        let ghost next = grants@.take(i + 1);
        proof {
            assert(next.drop_last() =~= prefix);
            assert(next.last() == grants@[i as int]);
        }
        let value = grants[i].to_json();
        if let Err(violations) = validate_against(schema, &value) {
            let ghost before = errors.deep_view();
            let mut message = GRANT_ERROR.to_string();
            let details = join(&violations, ", ");
            message.append(details.as_str());
            errors.push(GrantError { message, critical: true, grant: value });
            proof {
                let failures = grant_failures(next, schema@);
                assert(errors.deep_view() =~= before.push(errors@.last()@));
                assert(failures =~= grant_failures(prefix, schema@).push(failures.last()));
                assert forall|k: int| 0 <= k < failures.len() implies {
                    &&& (#[trigger] errors.deep_view()[k]).critical
                    &&& errors.deep_view()[k].grant == failures[k]
                    &&& errors.deep_view()[k].message == grant_error_message(schema@, failures[k])
                } by {
                    if k < failures.len() - 1 {
                        assert(errors.deep_view()[k] == before[k]);
                    }
                }
            }
        }
    }
    assert(grants@.take(grants.len() as int) =~= grants@);
    let valid = errors.len() == 0;
    GrantValidationResult { valid, errors }
}

/// Checks the request against the request schema `schema`: one critical
/// error when it fails.
pub fn validate_request(request: &Request, schema: &Json) -> (r: RequestValidationResult)
    ensures
        r.valid == schema_passes(schema@, request_json(*request)),
        r.valid ==> r.errors@.len() == 0,
        !r.valid ==> r.errors@.len() == 1 && r.errors@[0].critical && r.errors@[0].message@
            == request_error_message(schema@, request_json(*request)),
{
    let value = request.to_json();
    match validate_against(schema, &value) {
        Err(violations) => {
            let mut message = REQUEST_ERROR.to_string();
            let details = join(&violations, ", ");
            message.append(details.as_str());
            RequestValidationResult {
                valid: false,
                errors: vec![RequestError { message, critical: true }],
            }
        },
        Ok(()) => RequestValidationResult { valid: true, errors: Vec::new() },
    }
}

/// The stage at which a workflow stops, if it stops before evaluating grants.
pub enum Stage {
    /// The definitions are not valid.
    Definitions,
    /// Some grant does not follow the grant schema.
    Grants,
    /// The request does not follow the request schema.
    Request,
    /// Every check passed: the grants are evaluated.
    Evaluation,
}

/// The stage at which a workflow on these inputs stops.
pub open spec fn workflow_stage(
    identity_defs: Seq<IdentityDefinition>,
    resource_defs: Seq<ResourceDefinition>,
    grants: Seq<Grant>,
    request: Request,
) -> Stage {
    if definition_issues(identity_defs, resource_defs).len() > 0 {
        Stage::Definitions
    } else if grant_failures(grants, grant_schema(all_actions(resource_defs))).len() > 0 {
        Stage::Grants
    } else if !schema_passes(request_schema(identity_defs, resource_defs), request_json(request)) {
        Stage::Request
    } else {
        Stage::Evaluation
    }
}

/// The errors of a workflow that stopped at `stage`, before evaluating grants.
pub open spec fn stopped_errors(
    errors: ErrorsView,
    stage: Stage,
    identity_defs: Seq<IdentityDefinition>,
    resource_defs: Seq<ResourceDefinition>,
    grants: Seq<Grant>,
    request: Request,
) -> bool {
    &&& errors.context.len() == 0
    &&& errors.jmespath.len() == 0
    &&& reports(errors.definition, definition_issues(identity_defs, resource_defs))
    &&& stage == Stage::Definitions ==> errors.grant.len() == 0 && errors.request.len() == 0
    &&& stage != Stage::Definitions ==> grant_errors_report(
        errors.grant,
        grant_failures(grants, grant_schema(all_actions(resource_defs))),
        grant_schema(all_actions(resource_defs)),
    )
    &&& stage == Stage::Grants ==> errors.request.len() == 0
    &&& stage == Stage::Request ==> errors.request.len() == 1 && errors.request[0].critical
        && errors.request[0].message == request_error_message(
        request_schema(identity_defs, resource_defs),
        request_json(request),
    )
}

/// The checks that run before evaluation, in order, stopping at the first that fails.
fn run_checks(
    identity_defs: &[IdentityDefinition],
    resource_defs: &[ResourceDefinition],
    grants: &[Grant],
    request: &Request,
) -> (r: (bool, Errors))
    ensures
        r.0 == (workflow_stage(identity_defs@, resource_defs@, grants@, *request)
            == Stage::Evaluation),
        !r.0 ==> stopped_errors(
            r.1@,
            workflow_stage(identity_defs@, resource_defs@, grants@, *request),
            identity_defs@,
            resource_defs@,
            grants@,
            *request,
        ),
{
    let mut errors = Errors::default();
    let def_val = validate_definitions(identity_defs, resource_defs);
    errors.definition = def_val.errors;
    if !def_val.valid {
        assert(errors@.grant =~= Seq::<GrantErrorView>::empty());
        return (false, errors);
    }
    let schemas = generate_schemas(identity_defs, resource_defs);
    let grant_val = validate_grants(grants, &schemas.grant);
    errors.grant = grant_val.errors;
    if !grant_val.valid {
        return (false, errors);
    }
    let request_val = validate_request(request, &schemas.request);
    errors.request = request_val.errors;
    if !request_val.valid {
        return (false, errors);
    }
    (true, errors)
}

/// Validates the definitions, then the grants, then the request, stopping at
/// the first stage that fails with a response that is not completed and holds
/// that stage's errors; when all pass, audits the grants.
pub fn audit_workflow<F>(
    identity_defs: &[IdentityDefinition],
    resource_defs: &[ResourceDefinition],
    grants: &[Grant],
    request: &Request,
    search: F,
) -> (r: AuditResponse) where F: Fn(&str, &Json) -> Result<Json, jmespath::JmespathError>
    requires
        forall|q: &str, d: &Json| #[trigger] search.requires((q, d)),
    ensures
        ({
            let stage = workflow_stage(identity_defs@, resource_defs@, grants@, *request);
            &&& stage != Stage::Evaluation ==> !r.completed && r.grants@.len() == 0
                && stopped_errors(r.errors@, stage, identity_defs@, resource_defs@, grants@, *request)
            &&& stage == Stage::Evaluation ==> exists|evals: Seq<EvaluationView>|
                audit_scan(*request, grants@, search, evals) && r@ == audit_fold(
                    grant_views(grants@),
                    evals,
                )
        }),
{
    let (passed, errors) = run_checks(identity_defs, resource_defs, grants, request);
    if !passed {
        return AuditResponse { completed: false, grants: Vec::new(), errors };
    }
    audit(request, grants, search)
}

/// Validates the definitions, then the grants, then the request, stopping at
/// the first stage that fails with a response that is neither authorized nor
/// completed and holds that stage's errors; when all pass, authorizes.
pub fn authorize_workflow<F>(
    identity_defs: &[IdentityDefinition],
    resource_defs: &[ResourceDefinition],
    grants: &[Grant],
    request: &Request,
    search: F,
) -> (r: AuthorizeResponse) where F: Fn(&str, &Json) -> Result<Json, jmespath::JmespathError>
    requires
        forall|q: &str, d: &Json| #[trigger] search.requires((q, d)),
    ensures
        ({
            let stage = workflow_stage(identity_defs@, resource_defs@, grants@, *request);
            &&& stage != Stage::Evaluation ==> !r.authorized && !r.completed && r.grant is None
                && stopped_errors(r.errors@, stage, identity_defs@, resource_defs@, grants@, *request)
            &&& stage == Stage::Definitions ==> r.message@ == DEFINITIONS_INVALID_MESSAGE@
            &&& stage == Stage::Grants ==> r.message@ == GRANTS_INVALID_MESSAGE@
            &&& stage == Stage::Request ==> r.message@ == REQUEST_INVALID_MESSAGE@
            &&& stage == Stage::Evaluation ==> exists|evals: Seq<EvaluationView>|
                authorize_scan(*request, scan_order(grants@, request.action@), search, evals)
                    && r@ == authorize_outcome(
                    grant_views(scan_order(grants@, request.action@)),
                    bucket(grants@, Effect::Deny, request.action@).len() as int,
                    evals,
                )
        }),
{
    let (passed, errors) = run_checks(identity_defs, resource_defs, grants, request);
    if !passed {
        let stage = if errors.definition.len() > 0 {
            DEFINITIONS_INVALID_MESSAGE
        } else if errors.grant.len() > 0 {
            GRANTS_INVALID_MESSAGE
        } else {
            REQUEST_INVALID_MESSAGE
        };
        return AuthorizeResponse {
            authorized: false,
            grant: None,
            message: stage.to_string(),
            completed: false,
            errors,
        };
    }
    authorize(request, grants, search)
}

} // verus!
