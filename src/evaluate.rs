use vstd::prelude::*;
use vstd::string::to_string_from_display_ensures;

use crate::errors::{
    ContextError, Errors, ErrorsView, EvaluateOneResult, EvaluationView, FindingView,
    JMESPathError,
};
use crate::json::{entry, json_equal, same_json, Json, JsonView};
use crate::validator::{schema_passes, validate_against, violations_of};
use crate::model::{
    context_json, grant_json, request_json, ContextValidation, Grant, GrantView, QueryValidation,
    Request,
};

verus! {

/// jmespath's `JmespathError`, the error a search function returns; opaque
/// here, read only through its `Display` text.
#[verifier::external_type_specification]
#[verifier::external_body]
pub struct ExJmespathError(jmespath::JmespathError);

/// The context-validation level in force: the request's own, unless it defers
/// to the grant.
pub open spec fn resolve_context(
    request_level: ContextValidation,
    grant_level: ContextValidation,
) -> ContextValidation {
    if request_level == ContextValidation::Grant {
        grant_level
    } else {
        request_level
    }
}

/// The query-validation level in force: the request's own, unless it defers to
/// the grant.
pub open spec fn resolve_query(
    request_level: QueryValidation,
    grant_level: QueryValidation,
) -> QueryValidation {
    if request_level == QueryValidation::Grant {
        grant_level
    } else {
        request_level
    }
}

/// A grant covers an action when it lists no action or lists that one.
pub open spec fn covers_action(actions: Seq<Seq<char>>, action: Seq<char>) -> bool {
    actions.len() == 0 || actions.contains(action)
}

/// `parts` with `sep` between each two of them.
pub open spec fn joined(parts: Seq<Seq<char>>, sep: Seq<char>) -> Seq<char>
    decreases parts.len(),
{
    if parts.len() == 0 {
        Seq::empty()
    } else if parts.len() == 1 {
        parts[0]
    } else {
        joined(parts.drop_last(), sep) + sep + parts.last()
    }
}

/// An error about `grant`.
pub open spec fn finding(message: Seq<char>, critical: bool, grant: GrantView) -> FindingView {
    FindingView { message, critical, grant }
}

/// An evaluation that records no error and is not critical.
pub open spec fn quiet(applicable: bool) -> EvaluationView {
    EvaluationView { critical: false, applicable, errors: ErrorsView::empty() }
}

/// The evaluation when the request context fails the grant's context schema
/// at `level`, with `message` describing the failure.
pub open spec fn context_failure_view(
    level: ContextValidation,
    grant: GrantView,
    message: Seq<char>,
) -> EvaluationView {
    match level {
        ContextValidation::Error => EvaluationView {
            critical: false,
            applicable: false,
            errors: ErrorsView { context: seq![finding(message, false, grant)], ..ErrorsView::empty() },
        },
        ContextValidation::Critical => EvaluationView {
            critical: true,
            applicable: false,
            errors: ErrorsView { context: seq![finding(message, true, grant)], ..ErrorsView::empty() },
        },
        _ => quiet(false),
    }
}

/// The evaluation once the query has run at `level`: `found` is the value it
/// gave or the message of its error.
pub open spec fn query_outcome_view(
    level: QueryValidation,
    grant: GrantView,
    found: Result<JsonView, Seq<char>>,
) -> EvaluationView {
    match found {
        Ok(v) => quiet(json_equal(v, grant.equality)),
        Err(message) => match level {
            QueryValidation::Error => EvaluationView {
                critical: false,
                applicable: false,
                errors: ErrorsView {
                    jmespath: seq![finding(message, false, grant)],
                    ..ErrorsView::empty()
                },
            },
            QueryValidation::Critical => EvaluationView {
                critical: true,
                applicable: false,
                errors: ErrorsView {
                    jmespath: seq![finding(message, true, grant)],
                    ..ErrorsView::empty()
                },
            },
            _ => quiet(false),
        },
    }
}

/// The data a grant's query runs on.
pub open spec fn query_payload(request: Request, grant: GrantView) -> JsonView {
    JsonView::Object(seq![("request"@, request_json(request)), ("grant"@, grant_json(grant))])
}

/// The evaluation once the query has run, whatever `search` gave back.
pub open spec fn query_stage<F: Fn(&str, &Json) -> Result<Json, jmespath::JmespathError>>(
    request: Request,
    grant: Grant,
    search: F,
    r: EvaluationView,
) -> bool {
    let level = resolve_query(request.query_validation, grant.query_validation);
    exists|q: &str, payload: &Json, found: Result<Json, jmespath::JmespathError>|
        {
            &&& q@ == grant.query@
            &&& payload@ == query_payload(request, grant@)
            &&& #[trigger] call_ensures(search, (q, payload), found)
            &&& match found {
                Ok(v) => r == query_outcome_view(level, grant@, Ok(v@)) && (v@ == grant.equality@
                    ==> r.applicable),
                Err(e) => exists|m: String|
                    to_string_from_display_ensures(&e, m) && r == query_outcome_view(
                        level,
                        grant@,
                        Err(m@),
                    ),
            }
        }
}

/// The evaluation of a grant whose actions cover the request's action.
pub open spec fn past_action_filter<F: Fn(&str, &Json) -> Result<Json, jmespath::JmespathError>>(
    request: Request,
    grant: Grant,
    search: F,
    r: EvaluationView,
) -> bool {
    let level = resolve_context(request.context_validation, grant.context_validation);
    if level != ContextValidation::Skip && !schema_passes(
        grant.context_schema@,
        context_json(request),
    ) {
        r == context_failure_view(
            level,
            grant@,
            joined(violations_of(grant.context_schema@, context_json(request)), ", "@),
        )
    } else {
        query_stage(request, grant, search, r)
    }
}

/// `r` is a possible evaluation of `grant` for `request` with `search`.
pub open spec fn evaluates_to<F: Fn(&str, &Json) -> Result<Json, jmespath::JmespathError>>(
    request: Request,
    grant: Grant,
    search: F,
    r: EvaluationView,
) -> bool {
    if !covers_action(grant@.actions, request.action@) {
        r == quiet(false)
    } else {
        past_action_filter(request, grant, search, r)
    }
}

/// The context-validation level in force for a request and a grant.
pub fn resolve_context_validation(
    request_level: ContextValidation,
    grant_level: ContextValidation,
) -> (r: ContextValidation)
    ensures
        r == resolve_context(request_level, grant_level),
{
    match request_level {
        ContextValidation::Grant => grant_level,
        _ => request_level,
    }
}

/// The query-validation level in force for a request and a grant.
pub fn resolve_query_validation(
    request_level: QueryValidation,
    grant_level: QueryValidation,
) -> (r: QueryValidation)
    ensures
        r == resolve_query(request_level, grant_level),
{
    match request_level {
        QueryValidation::Grant => grant_level,
        _ => request_level,
    }
}

/// Whether `grant` covers `action`.
pub fn grant_covers_action(grant: &Grant, action: &String) -> (r: bool)
    ensures
        r == covers_action(grant@.actions, action@),
{
    if grant.actions.len() == 0 {
        return true;
    }
    for i in 0..grant.actions.len()
        invariant
            forall|k: int| 0 <= k < i ==> grant@.actions[k] != action@,
    {
        if grant.actions[i] == *action {
            assert(grant@.actions[i as int] == action@);
            return true;
        }
    }
    false
}

/// `parts` with `sep` between each two of them.
pub fn join(parts: &Vec<String>, sep: &str) -> (r: String)
    ensures
        r@ == joined(parts.deep_view(), sep@),
{
    let mut out = String::new();
    for i in 0..parts.len()
        invariant
            out@ == joined(parts.deep_view().take(i as int), sep@),
    {
        assert(parts.deep_view().take(i + 1).drop_last() =~= parts.deep_view().take(i as int));
        if i > 0 {
            out.append(sep);
        }
        out.append(parts[i].as_str());
        assert(out@ =~= joined(parts.deep_view().take(i + 1), sep@));
    }
    assert(parts.deep_view().take(parts.len() as int) =~= parts.deep_view());
    out
}

/// `first` followed by `second`.
pub(crate) fn two_parts(first: &str, second: &str) -> (r: String)
    ensures
        r@ == first@ + second@,
{
    let mut out = first.to_string();
    out.append(second);
    out
}

/// `first` followed by `second` and `third`.
pub(crate) fn three_parts(first: &str, second: &str, third: &str) -> (r: String)
    ensures
        r@ == first@ + second@ + third@,
{
    let mut out = first.to_string();
    out.append(second);
    out.append(third);
    out
}

/// An evaluation with nothing recorded.
fn quiet_result(applicable: bool) -> (r: EvaluateOneResult)
    ensures
        r@ == quiet(applicable),
{
    EvaluateOneResult { critical: false, applicable, errors: Errors::default() }
}

/// The evaluation of a grant whose context schema rejected the request context
/// at `level`, with `violations` from the validator.
pub fn context_failure(level: ContextValidation, grant: &Grant, violations: &Vec<String>) -> (r:
    EvaluateOneResult)
    ensures
        r@ == context_failure_view(level, grant@, joined(violations.deep_view(), ", "@)),
{
    let critical = match level {
        ContextValidation::Critical => true,
        _ => false,
    };
    match level {
        ContextValidation::Error | ContextValidation::Critical => {
            let mut errors = Errors::default();
            errors.context.push(
                ContextError { message: join(violations, ", "), critical, grant: grant.clone() },
            );
            let r = EvaluateOneResult { critical, applicable: false, errors };
            assert(r@.errors.context =~= seq![
                finding(joined(violations.deep_view(), ", "@), critical, grant@),
            ]);
            assert(r@.errors =~= context_failure_view(
                level,
                grant@,
                joined(violations.deep_view(), ", "@),
            ).errors);
            r
        },
        _ => quiet_result(false),
    }
}

/// The evaluation of a grant once its query ran at `level`: `found` is the
/// value the query gave or the message of its error.
pub fn query_outcome(level: QueryValidation, grant: &Grant, found: Result<Json, String>) -> (r:
    EvaluateOneResult)
    ensures
        r@ == query_outcome_view(
            level,
            grant@,
            match found {
                Ok(v) => Ok(v@),
                Err(m) => Err(m@),
            },
        ),
        found matches Ok(v) && v@ == grant.equality@ ==> r.applicable,
{
    match found {
        Ok(v) => quiet_result(same_json(&v, &grant.equality)),
        Err(message) => {
            let critical = match level {
                QueryValidation::Critical => true,
                _ => false,
            };
            match level {
                QueryValidation::Error | QueryValidation::Critical => {
                    let ghost m = message@;
                    let mut errors = Errors::default();
                    errors.jmespath.push(JMESPathError { message, critical, grant: grant.clone() });
                    let r = EvaluateOneResult { critical, applicable: false, errors };
                    assert(r@.errors.jmespath =~= seq![finding(m, critical, grant@)]);
                    assert(r@.errors =~= query_outcome_view(level, grant@, Err(m)).errors);
                    r
                },
                _ => quiet_result(false),
            }
        },
    }
}

/// The data a grant's query runs on: the request and the grant, serialized.
pub fn build_query_payload(request: &Request, grant: &Grant) -> (r: Json)
    ensures
        r@ == query_payload(*request, grant@),
{
    let members = vec![entry("request", request.to_json()), entry("grant", grant.to_json())];
    let r = Json::object(members);
    assert(crate::json::members_view(members@) =~= query_payload(*request, grant@)->Object_0);
    r
}

/// Decides whether `grant` applies to `request`, running its query with `search`.
///
/// A grant whose actions do not cover the request's action does not apply.
/// Otherwise, unless the context-validation level in force is `Skip`, the
/// request context must pass the grant's context schema; then the query must
/// give a value equal to the grant's `equality`. A failing context check or
/// query is silent, recorded, or recorded as critical, by the level in force.
pub fn evaluate_one<F>(request: &Request, grant: &Grant, search: F) -> (r: EvaluateOneResult) where
    F: Fn(&str, &Json) -> Result<Json, jmespath::JmespathError>,

    requires
        forall|q: &str, d: &Json| #[trigger] search.requires((q, d)),
    ensures
        evaluates_to(*request, *grant, search, r@),
{
    evaluate_with(request, grant, &search)
}

pub(crate) fn evaluate_with<F>(request: &Request, grant: &Grant, search: &F) -> (r:
    EvaluateOneResult) where F: Fn(&str, &Json) -> Result<Json, jmespath::JmespathError>
    requires
        forall|q: &str, d: &Json| #[trigger] search.requires((q, d)),
    ensures
        evaluates_to(*request, *grant, *search, r@),
{
    if !grant_covers_action(grant, &request.action) {
        return quiet_result(false);
    }
    let level = resolve_context_validation(request.context_validation, grant.context_validation);
    match level {
        ContextValidation::Skip => {},
        _ => {
            let context = request.context_to_json();
            if let Err(violations) = validate_against(&grant.context_schema, &context) {
                let r = context_failure(level, grant, &violations);
                return r;
            }
        },
    }
    let payload = build_query_payload(request, grant);
    let query_level = resolve_query_validation(request.query_validation, grant.query_validation);
    let q = grant.query.as_str();
    let found = search(q, &payload);
    let ghost found_then = found;
    let outcome = match found {
        Ok(v) => Ok(v),
        Err(e) => Err(e.to_string()),
    };
    let r = query_outcome(query_level, grant, outcome);
    proof {
        match found_then {
            Ok(v) => {},
            Err(e) => {
                let m = outcome->Err_0;
                assert(to_string_from_display_ensures(&e, m));
            },
        }
        assert(query_stage(*request, *grant, *search, r@));
    }
    r
}

} // verus!
