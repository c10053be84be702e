use vstd::prelude::*;

use crate::definitions::{
    accepted_identity_names, accepted_resource_names, definition_issues, identity_issues,
    identity_passes, resource_issues, resource_passes,
};
use crate::engine::{
    absorb_all, audit_fold, audit_scan, authorize_outcome, authorize_scan, bucket, grant_views,
    in_bucket, scan_order, CRITICAL_MESSAGE,
};
use crate::errors::EvaluationView;
use crate::model::GrantView;
use crate::evaluate::{past_action_filter, evaluates_to, query_stage, resolve_context};
use crate::json::{texts_view, Json, JsonView};
use crate::schemas::{related_schema, request_schema, variant_schema};
use crate::model::{ContextValidation, DefinitionType, Effect, Grant, IdentityDefinition, Request, ResourceDefinition};

verus! {

/// A grant that lists no action is never turned down by the action filter:
/// whatever the request, its evaluation is the one past the filter.
pub proof fn law_empty_actions_pass_the_filter<F: Fn(&str, &Json) -> Result<Json, jmespath::JmespathError>>(
    request: Request,
    grant: Grant,
    search: F,
    r: EvaluationView,
)
    requires
        grant.actions@.len() == 0,
    ensures
        evaluates_to(request, grant, search, r) == past_action_filter(request, grant, search, r),
{
    assert(grant@.actions.len() == 0);
}

/// When the context-validation level in force is `Skip`, the request context is
/// not checked: the evaluation is that of the query alone, whatever the
/// context schema would say.
pub proof fn law_skipped_context_is_not_checked<F: Fn(&str, &Json) -> Result<Json, jmespath::JmespathError>>(
    request: Request,
    grant: Grant,
    search: F,
    r: EvaluationView,
)
    requires
        resolve_context(request.context_validation, grant.context_validation)
            == ContextValidation::Skip,
    ensures
        past_action_filter(request, grant, search, r) == query_stage(request, grant, search, r),
{
}

proof fn lemma_bucket_effect(grants: Seq<Grant>, effect: Effect, action: Seq<char>)
    ensures
        forall|i: int|
            0 <= i < bucket(grants, effect, action).len() ==> in_bucket(
                #[trigger] bucket(grants, effect, action)[i],
                effect,
                action,
            ),
    decreases grants.len(),
{
    if grants.len() > 0 {
        lemma_bucket_effect(grants.drop_last(), effect, action);
        let rest = bucket(grants.drop_last(), effect, action);
        assert forall|i: int| 0 <= i < bucket(grants, effect, action).len() implies in_bucket(
            #[trigger] bucket(grants, effect, action)[i],
            effect,
            action,
        ) by {
            if i < rest.len() {
                assert(bucket(grants, effect, action)[i] == rest[i]);
            }
        }
    }
}

/// Deny overrides allow. A request is authorized only when every deny grant
/// that covers its action was evaluated and none was applicable or critical,
/// and then by an allow grant; so an applicable or critical deny grant always
/// leaves it unauthorized, whatever the allow grants.
pub proof fn law_deny_overrides_allow<F: Fn(&str, &Json) -> Result<Json, jmespath::JmespathError>>(
    request: Request,
    grants: Seq<Grant>,
    search: F,
    evals: Seq<EvaluationView>,
)
    requires
        authorize_scan(request, scan_order(grants, request.action@), search, evals),
    ensures
        ({
            let deny = bucket(grants, Effect::Deny, request.action@);
            let scan = scan_order(grants, request.action@);
            let out = authorize_outcome(grant_views(scan), deny.len() as int, evals);
            &&& out.authorized ==> evals.len() > deny.len() && (forall|i: int|
                0 <= i < deny.len() ==> !(#[trigger] evals[i]).applicable && !evals[i].critical)
            &&& out.authorized ==> (out.grant matches Some(g) && g.effect == Effect::Allow)
            &&& (exists|i: int|
                0 <= i < deny.len() && i < evals.len() && ((#[trigger] evals[i]).applicable
                    || evals[i].critical)) ==> !out.authorized
        }),
{
    let deny = bucket(grants, Effect::Deny, request.action@);
    let allow = bucket(grants, Effect::Allow, request.action@);
    let scan = scan_order(grants, request.action@);
    let out = authorize_outcome(grant_views(scan), deny.len() as int, evals);
    if out.authorized {
        let k = evals.len() - 1;
        lemma_bucket_effect(grants, Effect::Allow, request.action@);
        assert(scan[k] == allow[k - deny.len()]);
        assert(in_bucket(allow[k - deny.len()], Effect::Allow, request.action@));
    }
}

/// Two lists of grants with the same deny grants and the same allow grants,
/// each in the same order, are scanned alike: how deny and allow grants are
/// interleaved does not matter.
pub proof fn law_interleaving_does_not_matter(a: Seq<Grant>, b: Seq<Grant>, action: Seq<char>)
    requires
        bucket(a, Effect::Deny, action) == bucket(b, Effect::Deny, action),
        bucket(a, Effect::Allow, action) == bucket(b, Effect::Allow, action),
    ensures
        scan_order(a, action) == scan_order(b, action),
        forall|evals: Seq<EvaluationView>|
            #[trigger] authorize_outcome(
                grant_views(scan_order(a, action)),
                bucket(a, Effect::Deny, action).len() as int,
                evals,
            ) == authorize_outcome(
                grant_views(scan_order(b, action)),
                bucket(b, Effect::Deny, action).len() as int,
                evals,
            ),
{
}

/// The first deny grant that is applicable or critical decides: it is the last
/// grant evaluated, the response names it and is not authorized, and it is
/// completed exactly when that grant was not critical. Every grant scanned
/// before it was neither applicable nor critical.
pub proof fn law_first_deny_decides<F: Fn(&str, &Json) -> Result<Json, jmespath::JmespathError>>(
    request: Request,
    grants: Seq<Grant>,
    search: F,
    evals: Seq<EvaluationView>,
    i: int,
)
    requires
        authorize_scan(request, scan_order(grants, request.action@), search, evals),
        0 <= i < evals.len(),
        i < bucket(grants, Effect::Deny, request.action@).len(),
        evals[i].applicable || evals[i].critical,
    ensures
        i == evals.len() - 1,
        forall|j: int| 0 <= j < i ==> !(#[trigger] evals[j]).applicable && !evals[j].critical,
        ({
            let scan = grant_views(scan_order(grants, request.action@));
            let out = authorize_outcome(
                scan,
                bucket(grants, Effect::Deny, request.action@).len() as int,
                evals,
            );
            &&& !out.authorized
            &&& out.grant == Some(scan[i])
            &&& out.completed == !evals[i].critical
            &&& out.errors == absorb_all(evals)
        }),
{
}

/// A critical evaluation ends the audit: it is the last grant evaluated, and
/// the response is not completed.
pub proof fn law_audit_stops_at_critical<F: Fn(&str, &Json) -> Result<Json, jmespath::JmespathError>>(
    request: Request,
    grants: Seq<Grant>,
    search: F,
    evals: Seq<EvaluationView>,
    k: int,
)
    requires
        audit_scan(request, grants, search, evals),
        0 <= k < evals.len(),
        evals[k].critical,
    ensures
        k == evals.len() - 1,
        !audit_fold(grant_views(grants), evals).completed,
        audit_fold(grant_views(grants), evals).grants == applicable_grants(grant_views(grants), evals),
        audit_fold(grant_views(grants), evals).errors == absorb_all(evals),
{
    lemma_audit_fold_parts(grant_views(grants), evals);
}

/// An audit with no critical evaluation evaluates every grant, is completed,
/// lists exactly the applicable grants in order, and gathers every grant's
/// context and query errors in order.
pub proof fn law_audit_without_critical<F: Fn(&str, &Json) -> Result<Json, jmespath::JmespathError>>(
    request: Request,
    grants: Seq<Grant>,
    search: F,
    evals: Seq<EvaluationView>,
)
    requires
        audit_scan(request, grants, search, evals),
        forall|i: int| 0 <= i < evals.len() ==> !(#[trigger] evals[i]).critical,
    ensures
        evals.len() == grants.len(),
        audit_fold(grant_views(grants), evals).completed,
        audit_fold(grant_views(grants), evals).grants == applicable_grants(grant_views(grants), evals),
        audit_fold(grant_views(grants), evals).errors == absorb_all(evals),
{
    lemma_audit_fold_parts(grant_views(grants), evals);
    if evals.len() < grants.len() {
        assert(evals[evals.len() - 1].critical);
    }
}

/// A critical evaluation ends the authorization scan: it is the last grant
/// evaluated, and the response is neither completed nor authorized.
pub proof fn law_authorize_stops_at_critical<F: Fn(&str, &Json) -> Result<Json, jmespath::JmespathError>>(
    request: Request,
    grants: Seq<Grant>,
    search: F,
    evals: Seq<EvaluationView>,
    k: int,
)
    requires
        authorize_scan(request, scan_order(grants, request.action@), search, evals),
        0 <= k < evals.len(),
        evals[k].critical,
    ensures
        k == evals.len() - 1,
        ({
            let out = authorize_outcome(
                grant_views(scan_order(grants, request.action@)),
                bucket(grants, Effect::Deny, request.action@).len() as int,
                evals,
            );
            &&& !out.completed
            &&& !out.authorized
            &&& out.grant == Some(grant_views(scan_order(grants, request.action@))[k])
            &&& out.message == CRITICAL_MESSAGE@
            &&& out.errors == absorb_all(evals)
        }),
{
}

/// The grants an audit lists after `evals`: each evaluated grant that was
/// applicable and not critical, in order.
pub open spec fn applicable_grants(grants: Seq<GrantView>, evals: Seq<EvaluationView>) -> Seq<
    GrantView,
>
    decreases evals.len(),
{
    if evals.len() == 0 {
        Seq::empty()
    } else {
        let n = evals.len() - 1;
        let prev = applicable_grants(grants, evals.take(n));
        if evals[n].applicable && !evals[n].critical {
            prev.push(grants[n])
        } else {
            prev
        }
    }
}

proof fn lemma_audit_fold_parts(grants: Seq<GrantView>, evals: Seq<EvaluationView>)
    ensures
        audit_fold(grants, evals).grants == applicable_grants(grants, evals),
        audit_fold(grants, evals).errors == absorb_all(evals),
    decreases evals.len(),
{
    if evals.len() > 0 {
        let n = evals.len() - 1;
        lemma_audit_fold_parts(grants, evals.take(n));
        assert(evals.take(n) =~= evals.drop_last());
    }
}

proof fn lemma_identity_issues_grow(defs: Seq<IdentityDefinition>, n: int)
    requires
        0 <= n <= defs.len(),
    ensures
        identity_issues(defs.take(n)).len() <= identity_issues(defs).len(),
    decreases defs.len(),
{
    if n < defs.len() {
        lemma_identity_issues_grow(defs.drop_last(), n);
        assert(defs.drop_last().take(n) =~= defs.take(n));
    } else {
        assert(defs.take(n) =~= defs);
    }
}

proof fn lemma_identity_name_kept(defs: Seq<IdentityDefinition>, k: int)
    requires
        0 <= k < defs.len(),
        identity_passes(defs[k]),
    ensures
        accepted_identity_names(defs).contains(defs[k].identity_type@),
    decreases defs.len(),
{
    if k < defs.len() - 1 {
        lemma_identity_name_kept(defs.drop_last(), k);
        let prev = accepted_identity_names(defs.drop_last());
        let i = choose|i: int| 0 <= i < prev.len() && prev[i] == defs[k].identity_type@;
        if accepted_identity_names(defs) != prev {
            assert(accepted_identity_names(defs)[i] == prev[i]);
        }
    } else {
        let prev = accepted_identity_names(defs.drop_last());
        if prev.contains(defs[k].identity_type@) {
        } else {
            assert(accepted_identity_names(defs).last() == defs[k].identity_type@);
        }
    }
}

/// Two identity definitions with one type name give at least one identity error.
proof fn lemma_repeated_identity_reported(defs: Seq<IdentityDefinition>, i: int, j: int)
    requires
        0 <= i < j < defs.len(),
        defs[i].identity_type@ == defs[j].identity_type@,
    ensures
        identity_issues(defs).len() > 0,
{
    let upto_i = defs.take(i + 1);
    let upto_j = defs.take(j + 1);
    assert(upto_j.drop_last() =~= defs.take(j));
    assert(upto_j.last() == defs[j]);
    if !identity_passes(defs[i]) {
        assert(upto_i.drop_last() =~= defs.take(i));
        assert(upto_i.last() == defs[i]);
        lemma_identity_issues_grow(defs, i + 1);
    } else {
        let before_j = defs.take(j);
        assert(before_j[i] == defs[i]);
        lemma_identity_name_kept(before_j, i);
        lemma_identity_issues_grow(defs, j + 1);
    }
}

proof fn lemma_resource_issues_grow(defs: Seq<ResourceDefinition>, n: int)
    requires
        0 <= n <= defs.len(),
    ensures
        resource_issues(defs.take(n)).len() <= resource_issues(defs).len(),
    decreases defs.len(),
{
    if n < defs.len() {
        lemma_resource_issues_grow(defs.drop_last(), n);
        assert(defs.drop_last().take(n) =~= defs.take(n));
    } else {
        assert(defs.take(n) =~= defs);
    }
}

proof fn lemma_resource_name_kept(defs: Seq<ResourceDefinition>, k: int)
    requires
        0 <= k < defs.len(),
        resource_passes(defs[k]),
    ensures
        accepted_resource_names(defs).contains(defs[k].resource_type@),
    decreases defs.len(),
{
    if k < defs.len() - 1 {
        lemma_resource_name_kept(defs.drop_last(), k);
        let prev = accepted_resource_names(defs.drop_last());
        let i = choose|i: int| 0 <= i < prev.len() && prev[i] == defs[k].resource_type@;
        if accepted_resource_names(defs) != prev {
            assert(accepted_resource_names(defs)[i] == prev[i]);
        }
    } else {
        let prev = accepted_resource_names(defs.drop_last());
        if prev.contains(defs[k].resource_type@) {
        } else {
            assert(accepted_resource_names(defs).last() == defs[k].resource_type@);
        }
    }
}

/// Two resource definitions with one type name give at least one resource error.
proof fn lemma_repeated_resource_reported(defs: Seq<ResourceDefinition>, i: int, j: int)
    requires
        0 <= i < j < defs.len(),
        defs[i].resource_type@ == defs[j].resource_type@,
    ensures
        resource_issues(defs).len() > 0,
{
    let upto_i = defs.take(i + 1);
    let upto_j = defs.take(j + 1);
    assert(upto_j.drop_last() =~= defs.take(j));
    assert(upto_j.last() == defs[j]);
    if !resource_passes(defs[i]) {
        assert(upto_i.drop_last() =~= defs.take(i));
        assert(upto_i.last() == defs[i]);
        lemma_resource_issues_grow(defs, i + 1);
    } else {
        let before_j = defs.take(j);
        assert(before_j[i] == defs[i]);
        lemma_resource_name_kept(before_j, i);
        lemma_resource_issues_grow(defs, j + 1);
    }
}

proof fn lemma_issue_types(ids: Seq<IdentityDefinition>, rs: Seq<ResourceDefinition>)
    ensures
        forall|k: int|
            0 <= k < identity_issues(ids).len() ==> (#[trigger] identity_issues(ids)[k]).definition_type
                == DefinitionType::Identity,
        forall|k: int|
            0 <= k < resource_issues(rs).len() ==> (#[trigger] resource_issues(rs)[k]).definition_type
                == DefinitionType::Resource,
    decreases ids.len() + rs.len(),
{
    if ids.len() > 0 {
        lemma_issue_types(ids.drop_last(), rs);
    }
    if rs.len() > 0 {
        lemma_issue_types(ids, rs.drop_last());
    }
}

/// Checking definitions does not stop at the first problem: two identity
/// definitions sharing a type name and two resource definitions sharing a type
/// name give at least two errors, one about an identity definition and one
/// about a resource definition.
pub proof fn law_definition_check_is_exhaustive(
    ids: Seq<IdentityDefinition>,
    rs: Seq<ResourceDefinition>,
    i1: int,
    i2: int,
    j1: int,
    j2: int,
)
    requires
        0 <= i1 < i2 < ids.len(),
        ids[i1].identity_type@ == ids[i2].identity_type@,
        0 <= j1 < j2 < rs.len(),
        rs[j1].resource_type@ == rs[j2].resource_type@,
    ensures
        exists|a: int, b: int|
            0 <= a < b < definition_issues(ids, rs).len() && (#[trigger] definition_issues(
                ids,
                rs,
            )[a]).definition_type == DefinitionType::Identity && (#[trigger] definition_issues(
                ids,
                rs,
            )[b]).definition_type == DefinitionType::Resource,
{
    lemma_repeated_identity_reported(ids, i1, i2);
    lemma_repeated_resource_reported(rs, j1, j2);
    lemma_issue_types(ids, rs);
    let all = definition_issues(ids, rs);
    let n = identity_issues(ids).len();
    assert(all[0] == identity_issues(ids)[0]);
    assert(all[n as int] == resource_issues(rs)[0]);
    assert(all[0].definition_type == DefinitionType::Identity);
    assert(all[n as int].definition_type == DefinitionType::Resource);
}

/// The request schema has one variant for each resource definition, in order;
/// the variant for a definition fixes `resource_type` to its name, limits
/// `action` to its actions, and asks for `parents` and `children` keyed exactly
/// by its parent and child types. (Which documents pass is then up to the
/// schema validator.)
pub proof fn law_request_schema_variant_per_resource_type(
    ids: Seq<IdentityDefinition>,
    rs: Seq<ResourceDefinition>,
    i: int,
)
    requires
        0 <= i < rs.len(),
    ensures
        ({
            let variants = request_schema(ids, rs)->Object_0[2].1->Array_0;
            let properties = variants[i]->Object_0[5].1->Object_0;
            &&& variants.len() == rs.len()
            &&& variants[i] == variant_schema(rs[i])
            &&& properties[1] == ("action"@, JsonView::Object(
                seq![("type"@, JsonView::Str("string"@)), ("enum"@, texts_view(rs[i].actions.deep_view()))],
            ))
            &&& properties[2] == ("resource_type"@, JsonView::Object(
                seq![("const"@, JsonView::Str(rs[i].resource_type@))],
            ))
            &&& properties[4] == ("parents"@, related_schema(rs[i].parent_types.deep_view()))
            &&& properties[5] == ("children"@, related_schema(rs[i].child_types.deep_view()))
        }),
{
}

} // verus!
