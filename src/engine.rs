use vstd::prelude::*;

use crate::errors::{AuditResponse, AuditView, AuthorizeResponse, AuthorizeView, Errors, ErrorsView, EvaluationView};
use crate::evaluate::{covers_action, evaluate_with, evaluates_to, grant_covers_action};
use crate::json::Json;
use crate::model::{Effect, Grant, GrantView, Request};

verus! {

/// Why a request was refused after a critical error.
pub const CRITICAL_MESSAGE: &'static str = "A critical error has occurred. Therefore, the request is not authorized.";

/// Why a request was refused after a deny grant applied.
pub const DENY_MESSAGE: &'static str = "A deny grant is applicable to the request. Therefore, the request is not authorized.";

/// Why a request was authorized.
pub const ALLOW_MESSAGE: &'static str = "An allow grant is applicable to the request, and there are no deny grants that are applicable to the request. Therefore, the request is authorized.";

/// Why a request was refused when no grant applied.
pub const IMPLICIT_DENY_MESSAGE: &'static str = "No allow or deny grants are applicable to the request. Therefore, the request is implicitly denied and is not authorized.";

/// The views of `grants`.
pub open spec fn grant_views(grants: Seq<Grant>) -> Seq<GrantView> {
    grants.map_values(|g: Grant| g@)
}

/// The audit response once `evals`, the evaluations of the first grants of
/// `grants` in order, have been folded in.
pub open spec fn audit_fold(grants: Seq<GrantView>, evals: Seq<EvaluationView>) -> AuditView
    decreases evals.len(),
{
    if evals.len() == 0 {
        AuditView { completed: true, grants: Seq::empty(), errors: ErrorsView::empty() }
    } else {
        let n = evals.len() - 1;
        let prev = audit_fold(grants, evals.take(n));
        let e = evals[n];
        let errors = prev.errors.absorb(e.errors);
        if e.critical {
            AuditView { completed: false, grants: prev.grants, errors }
        } else if e.applicable {
            AuditView { completed: true, grants: prev.grants.push(grants[n]), errors }
        } else {
            AuditView { completed: true, grants: prev.grants, errors }
        }
    }
}

/// `evals` are evaluations of the first grants of `grants`, in order, and the
/// scan went on exactly until the first critical one.
pub open spec fn audit_scan<F: Fn(&str, &Json) -> Result<Json, jmespath::JmespathError>>(
    request: Request,
    grants: Seq<Grant>,
    search: F,
    evals: Seq<EvaluationView>,
) -> bool {
    &&& evals.len() <= grants.len()
    &&& forall|i: int| 0 <= i < evals.len() ==> evaluates_to(request, grants[i], search, #[trigger] evals[i])
    &&& forall|i: int| 0 <= i < evals.len() - 1 ==> !(#[trigger] evals[i]).critical
    &&& evals.len() < grants.len() ==> evals.len() > 0 && evals.last().critical
}

/// Collects every grant that applies to `request`, in order, with the errors
/// met. A critical error stops the scan: the response is then not completed.
pub fn audit<F>(request: &Request, grants: &[Grant], search: F) -> (r: AuditResponse) where
    F: Fn(&str, &Json) -> Result<Json, jmespath::JmespathError>,

    requires
        forall|q: &str, d: &Json| #[trigger] search.requires((q, d)),
    ensures
        exists|evals: Seq<EvaluationView>|
            audit_scan(*request, grants@, search, evals) && r@ == audit_fold(
                grant_views(grants@),
                evals,
            ),
{
    let ghost views = grant_views(grants@);
    let ghost mut evals: Seq<EvaluationView> = Seq::empty();
    let mut result = AuditResponse { completed: true, grants: Vec::new(), errors: Errors::default() };
    assert(result@.grants =~= Seq::<GrantView>::empty());
    for i in 0..grants.len()
        invariant
            views == grant_views(grants@),
            evals.len() == i,
            forall|k: int| 0 <= k < i ==> evaluates_to(*request, grants@[k], search, #[trigger] evals[k]),
            forall|k: int| 0 <= k < i ==> !(#[trigger] evals[k]).critical,
            result@ == audit_fold(views, evals),
            forall|q: &str, d: &Json| #[trigger] search.requires((q, d)),
    {
        let e = evaluate_with(request, &grants[i], &search);
        let ghost before = evals;
        proof {
            evals = evals.push(e@);
            assert(evals.take(i as int) =~= before);
        }
        let critical = e.critical;
        let applicable = e.applicable;
        result.errors.absorb(e.errors);
        if critical {
            result.completed = false;
            proof {
                assert(audit_scan(*request, grants@, search, evals));
                assert(result@ == audit_fold(views, evals));
            }
            return result;
        }
        if applicable {
            result.grants.push(grants[i].clone());
            assert(result@.grants =~= audit_fold(views, before).grants.push(views[i as int]));
        }
    }
    assert(audit_scan(*request, grants@, search, evals));
    result
}

/// A grant is scanned under `effect` when it has that effect and covers `action`.
pub open spec fn in_bucket(g: Grant, effect: Effect, action: Seq<char>) -> bool {
    g.effect == effect && covers_action(g@.actions, action)
}

/// The grants scanned under `effect`, in their order.
pub open spec fn bucket(grants: Seq<Grant>, effect: Effect, action: Seq<char>) -> Seq<Grant>
    decreases grants.len(),
{
    if grants.len() == 0 {
        Seq::empty()
    } else {
        let rest = bucket(grants.drop_last(), effect, action);
        if in_bucket(grants.last(), effect, action) {
            rest.push(grants.last())
        } else {
            rest
        }
    }
}

/// The order in which authorization scans grants: every deny grant before
/// every allow grant.
pub open spec fn scan_order(grants: Seq<Grant>, action: Seq<char>) -> Seq<Grant> {
    bucket(grants, Effect::Deny, action) + bucket(grants, Effect::Allow, action)
}

/// The context and query errors of `evals`, in order.
pub open spec fn absorb_all(evals: Seq<EvaluationView>) -> ErrorsView
    decreases evals.len(),
{
    if evals.len() == 0 {
        ErrorsView::empty()
    } else {
        absorb_all(evals.drop_last()).absorb(evals.last().errors)
    }
}

/// The authorization response once `evals`, the evaluations of the first
/// grants of `scan` in order, are known; the first `deny_count` grants of
/// `scan` are deny grants.
pub open spec fn authorize_outcome(
    scan: Seq<GrantView>,
    deny_count: int,
    evals: Seq<EvaluationView>,
) -> AuthorizeView {
    let errors = absorb_all(evals);
    let k = evals.len() - 1;
    if evals.len() == 0 || (!evals[k].critical && !evals[k].applicable) {
        AuthorizeView {
            authorized: false,
            completed: true,
            grant: None,
            message: IMPLICIT_DENY_MESSAGE@,
            errors,
        }
    } else if evals[k].critical {
        AuthorizeView {
            authorized: false,
            completed: false,
            grant: Some(scan[k]),
            message: CRITICAL_MESSAGE@,
            errors,
        }
    } else if k < deny_count {
        AuthorizeView {
            authorized: false,
            completed: true,
            grant: Some(scan[k]),
            message: DENY_MESSAGE@,
            errors,
        }
    } else {
        AuthorizeView {
            authorized: true,
            completed: true,
            grant: Some(scan[k]),
            message: ALLOW_MESSAGE@,
            errors,
        }
    }
}

/// `evals` are evaluations of the first grants of `scan`, in order, and the
/// scan went on exactly until the first grant that was critical or applicable.
pub open spec fn authorize_scan<F: Fn(&str, &Json) -> Result<Json, jmespath::JmespathError>>(
    request: Request,
    scan: Seq<Grant>,
    search: F,
    evals: Seq<EvaluationView>,
) -> bool {
    &&& evals.len() <= scan.len()
    &&& forall|i: int| 0 <= i < evals.len() ==> evaluates_to(request, scan[i], search, #[trigger] evals[i])
    &&& forall|i: int|
        0 <= i < evals.len() - 1 ==> !(#[trigger] evals[i]).critical && !evals[i].applicable
    &&& evals.len() < scan.len() ==> evals.len() > 0 && (evals.last().critical
        || evals.last().applicable)
}

/// The grants that `refs` point to.
pub open spec fn derefs(refs: Seq<&Grant>) -> Seq<Grant> {
    refs.map_values(|g: &Grant| *g)
}

/// The grants of `grants` that are scanned under `effect` for `action`, in order.
fn select_bucket<'a>(grants: &'a [Grant], effect: Effect, action: &String) -> (r: Vec<&'a Grant>)
    ensures
        derefs(r@) == bucket(grants@, effect, action@),
{
    let mut out: Vec<&Grant> = Vec::new();
    for i in 0..grants.len()
        invariant
            derefs(out@) == bucket(grants@.take(i as int), effect, action@),
    {
        let ghost before = out@;
        let ghost prefix = grants@.take(i as int);
        let ghost next = grants@.take(i + 1);
        proof {
            assert(next.drop_last() =~= prefix);
            assert(next.last() == grants@[i as int]);
            assert(bucket(next, effect, action@) == (if in_bucket(grants@[i as int], effect, action@) {
                bucket(prefix, effect, action@).push(grants@[i as int])
            } else {
                bucket(prefix, effect, action@)
            }));
        }
        if grants[i].effect == effect && grant_covers_action(&grants[i], action) {
            out.push(&grants[i]);
            assert(derefs(out@) =~= derefs(before).push(grants@[i as int]));
        }
    }
    assert(grants@.take(grants.len() as int) =~= grants@);
    out
}

/// Decides `request`: deny grants that cover its action are evaluated first,
/// in order, then allow grants. The first critical grant ends the scan unauthorized
/// and not completed; the first applicable grant ends it, authorized exactly when
/// it is an allow grant. With neither, the request is implicitly denied.
pub fn authorize<F>(request: &Request, grants: &[Grant], search: F) -> (r: AuthorizeResponse) where
    F: Fn(&str, &Json) -> Result<Json, jmespath::JmespathError>,

    requires
        forall|q: &str, d: &Json| #[trigger] search.requires((q, d)),
    ensures
        exists|evals: Seq<EvaluationView>|
            authorize_scan(*request, scan_order(grants@, request.action@), search, evals) && r@
                == authorize_outcome(
                grant_views(scan_order(grants@, request.action@)),
                bucket(grants@, Effect::Deny, request.action@).len() as int,
                evals,
            ),
{
    let mut scan = select_bucket(grants, Effect::Deny, &request.action);
    let deny_count = scan.len();
    let mut allow = select_bucket(grants, Effect::Allow, &request.action);
    scan.append(&mut allow);
    let ghost order = scan_order(grants@, request.action@);
    let ghost views = grant_views(order);
    assert(derefs(scan@) =~= order);
    let ghost mut evals: Seq<EvaluationView> = Seq::empty();
    let mut errors = Errors::default();
    for i in 0..scan.len()
        invariant
            derefs(scan@) == order,
            order == scan_order(grants@, request.action@),
            views == grant_views(order),
            deny_count == bucket(grants@, Effect::Deny, request.action@).len(),
            evals.len() == i,
            forall|k: int| 0 <= k < i ==> evaluates_to(*request, order[k], search, #[trigger] evals[k]),
            forall|k: int| 0 <= k < i ==> !(#[trigger] evals[k]).critical && !evals[k].applicable,
            errors@ == absorb_all(evals),
            forall|q: &str, d: &Json| #[trigger] search.requires((q, d)),
    {
        let grant = scan[i];
        assert(*grant == order[i as int]);
        let e = evaluate_with(request, grant, &search);
        let ghost before = evals;
        proof {
            evals = evals.push(e@);
            assert(evals.drop_last() =~= before);
        }
        let critical = e.critical;
        let applicable = e.applicable;
        errors.absorb(e.errors);
        if critical || applicable {
            proof {
                assert(authorize_scan(*request, order, search, evals));
            }
            let (authorized, completed, message) = if critical {
                (false, false, CRITICAL_MESSAGE)
            } else if i < deny_count {
                (false, true, DENY_MESSAGE)
            } else {
                (true, true, ALLOW_MESSAGE)
            };
            let r = AuthorizeResponse {
                authorized,
                completed,
                grant: Some(grant.clone()),
                message: message.to_string(),
                errors,
            };
            proof {
                assert(views[i as int] == order[i as int]@);
                assert(r@ == authorize_outcome(views, deny_count as int, evals));
            }
            return r;
        }
    }
    proof {
        assert(authorize_scan(*request, order, search, evals));
    }
    AuthorizeResponse {
        authorized: false,
        completed: true,
        grant: None,
        message: IMPLICIT_DENY_MESSAGE.to_string(),
        errors,
    }
}

} // verus!
