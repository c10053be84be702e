use vstd::prelude::*;

use crate::json::{Json, JsonView};
use crate::model::{DefinitionType, Grant, GrantView};

verus! {

/// The request context failed a grant's context schema.
#[derive(Clone, Debug)]
pub struct ContextError {
    pub message: String,
    pub critical: bool,
    pub grant: Grant,
}

/// An identity or resource definition is malformed, repeated or refers to a
/// missing resource type.
#[derive(Clone, Debug)]
pub struct DefinitionError {
    pub message: String,
    pub critical: bool,
    pub definition_type: DefinitionType,
    pub definition: Json,
}

/// A grant document does not follow the grant schema.
#[derive(Clone, Debug)]
pub struct GrantError {
    pub message: String,
    pub critical: bool,
    pub grant: Json,
}

/// A grant's query could not be evaluated.
#[derive(Clone, Debug)]
pub struct JMESPathError {
    pub message: String,
    pub critical: bool,
    pub grant: Grant,
}

/// A request document does not follow the request schema.
#[derive(Clone, Debug)]
pub struct RequestError {
    pub message: String,
    pub critical: bool,
}

/// The errors of one workflow run, by kind, each list in the order found.
#[derive(Clone, Debug)]
pub struct Errors {
    pub context: Vec<ContextError>,
    pub definition: Vec<DefinitionError>,
    pub grant: Vec<GrantError>,
    pub jmespath: Vec<JMESPathError>,
    pub request: Vec<RequestError>,
}

/// The mathematical form of an error about a grant ([`ContextError`] or [`JMESPathError`]).
pub struct FindingView {
    pub message: Seq<char>,
    pub critical: bool,
    pub grant: GrantView,
}

/// The mathematical form of a [`DefinitionError`].
pub struct DefinitionErrorView {
    pub message: Seq<char>,
    pub critical: bool,
    pub definition_type: DefinitionType,
    pub definition: JsonView,
}

/// The mathematical form of a [`GrantError`].
pub struct GrantErrorView {
    pub message: Seq<char>,
    pub critical: bool,
    pub grant: JsonView,
}

/// The mathematical form of a [`RequestError`].
pub struct RequestErrorView {
    pub message: Seq<char>,
    pub critical: bool,
}

/// The mathematical form of [`Errors`].
pub struct ErrorsView {
    pub context: Seq<FindingView>,
    pub definition: Seq<DefinitionErrorView>,
    pub grant: Seq<GrantErrorView>,
    pub jmespath: Seq<FindingView>,
    pub request: Seq<RequestErrorView>,
}

impl View for ContextError {
    type V = FindingView;

    open spec fn view(&self) -> FindingView {
        FindingView { message: self.message@, critical: self.critical, grant: self.grant@ }
    }
}

impl DeepView for ContextError {
    type V = FindingView;

    open spec fn deep_view(&self) -> FindingView {
        self.view()
    }
}

impl View for JMESPathError {
    type V = FindingView;

    open spec fn view(&self) -> FindingView {
        FindingView { message: self.message@, critical: self.critical, grant: self.grant@ }
    }
}

impl DeepView for JMESPathError {
    type V = FindingView;

    open spec fn deep_view(&self) -> FindingView {
        self.view()
    }
}

impl View for DefinitionError {
    type V = DefinitionErrorView;

    open spec fn view(&self) -> DefinitionErrorView {
        DefinitionErrorView {
            message: self.message@,
            critical: self.critical,
            definition_type: self.definition_type,
            definition: self.definition@,
        }
    }
}

impl DeepView for DefinitionError {
    type V = DefinitionErrorView;

    open spec fn deep_view(&self) -> DefinitionErrorView {
        self.view()
    }
}

impl View for GrantError {
    type V = GrantErrorView;

    open spec fn view(&self) -> GrantErrorView {
        GrantErrorView { message: self.message@, critical: self.critical, grant: self.grant@ }
    }
}

impl DeepView for GrantError {
    type V = GrantErrorView;

    open spec fn deep_view(&self) -> GrantErrorView {
        self.view()
    }
}

impl View for RequestError {
    type V = RequestErrorView;

    open spec fn view(&self) -> RequestErrorView {
        RequestErrorView { message: self.message@, critical: self.critical }
    }
}

impl DeepView for RequestError {
    type V = RequestErrorView;

    open spec fn deep_view(&self) -> RequestErrorView {
        self.view()
    }
}

impl View for Errors {
    type V = ErrorsView;

    open spec fn view(&self) -> ErrorsView {
        ErrorsView {
            context: self.context.deep_view(),
            definition: self.definition.deep_view(),
            grant: self.grant.deep_view(),
            jmespath: self.jmespath.deep_view(),
            request: self.request.deep_view(),
        }
    }
}

impl ErrorsView {
    /// No error of any kind.
    pub open spec fn empty() -> ErrorsView {
        ErrorsView {
            context: Seq::empty(),
            definition: Seq::empty(),
            grant: Seq::empty(),
            jmespath: Seq::empty(),
            request: Seq::empty(),
        }
    }

    /// `self` followed by the context and query errors of `other`; the other
    /// kinds as in `self`.
    pub open spec fn absorb(self, other: ErrorsView) -> ErrorsView {
        ErrorsView {
            context: self.context + other.context,
            jmespath: self.jmespath + other.jmespath,
            ..self
        }
    }
}

impl Default for Errors {
    fn default() -> (r: Errors)
        ensures
            r@ == ErrorsView::empty(),
    {
        let r = Errors {
            context: Vec::new(),
            definition: Vec::new(),
            grant: Vec::new(),
            jmespath: Vec::new(),
            request: Vec::new(),
        };
        assert(r.context.deep_view() =~= Seq::<FindingView>::empty());
        assert(r.definition.deep_view() =~= Seq::<DefinitionErrorView>::empty());
        assert(r.grant.deep_view() =~= Seq::<GrantErrorView>::empty());
        assert(r.jmespath.deep_view() =~= Seq::<FindingView>::empty());
        assert(r.request.deep_view() =~= Seq::<RequestErrorView>::empty());
        r
    }
}

impl Errors {
    /// Appends the context and query errors of `other`, in order.
    pub fn absorb(&mut self, other: Errors)
        ensures
            final(self)@ == old(self)@.absorb(other@),
    {
        let mut other = other;
        let ghost before = self@;
        let ghost theirs = other@;
        self.context.append(&mut other.context);
        self.jmespath.append(&mut other.jmespath);
        assert(self@.context =~= before.context + theirs.context);
        assert(self@.jmespath =~= before.jmespath + theirs.jmespath);
        assert(self@ =~= before.absorb(theirs));
    }
}

/// The outcome of checking identity and resource definitions.
#[derive(Clone, Debug)]
pub struct ValidationResult {
    pub valid: bool,
    pub errors: Vec<DefinitionError>,
}

/// The outcome of checking grants against the grant schema.
#[derive(Clone, Debug)]
pub struct GrantValidationResult {
    pub valid: bool,
    pub errors: Vec<GrantError>,
}

/// The outcome of checking a request against the request schema.
#[derive(Clone, Debug)]
pub struct RequestValidationResult {
    pub valid: bool,
    pub errors: Vec<RequestError>,
}

/// The outcome of evaluating one grant against one request.
#[derive(Clone, Debug)]
pub struct EvaluateOneResult {
    pub critical: bool,
    pub applicable: bool,
    pub errors: Errors,
}

/// The mathematical form of an [`EvaluateOneResult`].
pub struct EvaluationView {
    pub critical: bool,
    pub applicable: bool,
    pub errors: ErrorsView,
}

impl View for EvaluateOneResult {
    type V = EvaluationView;

    open spec fn view(&self) -> EvaluationView {
        EvaluationView { critical: self.critical, applicable: self.applicable, errors: self.errors@ }
    }
}

/// The grants that apply to a request.
#[derive(Clone, Debug)]
pub struct AuditResponse {
    pub completed: bool,
    pub grants: Vec<Grant>,
    pub errors: Errors,
}

/// The mathematical form of an [`AuditResponse`].
pub struct AuditView {
    pub completed: bool,
    pub grants: Seq<GrantView>,
    pub errors: ErrorsView,
}

impl View for AuditResponse {
    type V = AuditView;

    open spec fn view(&self) -> AuditView {
        AuditView { completed: self.completed, grants: self.grants.deep_view(), errors: self.errors@ }
    }
}

/// The authorization decision for a request and the grant behind it.
#[derive(Clone, Debug)]
pub struct AuthorizeResponse {
    pub authorized: bool,
    pub completed: bool,
    pub grant: Option<Grant>,
    pub message: String,
    pub errors: Errors,
}

/// The mathematical form of an [`AuthorizeResponse`].
pub struct AuthorizeView {
    pub authorized: bool,
    pub completed: bool,
    pub grant: Option<GrantView>,
    pub message: Seq<char>,
    pub errors: ErrorsView,
}

impl View for AuthorizeResponse {
    type V = AuthorizeView;

    open spec fn view(&self) -> AuthorizeView {
        AuthorizeView {
            authorized: self.authorized,
            completed: self.completed,
            grant: match self.grant {
                Some(g) => Some(g@),
                None => None,
            },
            message: self.message@,
            errors: self.errors@,
        }
    }
}

/// The five generated schema documents.
#[derive(Clone, Debug)]
pub struct Schemas {
    pub grant: Json,
    pub errors: Json,
    pub request: Json,
    pub audit: Json,
    pub authorize: Json,
}

} // verus!
