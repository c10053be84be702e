use vstd::prelude::*;

use crate::json::{
    entry, items_view, members_view, texts_view, Json, JsonView, Member,
};

verus! {

/// Whether an applicable grant allows or denies the request.
#[derive(Clone, Copy, Debug, PartialEq, Eq, Structural)]
pub enum Effect {
    Allow,
    Deny,
}

/// How a failing query is treated; `Grant` on a request defers to the grant.
#[derive(Clone, Copy, Debug, PartialEq, Eq, Structural)]
pub enum QueryValidation {
    Grant,
    Validate,
    Error,
    Critical,
}

/// How the request context is checked against a grant's context schema;
/// `Grant` on a request defers to the grant, `Skip` (serialized `"none"`)
/// checks nothing.
#[derive(Clone, Copy, Debug, PartialEq, Eq, Structural)]
pub enum ContextValidation {
    Grant,
    Skip,
    Validate,
    Error,
    Critical,
}

/// The kind of definition a definition error is about.
#[derive(Clone, Copy, Debug, PartialEq, Eq, Structural)]
pub enum DefinitionType {
    Identity,
    Resource,
}

/// The serialized form of an effect.
pub open spec fn effect_json(e: Effect) -> JsonView {
    match e {
        Effect::Allow => JsonView::Str("allow"@),
        Effect::Deny => JsonView::Str("deny"@),
    }
}

/// The serialized form of a query-validation level.
pub open spec fn query_validation_json(q: QueryValidation) -> JsonView {
    match q {
        QueryValidation::Grant => JsonView::Str("grant"@),
        QueryValidation::Validate => JsonView::Str("validate"@),
        QueryValidation::Error => JsonView::Str("error"@),
        QueryValidation::Critical => JsonView::Str("critical"@),
    }
}

/// The serialized form of a context-validation level; `Skip` is `"none"`.
pub open spec fn context_validation_json(c: ContextValidation) -> JsonView {
    match c {
        ContextValidation::Grant => JsonView::Str("grant"@),
        ContextValidation::Skip => JsonView::Str("none"@),
        ContextValidation::Validate => JsonView::Str("validate"@),
        ContextValidation::Error => JsonView::Str("error"@),
        ContextValidation::Critical => JsonView::Str("critical"@),
    }
}

/// The serialized form of a definition type.
pub open spec fn definition_type_json(d: DefinitionType) -> JsonView {
    match d {
        DefinitionType::Identity => JsonView::Str("identity"@),
        DefinitionType::Resource => JsonView::Str("resource"@),
    }
}

impl Effect {
    /// The serialized form: `"allow"` or `"deny"`.
    pub fn to_json(&self) -> (r: Json)
        ensures
            r@ == effect_json(*self),
    {
        match self {
            Effect::Allow => Json::text("allow"),
            Effect::Deny => Json::text("deny"),
        }
    }
}

impl QueryValidation {
    /// The serialized form: the variant's name in snake case.
    pub fn to_json(&self) -> (r: Json)
        ensures
            r@ == query_validation_json(*self),
    {
        match self {
            QueryValidation::Grant => Json::text("grant"),
            QueryValidation::Validate => Json::text("validate"),
            QueryValidation::Error => Json::text("error"),
            QueryValidation::Critical => Json::text("critical"),
        }
    }
}

impl ContextValidation {
    /// The serialized form: the variant's name in snake case.
    pub fn to_json(&self) -> (r: Json)
        ensures
            r@ == context_validation_json(*self),
    {
        match self {
            ContextValidation::Grant => Json::text("grant"),
            ContextValidation::Skip => Json::text("none"),
            ContextValidation::Validate => Json::text("validate"),
            ContextValidation::Error => Json::text("error"),
            ContextValidation::Critical => Json::text("critical"),
        }
    }
}

impl DefinitionType {
    /// The serialized form: `"identity"` or `"resource"`.
    pub fn to_json(&self) -> (r: Json)
        ensures
            r@ == definition_type_json(*self),
    {
        match self {
            DefinitionType::Identity => Json::text("identity"),
            DefinitionType::Resource => Json::text("resource"),
        }
    }
}

/// A copy of `v`, string by string.
pub fn copy_strings(v: &Vec<String>) -> (r: Vec<String>)
    ensures
        r.deep_view() == v.deep_view(),
{
    let mut out: Vec<String> = Vec::new();
    for i in 0..v.len()
        invariant
            out@.len() == i,
            forall|k: int| 0 <= k < i ==> (#[trigger] out@[k])@ == v@[k]@,
    {
        out.push(v[i].clone());
    }
    assert(out.deep_view() =~= v.deep_view());
    out
}

/// A copy of `v`, value by value.
pub fn copy_values(v: &Vec<Json>) -> (r: Vec<Json>)
    ensures
        r.deep_view() == v.deep_view(),
{
    let mut out: Vec<Json> = Vec::new();
    for i in 0..v.len()
        invariant
            out@.len() == i,
            forall|k: int| 0 <= k < i ==> (#[trigger] out@[k])@ == v@[k]@,
    {
        out.push(v[i].clone());
    }
    assert(out.deep_view() =~= v.deep_view());
    out
}

/// Values keyed by name: each key at most once, in the order first inserted.
#[derive(Debug)]
pub struct StringMap<V> {
    entries: Vec<(String, V)>,
}

impl<V: DeepView> View for StringMap<V> {
    type V = Seq<(Seq<char>, V::V)>;

    closed spec fn view(&self) -> Seq<(Seq<char>, V::V)> {
        self.entries@.map_values(|e: (String, V)| (e.0@, e.1.deep_view()))
    }
}

/// The keys of `entries`, in order.
pub open spec fn keys_of<V>(entries: Seq<(Seq<char>, V)>) -> Seq<Seq<char>> {
    entries.map_values(|e: (Seq<char>, V)| e.0)
}

impl<V> StringMap<V> {
    #[verifier::type_invariant]
    spec fn keys_unique(&self) -> bool {
        forall|i: int, j: int|
            0 <= i < j < self.entries@.len() ==> (#[trigger] self.entries@[i]).0@
                != (#[trigger] self.entries@[j]).0@
    }
}

impl<V: DeepView> StringMap<V> {
    /// An empty map.
    pub fn new() -> (r: StringMap<V>)
        ensures
            r@ == Seq::<(Seq<char>, V::V)>::empty(),
    {
        let r = StringMap { entries: Vec::new() };
        assert(r@ =~= Seq::<(Seq<char>, V::V)>::empty());
        r
    }

    /// Sets the value of `key`: in place where the key is present, else at the end.
    pub fn insert(&mut self, key: String, value: V)
        ensures
            keys_of(old(self)@).contains(key@) ==> exists|i: int|
                0 <= i < old(self)@.len() && #[trigger] old(self)@[i].0 == key@ && final(self)@
                    == old(self)@.update(i, (key@, value.deep_view())),
            !keys_of(old(self)@).contains(key@) ==> final(self)@ == old(self)@.push(
                (key@, value.deep_view()),
            ),
    {
        proof {
            use_type_invariant(&*self);
        }
        let ghost old_view = self@;
        let mut entries: Vec<(String, V)> = Vec::new();
        std::mem::swap(&mut self.entries, &mut entries);
        let mut i: usize = 0;
        while i < entries.len()
            invariant_except_break
                0 <= i <= entries@.len(),
                forall|k: int| 0 <= k < i ==> (#[trigger] entries@[k]).0@ != key@,
            ensures
                0 <= i <= entries@.len(),
                forall|k: int| 0 <= k < i ==> (#[trigger] entries@[k]).0@ != key@,
                i < entries@.len() ==> entries@[i as int].0@ == key@,
            decreases entries@.len() - i,
        {
            if entries[i].0 == key {
                break;
            }
            i = i + 1;
        }
        let ghost keys = keys_of(old_view);
        let ghost old_entries = entries@;
        assert(old_view == old_entries.map_values(|e: (String, V)| (e.0@, e.1.deep_view())));
        assert(keys.len() == entries@.len());
        assert(forall|k: int| 0 <= k < keys.len() ==> #[trigger] keys[k] == entries@[k].0@);
        let ghost new_entry = (key@, value.deep_view());
        if i < entries.len() {
            entries.set(i, (key, value));
            self.entries = entries;
            proof {
                assert(keys[i as int] == key@);
                assert(self@ =~= old_view.update(i as int, new_entry));
                assert(old_view[i as int].0 == key@);
            }
        } else {
            entries.push((key, value));
            self.entries = entries;
            proof {
                assert(!keys.contains(key@));
                assert(self@ =~= old_view.push(new_entry));
            }
        }
    }

    /// The entries in order.
    pub fn entries(&self) -> (r: &Vec<(String, V)>)
        ensures
            r@.map_values(|e: (String, V)| (e.0@, e.1.deep_view())) == self@,
    {
        &self.entries
    }

    /// The number of entries.
    pub fn len(&self) -> (r: usize)
        ensures
            r == self@.len(),
    {
        self.entries.len()
    }
}

/// A class of principal: its name and the schema its instances follow.
#[derive(Clone, Debug)]
pub struct IdentityDefinition {
    pub identity_type: String,
    pub schema: Json,
}

/// A class of protected resource.
#[derive(Clone, Debug)]
pub struct ResourceDefinition {
    pub resource_type: String,
    pub actions: Vec<String>,
    pub schema: Json,
    pub parent_types: Vec<String>,
    pub child_types: Vec<String>,
}

/// One allow or deny rule. Empty `actions` means every action.
#[derive(Debug)]
pub struct Grant {
    pub effect: Effect,
    pub actions: Vec<String>,
    pub query: String,
    pub query_validation: QueryValidation,
    pub equality: Json,
    pub data: Json,
    pub context_schema: Json,
    pub context_validation: ContextValidation,
}

/// One authorization question.
#[derive(Debug)]
pub struct Request {
    pub identities: StringMap<Vec<Json>>,
    pub resource_type: String,
    pub action: String,
    pub resource: Json,
    pub parents: StringMap<Vec<Json>>,
    pub children: StringMap<Vec<Json>>,
    pub query_validation: QueryValidation,
    pub context: StringMap<Json>,
    pub context_validation: ContextValidation,
}

/// The mathematical form of a [`Grant`].
pub struct GrantView {
    pub effect: Effect,
    pub actions: Seq<Seq<char>>,
    pub query: Seq<char>,
    pub query_validation: QueryValidation,
    pub equality: JsonView,
    pub data: JsonView,
    pub context_schema: JsonView,
    pub context_validation: ContextValidation,
}

impl View for Grant {
    type V = GrantView;

    open spec fn view(&self) -> GrantView {
        GrantView {
            effect: self.effect,
            actions: self.actions.deep_view(),
            query: self.query@,
            query_validation: self.query_validation,
            equality: self.equality@,
            data: self.data@,
            context_schema: self.context_schema@,
            context_validation: self.context_validation,
        }
    }
}

impl DeepView for Grant {
    type V = GrantView;

    open spec fn deep_view(&self) -> GrantView {
        self.view()
    }
}

impl Clone for Grant {
    fn clone(&self) -> (r: Grant)
        ensures
            r@ == self@,
    {
        Grant {
            effect: self.effect,
            actions: copy_strings(&self.actions),
            query: self.query.clone(),
            query_validation: self.query_validation,
            equality: self.equality.clone(),
            data: self.data.clone(),
            context_schema: self.context_schema.clone(),
            context_validation: self.context_validation,
        }
    }
}

/// The serialized form of an identity definition.
pub open spec fn identity_definition_json(d: IdentityDefinition) -> JsonView {
    JsonView::Object(seq![("identity_type"@, JsonView::Str(d.identity_type@)), ("schema"@, d.schema@)])
}

/// The serialized form of a resource definition.
pub open spec fn resource_definition_json(d: ResourceDefinition) -> JsonView {
    JsonView::Object(
        seq![
            ("resource_type"@, JsonView::Str(d.resource_type@)),
            ("actions"@, texts_view(d.actions.deep_view())),
            ("schema"@, d.schema@),
            ("parent_types"@, texts_view(d.parent_types.deep_view())),
            ("child_types"@, texts_view(d.child_types.deep_view())),
        ],
    )
}

/// The serialized form of a grant.
pub open spec fn grant_json(g: GrantView) -> JsonView {
    JsonView::Object(
        seq![
            ("effect"@, effect_json(g.effect)),
            ("actions"@, texts_view(g.actions)),
            ("query"@, JsonView::Str(g.query)),
            ("query_validation"@, query_validation_json(g.query_validation)),
            ("equality"@, g.equality),
            ("data"@, g.data),
            ("context_schema"@, g.context_schema),
            ("context_validation"@, context_validation_json(g.context_validation)),
        ],
    )
}

/// An object whose members hold arrays: one for each entry of `lists`.
pub open spec fn lists_json(lists: Seq<(Seq<char>, Seq<JsonView>)>) -> JsonView {
    JsonView::Object(lists.map_values(|e: (Seq<char>, Seq<JsonView>)| (e.0, JsonView::Array(e.1))))
}

/// The serialized form of a request's context.
pub open spec fn context_json(r: Request) -> JsonView {
    JsonView::Object(r.context@)
}

/// The serialized form of a request.
pub open spec fn request_json(r: Request) -> JsonView {
    JsonView::Object(
        seq![
            ("identities"@, lists_json(r.identities@)),
            ("resource_type"@, JsonView::Str(r.resource_type@)),
            ("action"@, JsonView::Str(r.action@)),
            ("resource"@, r.resource@),
            ("parents"@, lists_json(r.parents@)),
            ("children"@, lists_json(r.children@)),
            ("query_validation"@, query_validation_json(r.query_validation)),
            ("context"@, context_json(r)),
            ("context_validation"@, context_validation_json(r.context_validation)),
        ],
    )
}

impl IdentityDefinition {
    /// The serialized form.
    pub fn to_json(&self) -> (r: Json)
        ensures
            r@ == identity_definition_json(*self),
    {
        let members = vec![
            entry("identity_type", Json::Str(self.identity_type.clone())),
            entry("schema", self.schema.clone()),
        ];
        let r = Json::object(members);
        assert(members_view(members@) =~= identity_definition_json(*self)->Object_0);
        r
    }
}

impl ResourceDefinition {
    /// The serialized form.
    pub fn to_json(&self) -> (r: Json)
        ensures
            r@ == resource_definition_json(*self),
    {
        let members = vec![
            entry("resource_type", Json::Str(self.resource_type.clone())),
            entry("actions", Json::texts(&self.actions)),
            entry("schema", self.schema.clone()),
            entry("parent_types", Json::texts(&self.parent_types)),
            entry("child_types", Json::texts(&self.child_types)),
        ];
        let r = Json::object(members);
        assert(members_view(members@) =~= resource_definition_json(*self)->Object_0);
        r
    }
}

impl Grant {
    /// The serialized form.
    pub fn to_json(&self) -> (r: Json)
        ensures
            r@ == grant_json(self@),
    {
        let members = vec![
            entry("effect", self.effect.to_json()),
            entry("actions", Json::texts(&self.actions)),
            entry("query", Json::Str(self.query.clone())),
            entry("query_validation", self.query_validation.to_json()),
            entry("equality", self.equality.clone()),
            entry("data", self.data.clone()),
            entry("context_schema", self.context_schema.clone()),
            entry("context_validation", self.context_validation.to_json()),
        ];
        let r = Json::object(members);
        assert(members_view(members@) =~= grant_json(self@)->Object_0);
        r
    }
}

/// An object holding, for each entry of `lists`, the array of its values.
pub fn lists_to_json(lists: &StringMap<Vec<Json>>) -> (r: Json)
    ensures
        r@ == lists_json(lists@),
{
    let entries = lists.entries();
    let mut members: Vec<Member> = Vec::new();
    for i in 0..entries.len()
        invariant
            entries@.map_values(|e: (String, Vec<Json>)| (e.0@, e.1.deep_view())) == lists@,
            members@.len() == i,
            forall|k: int|
                0 <= k < i ==> (#[trigger] members@[k]).key@ == entries@[k].0@ && members@[k].value@
                    == JsonView::Array(entries@[k].1.deep_view()),
    {
        let items = copy_values(&entries[i].1);
        let value = Json::array(items);
        assert(items_view(items@) =~= items.deep_view());
        members.push(Member { key: entries[i].0.clone(), value });
    }
    let r = Json::object(members);
    assert(members_view(members@) =~= lists_json(lists@)->Object_0);
    r
}

/// An object holding the entries of `values` in order.
pub fn values_to_json(values: &StringMap<Json>) -> (r: Json)
    ensures
        r@ == JsonView::Object(values@),
{
    let entries = values.entries();
    let mut members: Vec<Member> = Vec::new();
    for i in 0..entries.len()
        invariant
            entries@.map_values(|e: (String, Json)| (e.0@, e.1.deep_view())) == values@,
            members@.len() == i,
            forall|k: int|
                0 <= k < i ==> (#[trigger] members@[k]).key@ == entries@[k].0@ && members@[k].value@
                    == entries@[k].1@,
    {
        members.push(Member { key: entries[i].0.clone(), value: entries[i].1.clone() });
    }
    let r = Json::object(members);
    assert(members_view(members@) =~= values@);
    r
}

impl Request {
    /// The serialized form of the context alone.
    pub fn context_to_json(&self) -> (r: Json)
        ensures
            r@ == context_json(*self),
    {
        values_to_json(&self.context)
    }

    /// The serialized form.
    pub fn to_json(&self) -> (r: Json)
        ensures
            r@ == request_json(*self),
    {
        let members = vec![
            entry("identities", lists_to_json(&self.identities)),
            entry("resource_type", Json::Str(self.resource_type.clone())),
            entry("action", Json::Str(self.action.clone())),
            entry("resource", self.resource.clone()),
            entry("parents", lists_to_json(&self.parents)),
            entry("children", lists_to_json(&self.children)),
            entry("query_validation", self.query_validation.to_json()),
            entry("context", self.context_to_json()),
            entry("context_validation", self.context_validation.to_json()),
        ];
        let r = Json::object(members);
        assert(members_view(members@) =~= request_json(*self)->Object_0);
        r
    }
}

} // verus!
