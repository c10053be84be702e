use vstd::prelude::*;

use crate::definitions::contains_name;
use crate::evaluate::{three_parts, two_parts};
use crate::errors::Schemas;
use crate::json::{entry, items_view, members_view, texts_view, Json, JsonView, Member};
use crate::model::{IdentityDefinition, ResourceDefinition};

verus! {

pub const GRANT_DESCRIPTION: &'static str = "A grant is an object representing a enacted authorization rule.";

pub const EFFECT_DESCRIPTION: &'static str = "Any applicable deny grant will always cause the request to be not authorized. If there are no applicable deny grants, and there is an applicable allow grant, the request is authorized. If there no applicable allow or deny grants, requests are implicitly denied and not authorized.";

pub const ACTIONS_DESCRIPTION: &'static str = "List of actions this grant applies to or null to match any resource action.";

pub const QUERY_DESCRIPTION: &'static str = "JMESPath query to run on the authorization data. {\"grant\": <grant>, \"request\": <request>}";

pub const QUERY_VALIDATION_DESCRIPTION: &'static str = "Grant-level query validation setting. Set how the query errors are treated. 'validate' - Query errors cause the grant to be inapplicable to the request. 'error' - Includes the 'validate' setting checks, and also adds errors to the result. 'critical' - Includes the 'error' setting checks, and will flag the error as critical, thus exiting the workflow early.";

pub const EQUALITY_DESCRIPTION: &'static str = "Expected value for they query to return. If the query result matches this value the grant is a considered applicable to the request.";

pub const DATA_DESCRIPTION: &'static str = "Data that is made available at query time for the grant evaluation. Easy place to store data so it doesn't have to be embedded in the query.";

pub const CONTEXT_VALIDATION_DESCRIPTION: &'static str = "Grant-level context validation setting. Set how the request context is validated against the grant context schema. 'none' - there is no validation. 'validate' - Context is validated and if the context is invalid, the grant is not applicable to the request. 'error' - Includes the 'validate' setting checks, and also adds errors to the result. 'critical' Includes the 'error' setting checks, and will flag the error as critical, thus exiting the workflow early.";

pub const SCHEMA_DIALECT: &'static str = "https://json-schema.org/draft/2020-12/schema";

/// An object from its members.
pub open spec fn obj(members: Seq<(Seq<char>, JsonView)>) -> JsonView {
    JsonView::Object(members)
}

/// A string value.
pub open spec fn txt(s: &str) -> JsonView {
    JsonView::Str(s@)
}

/// `acc` followed by those of `items` it does not hold yet, each once, in order.
pub open spec fn add_new(acc: Seq<Seq<char>>, items: Seq<Seq<char>>) -> Seq<Seq<char>>
    decreases items.len(),
{
    if items.len() == 0 {
        acc
    } else {
        let prev = add_new(acc, items.drop_last());
        if prev.contains(items.last()) {
            prev
        } else {
            prev.push(items.last())
        }
    }
}

/// Every action of every resource definition, each once, in order of first appearance.
pub open spec fn all_actions(defs: Seq<ResourceDefinition>) -> Seq<Seq<char>>
    decreases defs.len(),
{
    if defs.len() == 0 {
        Seq::empty()
    } else {
        add_new(all_actions(defs.drop_last()), defs.last().actions.deep_view())
    }
}

/// The grant schema, whose action names are `actions`.
pub open spec fn grant_schema(actions: Seq<Seq<char>>) -> JsonView {
    obj(
        seq![
            ("title"@, txt("Grant")),
            ("description"@, JsonView::Str(GRANT_DESCRIPTION@)),
            ("type"@, txt("object")),
            ("additionalProperties"@, JsonView::Bool(false)),
            (
                "required"@,
                JsonView::Array(
                    seq![
                        txt("effect"),
                        txt("actions"),
                        txt("query"),
                        txt("query_validation"),
                        txt("equality"),
                        txt("data"),
                        txt("context_schema"),
                        txt("context_validation"),
                    ],
                ),
            ),
            ("properties"@, grant_properties(actions)),
        ],
    )
}

pub open spec fn effect_property() -> JsonView {
    obj(
        seq![
            ("type"@, txt("string")),
            ("enum"@, JsonView::Array(seq![txt("allow"), txt("deny")])),
            ("description"@, JsonView::Str(EFFECT_DESCRIPTION@)),
        ],
    )
}

pub open spec fn actions_property(actions: Seq<Seq<char>>) -> JsonView {
    obj(
        seq![
            ("type"@, txt("array")),
            ("uniqueItems"@, JsonView::Bool(true)),
            ("items"@, obj(seq![("type"@, txt("string")), ("enum"@, texts_view(actions))])),
            ("description"@, JsonView::Str(ACTIONS_DESCRIPTION@)),
        ],
    )
}

pub open spec fn query_property() -> JsonView {
    obj(seq![("type"@, txt("string")), ("description"@, JsonView::Str(QUERY_DESCRIPTION@))])
}

pub open spec fn query_validation_property() -> JsonView {
    obj(
        seq![
            ("type"@, txt("string")),
            ("title"@, txt("Grant-Level Query Validation Setting")),
            ("description"@, JsonView::Str(QUERY_VALIDATION_DESCRIPTION@)),
            ("enum"@, JsonView::Array(seq![txt("validate"), txt("error"), txt("critical")])),
        ],
    )
}

pub open spec fn context_validation_property() -> JsonView {
    obj(
        seq![
            ("type"@, txt("string")),
            ("title"@, txt("Grant-Level Context Validation")),
            ("description"@, JsonView::Str(CONTEXT_VALIDATION_DESCRIPTION@)),
            (
                "enum"@,
                JsonView::Array(seq![txt("none"), txt("validate"), txt("error"), txt("critical")]),
            ),
        ],
    )
}

/// The properties of the grant schema.
pub open spec fn grant_properties(actions: Seq<Seq<char>>) -> JsonView {
    obj(
        seq![
            ("effect"@, effect_property()),
            ("actions"@, actions_property(actions)),
            ("query"@, query_property()),
            ("query_validation"@, query_validation_property()),
            ("equality"@, obj(seq![("description"@, JsonView::Str(EQUALITY_DESCRIPTION@))])),
            (
                "data"@,
                obj(seq![("type"@, txt("object")), ("description"@, JsonView::Str(DATA_DESCRIPTION@))]),
            ),
            ("context_schema"@, obj(seq![("$schema"@, JsonView::Str(SCHEMA_DIALECT@))])),
            ("context_validation"@, context_validation_property()),
        ],
    )
}

/// The schema of the workflow errors.
pub open spec fn errors_schema() -> JsonView {
    let array = obj(seq![("type"@, txt("array"))]);
    obj(
        seq![
            ("title"@, txt("Workflow Errors")),
            ("description"@, txt("Errors returned from Authzee workflows.")),
            ("type"@, txt("object")),
            ("additionalProperties"@, JsonView::Bool(false)),
            (
                "required"@,
                JsonView::Array(
                    seq![txt("context"), txt("definition"), txt("grant"), txt("jmespath"), txt("request")],
                ),
            ),
            (
                "properties"@,
                obj(
                    seq![
                        ("context"@, array),
                        ("definition"@, array),
                        ("grant"@, array),
                        ("jmespath"@, array),
                        ("request"@, array),
                    ],
                ),
            ),
        ],
    )
}

fn effect_property_json() -> (r: Json)
    ensures
        r@ == effect_property(),
{
    let values = vec![Json::text("allow"), Json::text("deny")];
    let ghost values_view = items_view(values@);
    let members = vec![
        entry("type", Json::text("string")),
        entry("enum", Json::array(values)),
        entry("description", Json::text(EFFECT_DESCRIPTION)),
    ];
    let r = Json::object(members);
    proof {
        let expected = effect_property()->Object_0;
        assert(values_view =~= expected[1].1->Array_0);
        assert(members_view(members@) =~= expected);
    }
    r
}

fn actions_property_json(actions: &Vec<String>) -> (r: Json)
    ensures
        r@ == actions_property(actions.deep_view()),
{
    let items = vec![entry("type", Json::text("string")), entry("enum", Json::texts(actions))];
    let ghost items_members = members_view(items@);
    let members = vec![
        entry("type", Json::text("array")),
        entry("uniqueItems", Json::Bool(true)),
        entry("items", Json::object(items)),
        entry("description", Json::text(ACTIONS_DESCRIPTION)),
    ];
    let r = Json::object(members);
    proof {
        let expected = actions_property(actions.deep_view())->Object_0;
        assert(items_members =~= expected[2].1->Object_0);
        assert(members_view(members@) =~= expected);
    }
    r
}

fn query_property_json() -> (r: Json)
    ensures
        r@ == query_property(),
{
    let members = vec![
        entry("type", Json::text("string")),
        entry("description", Json::text(QUERY_DESCRIPTION)),
    ];
    let r = Json::object(members);
    assert(members_view(members@) =~= query_property()->Object_0);
    r
}

fn query_validation_property_json() -> (r: Json)
    ensures
        r@ == query_validation_property(),
{
    let values = vec![Json::text("validate"), Json::text("error"), Json::text("critical")];
    let ghost values_view = items_view(values@);
    let members = vec![
        entry("type", Json::text("string")),
        entry("title", Json::text("Grant-Level Query Validation Setting")),
        entry("description", Json::text(QUERY_VALIDATION_DESCRIPTION)),
        entry("enum", Json::array(values)),
    ];
    let r = Json::object(members);
    proof {
        let expected = query_validation_property()->Object_0;
        assert(values_view =~= expected[3].1->Array_0);
        assert(members_view(members@) =~= expected);
    }
    r
}

fn context_validation_property_json() -> (r: Json)
    ensures
        r@ == context_validation_property(),
{
    let values = vec![
        Json::text("none"),
        Json::text("validate"),
        Json::text("error"),
        Json::text("critical"),
    ];
    let ghost values_view = items_view(values@);
    let members = vec![
        entry("type", Json::text("string")),
        entry("title", Json::text("Grant-Level Context Validation")),
        entry("description", Json::text(CONTEXT_VALIDATION_DESCRIPTION)),
        entry("enum", Json::array(values)),
    ];
    let r = Json::object(members);
    proof {
        let expected = context_validation_property()->Object_0;
        assert(values_view =~= expected[3].1->Array_0);
        assert(members_view(members@) =~= expected);
    }
    r
}

/// A one-member object.
fn single(key: &str, value: Json) -> (r: Json)
    ensures
        r@ == obj(seq![(key@, value@)]),
{
    let members = vec![entry(key, value)];
    let r = Json::object(members);
    assert(members_view(members@) =~= seq![(key@, value@)]);
    r
}

/// A two-member object.
fn pair(key1: &str, value1: Json, key2: &str, value2: Json) -> (r: Json)
    ensures
        r@ == obj(seq![(key1@, value1@), (key2@, value2@)]),
{
    let members = vec![entry(key1, value1), entry(key2, value2)];
    let r = Json::object(members);
    assert(members_view(members@) =~= seq![(key1@, value1@), (key2@, value2@)]);
    r
}

/// The grant schema, whose action names are `actions`.
pub fn grant_schema_json(actions: &Vec<String>) -> (r: Json)
    ensures
        r@ == grant_schema(actions.deep_view()),
{
    let properties = vec![
        entry("effect", effect_property_json()),
        entry("actions", actions_property_json(actions)),
        entry("query", query_property_json()),
        entry("query_validation", query_validation_property_json()),
        entry("equality", single("description", Json::text(EQUALITY_DESCRIPTION))),
        entry("data", pair("type", Json::text("object"), "description", Json::text(DATA_DESCRIPTION))),
        entry("context_schema", single("$schema", Json::text(SCHEMA_DIALECT))),
        entry("context_validation", context_validation_property_json()),
    ];
    let ghost properties_view = members_view(properties@);
    let required = vec![
        Json::text("effect"),
        Json::text("actions"),
        Json::text("query"),
        Json::text("query_validation"),
        Json::text("equality"),
        Json::text("data"),
        Json::text("context_schema"),
        Json::text("context_validation"),
    ];
    let ghost required_view = items_view(required@);
    let members = vec![
        entry("title", Json::text("Grant")),
        entry("description", Json::text(GRANT_DESCRIPTION)),
        entry("type", Json::text("object")),
        entry("additionalProperties", Json::Bool(false)),
        entry("required", Json::array(required)),
        entry("properties", Json::object(properties)),
    ];
    let r = Json::object(members);
    proof {
        let expected = grant_schema(actions.deep_view())->Object_0;
        assert(required_view =~= expected[4].1->Array_0);
        assert(properties_view =~= grant_properties(actions.deep_view())->Object_0);
        assert(members_view(members@) =~= expected);
    }
    r
}

/// The schema of the workflow errors.
pub fn errors_schema_json() -> (r: Json)
    ensures
        r@ == errors_schema(),
{
    let properties = vec![
        entry("context", single("type", Json::text("array"))),
        entry("definition", single("type", Json::text("array"))),
        entry("grant", single("type", Json::text("array"))),
        entry("jmespath", single("type", Json::text("array"))),
        entry("request", single("type", Json::text("array"))),
    ];
    let ghost properties_view = members_view(properties@);
    let required = vec![
        Json::text("context"),
        Json::text("definition"),
        Json::text("grant"),
        Json::text("jmespath"),
        Json::text("request"),
    ];
    let ghost required_view = items_view(required@);
    let members = vec![
        entry("title", Json::text("Workflow Errors")),
        entry("description", Json::text("Errors returned from Authzee workflows.")),
        entry("type", Json::text("object")),
        entry("additionalProperties", Json::Bool(false)),
        entry("required", Json::array(required)),
        entry("properties", Json::object(properties)),
    ];
    let r = Json::object(members);
    proof {
        let expected = errors_schema()->Object_0;
        assert(required_view =~= expected[4].1->Array_0);
        assert(properties_view =~= expected[5].1->Object_0);
        assert(members_view(members@) =~= expected);
    }
    r
}

/// The type names of `defs`, in order.
pub open spec fn identity_names(defs: Seq<IdentityDefinition>) -> Seq<Seq<char>> {
    defs.map_values(|d: IdentityDefinition| d.identity_type@)
}

/// The schema of an array whose items follow `items`.
pub open spec fn array_of(items: JsonView) -> JsonView {
    obj(seq![("type"@, txt("array")), ("items"@, items)])
}

/// A pointer (`$ref`) to the shared definition `name` of the request schema.
pub open spec fn def_ref(name: Seq<char>) -> JsonView {
    obj(seq![("$ref"@, JsonView::Str("#/$defs/"@ + name))])
}

/// The schema of a request's identities: one array for each identity type,
/// every one of them required.
pub open spec fn identities_schema(defs: Seq<IdentityDefinition>) -> JsonView {
    obj(
        seq![
            ("type"@, txt("object")),
            ("additionalProperties"@, JsonView::Bool(false)),
            ("required"@, texts_view(identity_names(defs))),
            (
                "properties"@,
                obj(
                    defs.map_values(
                        |d: IdentityDefinition| (d.identity_type@, array_of(d.schema@)),
                    ),
                ),
            ),
        ],
    )
}

/// The schema of a request's parents or children: exactly the keys `types`,
/// each an array of instances of that resource type.
pub open spec fn related_schema(types: Seq<Seq<char>>) -> JsonView {
    obj(
        seq![
            ("type"@, txt("object")),
            ("additionalProperties"@, JsonView::Bool(false)),
            ("required"@, texts_view(types)),
            ("properties"@, obj(types.map_values(|t: Seq<char>| (t, array_of(def_ref(t)))))),
        ],
    )
}

/// The properties of a request about a resource of type `d`.
pub open spec fn variant_properties(d: ResourceDefinition) -> JsonView {
    obj(
        seq![
            ("identities"@, def_ref("identities"@)),
            (
                "action"@,
                obj(seq![("type"@, txt("string")), ("enum"@, texts_view(d.actions.deep_view()))]),
            ),
            ("resource_type"@, obj(seq![("const"@, JsonView::Str(d.resource_type@))])),
            ("resource"@, def_ref(d.resource_type@)),
            ("parents"@, related_schema(d.parent_types.deep_view())),
            ("children"@, related_schema(d.child_types.deep_view())),
            ("query_validation"@, def_ref("query_validation"@)),
            ("context"@, def_ref("context"@)),
            ("context_validation"@, def_ref("context_validation"@)),
        ],
    )
}

/// The names every request must give.
pub open spec fn request_fields() -> JsonView {
    JsonView::Array(
        seq![
            txt("identities"),
            txt("resource_type"),
            txt("action"),
            txt("resource"),
            txt("parents"),
            txt("children"),
            txt("query_validation"),
            txt("context"),
            txt("context_validation"),
        ],
    )
}

/// The schema of a request about a resource of type `d`.
pub open spec fn variant_schema(d: ResourceDefinition) -> JsonView {
    obj(
        seq![
            ("title"@, JsonView::Str("'"@ + d.resource_type@ + "' Resource Type Workflow Request"@)),
            (
                "description"@,
                JsonView::Str(
                    "'"@ + d.resource_type@ + "' resource type request for an Authzee workflow."@,
                ),
            ),
            ("type"@, txt("object")),
            ("additionalProperties"@, JsonView::Bool(false)),
            ("required"@, request_fields()),
            ("properties"@, variant_properties(d)),
        ],
    )
}

/// The shared definitions of the request schema that do not depend on resources.
pub open spec fn fixed_defs(ids: Seq<IdentityDefinition>) -> Seq<(Seq<char>, JsonView)> {
    seq![
        ("identities"@, identities_schema(ids)),
        (
            "query_validation"@,
            obj(
                seq![
                    ("type"@, txt("string")),
                    (
                        "enum"@,
                        JsonView::Array(
                            seq![txt("grant"), txt("validate"), txt("error"), txt("critical")],
                        ),
                    ),
                ],
            ),
        ),
        (
            "context"@,
            obj(
                seq![
                    ("type"@, txt("object")),
                    ("patternProperties"@, obj(seq![("^[a-zA-Z0-9_]{1,256}$"@, obj(Seq::empty()))])),
                ],
            ),
        ),
        (
            "context_validation"@,
            obj(
                seq![
                    ("type"@, txt("string")),
                    (
                        "enum"@,
                        JsonView::Array(
                            seq![
                                txt("grant"),
                                txt("none"),
                                txt("validate"),
                                txt("error"),
                                txt("critical"),
                            ],
                        ),
                    ),
                ],
            ),
        ),
    ]
}

/// The request schema: any of the per-resource-type variants, with shared
/// definitions for identities, levels, context and each resource type.
pub open spec fn request_schema(
    ids: Seq<IdentityDefinition>,
    resources: Seq<ResourceDefinition>,
) -> JsonView {
    obj(
        seq![
            ("title"@, txt("Workflow Request")),
            ("description"@, txt("Request for an Authzee workflow.")),
            ("anyOf"@, JsonView::Array(resources.map_values(|d: ResourceDefinition| variant_schema(d)))),
            (
                "$defs"@,
                obj(
                    fixed_defs(ids) + resources.map_values(
                        |d: ResourceDefinition| (d.resource_type@, d.schema@),
                    ),
                ),
            ),
        ],
    )
}

fn array_of_json(items: Json) -> (r: Json)
    ensures
        r@ == array_of(items@),
{
    pair("type", Json::text("array"), "items", items)
}

fn def_ref_json(name: &str) -> (r: Json)
    ensures
        r@ == def_ref(name@),
{
    single("$ref", Json::Str(two_parts("#/$defs/", name)))
}

/// The type names of `defs`, in order.
fn collect_identity_names(defs: &[IdentityDefinition]) -> (r: Vec<String>)
    ensures
        r.deep_view() == identity_names(defs@),
{
    let mut out: Vec<String> = Vec::new();
    for i in 0..defs.len()
        invariant
            out.deep_view() == identity_names(defs@.take(i as int)),
    {
        let ghost prev = out.deep_view();
        out.push(defs[i].identity_type.clone());
        assert(out.deep_view() =~= prev.push(defs@[i as int].identity_type@));
        assert(defs@.take(i + 1) =~= defs@.take(i as int).push(defs@[i as int]));
        assert(out.deep_view() =~= identity_names(defs@.take(i + 1)));
    }
    assert(defs@.take(defs.len() as int) =~= defs@);
    out
}

fn identities_schema_json(defs: &[IdentityDefinition]) -> (r: Json)
    ensures
        r@ == identities_schema(defs@),
{
    let names = collect_identity_names(defs);
    let mut properties: Vec<Member> = Vec::new();
    for i in 0..defs.len()
        invariant
            members_view(properties@) == defs@.take(i as int).map_values(
                |d: IdentityDefinition| (d.identity_type@, array_of(d.schema@)),
            ),
    {
        let value = array_of_json(defs[i].schema.clone());
        let ghost prev = members_view(properties@);
        properties.push(Member { key: defs[i].identity_type.clone(), value });
        assert(members_view(properties@) =~= prev.push(
            (defs@[i as int].identity_type@, array_of(defs@[i as int].schema@)),
        ));
        assert(defs@.take(i + 1) =~= defs@.take(i as int).push(defs@[i as int]));
        assert(members_view(properties@) =~= defs@.take(i + 1).map_values(
            |d: IdentityDefinition| (d.identity_type@, array_of(d.schema@)),
        ));
    }
    assert(defs@.take(defs.len() as int) =~= defs@);
    let ghost properties_view = members_view(properties@);
    let members = vec![
        entry("type", Json::text("object")),
        entry("additionalProperties", Json::Bool(false)),
        entry("required", Json::texts(&names)),
        entry("properties", Json::object(properties)),
    ];
    let r = Json::object(members);
    proof {
        let expected = identities_schema(defs@)->Object_0;
        assert(properties_view =~= expected[3].1->Object_0);
        assert(members_view(members@) =~= expected);
    }
    r
}

fn related_schema_json(types: &Vec<String>) -> (r: Json)
    ensures
        r@ == related_schema(types.deep_view()),
{
    let mut properties: Vec<Member> = Vec::new();
    for i in 0..types.len()
        invariant
            members_view(properties@) == types.deep_view().take(i as int).map_values(
                |t: Seq<char>| (t, array_of(def_ref(t))),
            ),
    {
        let value = array_of_json(def_ref_json(types[i].as_str()));
        let ghost prev = members_view(properties@);
        properties.push(Member { key: types[i].clone(), value });
        let ghost t = types@[i as int]@;
        assert(members_view(properties@) =~= prev.push((t, array_of(def_ref(t)))));
        assert(types.deep_view().take(i + 1) =~= types.deep_view().take(i as int).push(t));
        assert(members_view(properties@) =~= types.deep_view().take(i + 1).map_values(
            |t: Seq<char>| (t, array_of(def_ref(t))),
        ));
    }
    assert(types.deep_view().take(types.len() as int) =~= types.deep_view());
    let ghost properties_view = members_view(properties@);
    let members = vec![
        entry("type", Json::text("object")),
        entry("additionalProperties", Json::Bool(false)),
        entry("required", Json::texts(types)),
        entry("properties", Json::object(properties)),
    ];
    let r = Json::object(members);
    proof {
        let expected = related_schema(types.deep_view())->Object_0;
        assert(properties_view =~= expected[3].1->Object_0);
        assert(members_view(members@) =~= expected);
    }
    r
}

fn variant_properties_json(d: &ResourceDefinition) -> (r: Json)
    ensures
        r@ == variant_properties(*d),
{
    let members = vec![
        entry("identities", def_ref_json("identities")),
        entry("action", pair("type", Json::text("string"), "enum", Json::texts(&d.actions))),
        entry("resource_type", single("const", Json::Str(d.resource_type.clone()))),
        entry("resource", def_ref_json(d.resource_type.as_str())),
        entry("parents", related_schema_json(&d.parent_types)),
        entry("children", related_schema_json(&d.child_types)),
        entry("query_validation", def_ref_json("query_validation")),
        entry("context", def_ref_json("context")),
        entry("context_validation", def_ref_json("context_validation")),
    ];
    let r = Json::object(members);
    assert(members_view(members@) =~= variant_properties(*d)->Object_0);
    r
}

fn request_fields_json() -> (r: Json)
    ensures
        r@ == request_fields(),
{
    let items = vec![
        Json::text("identities"),
        Json::text("resource_type"),
        Json::text("action"),
        Json::text("resource"),
        Json::text("parents"),
        Json::text("children"),
        Json::text("query_validation"),
        Json::text("context"),
        Json::text("context_validation"),
    ];
    let r = Json::array(items);
    assert(items_view(items@) =~= request_fields()->Array_0);
    r
}

fn variant_schema_json(d: &ResourceDefinition) -> (r: Json)
    ensures
        r@ == variant_schema(*d),
{
    let name = d.resource_type.as_str();
    let members = vec![
        entry("title", Json::Str(three_parts("'", name, "' Resource Type Workflow Request"))),
        entry(
            "description",
            Json::Str(three_parts("'", name, "' resource type request for an Authzee workflow.")),
        ),
        entry("type", Json::text("object")),
        entry("additionalProperties", Json::Bool(false)),
        entry("required", request_fields_json()),
        entry("properties", variant_properties_json(d)),
    ];
    let r = Json::object(members);
    assert(members_view(members@) =~= variant_schema(*d)->Object_0);
    r
}

/// A string enumeration: `{"type": "string", "enum": values}`.
fn string_enum_json(values: Vec<Json>) -> (r: Json)
    ensures
        r@ == obj(seq![("type"@, txt("string")), ("enum"@, JsonView::Array(items_view(values@)))]),
{
    pair("type", Json::text("string"), "enum", Json::array(values))
}

fn fixed_defs_json(ids: &[IdentityDefinition]) -> (r: Vec<Member>)
    ensures
        members_view(r@) == fixed_defs(ids@),
{
    let query_levels = vec![
        Json::text("grant"),
        Json::text("validate"),
        Json::text("error"),
        Json::text("critical"),
    ];
    let ghost query_levels_view = items_view(query_levels@);
    let context_levels = vec![
        Json::text("grant"),
        Json::text("none"),
        Json::text("validate"),
        Json::text("error"),
        Json::text("critical"),
    ];
    let ghost context_levels_view = items_view(context_levels@);
    let empty: Vec<Member> = Vec::new();
    let ghost empty_view = members_view(empty@);
    let context = pair(
        "type",
        Json::text("object"),
        "patternProperties",
        single("^[a-zA-Z0-9_]{1,256}$", Json::object(empty)),
    );
    let r = vec![
        entry("identities", identities_schema_json(ids)),
        entry("query_validation", string_enum_json(query_levels)),
        entry("context", context),
        entry("context_validation", string_enum_json(context_levels)),
    ];
    proof {
        let expected = fixed_defs(ids@);
        assert(query_levels_view =~= expected[1].1->Object_0[1].1->Array_0);
        assert(context_levels_view =~= expected[3].1->Object_0[1].1->Array_0);
        assert(empty_view =~= Seq::<(Seq<char>, JsonView)>::empty());
        assert(members_view(r@) =~= expected);
    }
    r
}

/// The request schema for identity definitions `ids` and resource definitions
/// `resources`.
pub fn request_schema_json(ids: &[IdentityDefinition], resources: &[ResourceDefinition]) -> (r:
    Json)
    ensures
        r@ == request_schema(ids@, resources@),
{
    let mut variants: Vec<Json> = Vec::new();
    let mut defs = fixed_defs_json(ids);
    let ghost fixed = fixed_defs(ids@);
    for i in 0..resources.len()
        invariant
            fixed == fixed_defs(ids@),
            items_view(variants@) == resources@.take(i as int).map_values(
                |d: ResourceDefinition| variant_schema(d),
            ),
            members_view(defs@) == fixed + resources@.take(i as int).map_values(
                |d: ResourceDefinition| (d.resource_type@, d.schema@),
            ),
    {
        let d = &resources[i];
        let ghost prev_variants = items_view(variants@);
        let ghost prev_defs = members_view(defs@);
        variants.push(variant_schema_json(d));
        defs.push(Member { key: d.resource_type.clone(), value: d.schema.clone() });
        assert(items_view(variants@) =~= prev_variants.push(variant_schema(*d)));
        assert(members_view(defs@) =~= prev_defs.push((d.resource_type@, d.schema@)));
        assert(resources@.take(i + 1) =~= resources@.take(i as int).push(*d));
        assert(items_view(variants@) =~= resources@.take(i + 1).map_values(
            |d: ResourceDefinition| variant_schema(d),
        ));
        assert(members_view(defs@) =~= fixed + resources@.take(i + 1).map_values(
            |d: ResourceDefinition| (d.resource_type@, d.schema@),
        ));
    }
    assert(resources@.take(resources.len() as int) =~= resources@);
    let ghost variants_view = items_view(variants@);
    let ghost defs_view = members_view(defs@);
    let members = vec![
        entry("title", Json::text("Workflow Request")),
        entry("description", Json::text("Request for an Authzee workflow.")),
        entry("anyOf", Json::array(variants)),
        entry("$defs", Json::object(defs)),
    ];
    let r = Json::object(members);
    proof {
        let expected = request_schema(ids@, resources@)->Object_0;
        assert(variants_view =~= expected[2].1->Array_0);
        assert(defs_view =~= expected[3].1->Object_0);
        assert(members_view(members@) =~= expected);
    }
    r
}

/// The schema of the audit response.
pub open spec fn audit_schema(grant: JsonView, errors: JsonView) -> JsonView {
    obj(
        seq![
            ("title"@, txt("Audit Response")),
            ("description"@, txt("Response for the audit workflow.")),
            ("type"@, txt("object")),
            ("additionalProperties"@, JsonView::Bool(false)),
            ("required"@, JsonView::Array(seq![txt("grants"), txt("errors")])),
            (
                "properties"@,
                obj(
                    seq![
                        (
                            "completed"@,
                            obj(
                                seq![
                                    ("type"@, txt("boolean")),
                                    ("description"@, txt("The workflow completed.")),
                                ],
                            ),
                        ),
                        (
                            "grants"@,
                            obj(
                                seq![
                                    ("type"@, txt("array")),
                                    ("items"@, grant),
                                    (
                                        "description"@,
                                        txt("List of grants that are applicable to the request."),
                                    ),
                                ],
                            ),
                        ),
                        ("errors"@, errors),
                    ],
                ),
            ),
        ],
    )
}

/// The schema of the authorize response.
pub open spec fn authorize_schema(grant: JsonView, errors: JsonView) -> JsonView {
    obj(
        seq![
            ("title"@, txt("Authorize Response")),
            ("description"@, txt("Response for the authorize workflow.")),
            ("type"@, txt("object")),
            ("additionalProperties"@, JsonView::Bool(false)),
            (
                "required"@,
                JsonView::Array(
                    seq![txt("authorized"), txt("completed"), txt("grant"), txt("message"), txt("errors")],
                ),
            ),
            (
                "properties"@,
                obj(
                    seq![
                        (
                            "authorized"@,
                            obj(
                                seq![
                                    ("type"@, txt("boolean")),
                                    (
                                        "description"@,
                                        txt(
                                            "true if the request is authorized. false if it is not authorized.",
                                        ),
                                    ),
                                ],
                            ),
                        ),
                        (
                            "completed"@,
                            obj(
                                seq![
                                    ("type"@, txt("boolean")),
                                    ("description"@, txt("The workflow completed.")),
                                ],
                            ),
                        ),
                        (
                            "grant"@,
                            obj(
                                seq![
                                    (
                                        "description"@,
                                        txt(
                                            "Grant that was responsible for the authorization decision, if applicable.",
                                        ),
                                    ),
                                    (
                                        "anyOf"@,
                                        JsonView::Array(
                                            seq![grant, obj(seq![("type"@, txt("null"))])],
                                        ),
                                    ),
                                ],
                            ),
                        ),
                        (
                            "message"@,
                            obj(
                                seq![
                                    ("type"@, txt("string")),
                                    (
                                        "description"@,
                                        txt("Details about why the request was authorized or not."),
                                    ),
                                ],
                            ),
                        ),
                        ("errors"@, errors),
                    ],
                ),
            ),
        ],
    )
}

/// Every action of every resource definition, each once, in order of first appearance.
pub fn collect_actions(defs: &[ResourceDefinition]) -> (r: Vec<String>)
    ensures
        r.deep_view() == all_actions(defs@),
{
    let mut out: Vec<String> = Vec::new();
    for i in 0..defs.len()
        invariant
            out.deep_view() == all_actions(defs@.take(i as int)),
    {
        let ghost prefix = defs@.take(i as int);
        let ghost next = defs@.take(i + 1);
        proof {
            assert(next.drop_last() =~= prefix);
            assert(next.last() == defs@[i as int]);
        }
        let actions = &defs[i].actions;
        let ghost base = out.deep_view();
        for j in 0..actions.len()
            invariant
                base == all_actions(prefix),
                out.deep_view() == add_new(base, actions.deep_view().take(j as int)),
        {
            let ghost names = actions.deep_view().take(j + 1);
            let ghost prev = out.deep_view();
            proof {
                assert(names.drop_last() =~= actions.deep_view().take(j as int));
                assert(names.last() == actions@[j as int]@);
            }
            if !contains_name(&out, &actions[j]) {
                out.push(actions[j].clone());
                assert(out.deep_view() =~= prev.push(actions@[j as int]@));
            }
        }
        assert(actions.deep_view().take(actions.len() as int) =~= actions.deep_view());
    }
    assert(defs@.take(defs.len() as int) =~= defs@);
    out
}

fn typed_field(kind: &str, description: &str) -> (r: Json)
    ensures
        r@ == obj(seq![("type"@, JsonView::Str(kind@)), ("description"@, JsonView::Str(description@))]),
{
    pair("type", Json::text(kind), "description", Json::text(description))
}

/// The schema of the audit response, with `grant` and `errors` for the grant
/// and errors schemas.
pub fn audit_schema_json(grant: Json, errors: Json) -> (r: Json)
    ensures
        r@ == audit_schema(grant@, errors@),
{
    let ghost grant_view = grant@;
    let ghost errors_view = errors@;
    let grants = vec![
        entry("type", Json::text("array")),
        entry("items", grant),
        entry("description", Json::text("List of grants that are applicable to the request.")),
    ];
    let ghost grants_view = members_view(grants@);
    let properties = vec![
        entry("completed", typed_field("boolean", "The workflow completed.")),
        entry("grants", Json::object(grants)),
        entry("errors", errors),
    ];
    let ghost properties_view = members_view(properties@);
    let required = vec![Json::text("grants"), Json::text("errors")];
    let ghost required_view = items_view(required@);
    let members = vec![
        entry("title", Json::text("Audit Response")),
        entry("description", Json::text("Response for the audit workflow.")),
        entry("type", Json::text("object")),
        entry("additionalProperties", Json::Bool(false)),
        entry("required", Json::array(required)),
        entry("properties", Json::object(properties)),
    ];
    let r = Json::object(members);
    proof {
        let expected = audit_schema(grant_view, errors_view)->Object_0;
        assert(required_view =~= expected[4].1->Array_0);
        assert(grants_view =~= expected[5].1->Object_0[1].1->Object_0);
        assert(properties_view =~= expected[5].1->Object_0);
        assert(members_view(members@) =~= expected);
    }
    r
}

/// The schema of the authorize response, with `grant` and `errors` for the
/// grant and errors schemas.
pub fn authorize_schema_json(grant: Json, errors: Json) -> (r: Json)
    ensures
        r@ == authorize_schema(grant@, errors@),
{
    let ghost grant_view = grant@;
    let ghost errors_view = errors@;
    let choices = vec![grant, single("type", Json::text("null"))];
    let ghost choices_view = items_view(choices@);
    let grant_field = vec![
        entry(
            "description",
            Json::text("Grant that was responsible for the authorization decision, if applicable."),
        ),
        entry("anyOf", Json::array(choices)),
    ];
    let ghost grant_field_view = members_view(grant_field@);
    let properties = vec![
        entry(
            "authorized",
            typed_field("boolean", "true if the request is authorized. false if it is not authorized."),
        ),
        entry("completed", typed_field("boolean", "The workflow completed.")),
        entry("grant", Json::object(grant_field)),
        entry(
            "message",
            typed_field("string", "Details about why the request was authorized or not."),
        ),
        entry("errors", errors),
    ];
    let ghost properties_view = members_view(properties@);
    let required = vec![
        Json::text("authorized"),
        Json::text("completed"),
        Json::text("grant"),
        Json::text("message"),
        Json::text("errors"),
    ];
    let ghost required_view = items_view(required@);
    let members = vec![
        entry("title", Json::text("Authorize Response")),
        entry("description", Json::text("Response for the authorize workflow.")),
        entry("type", Json::text("object")),
        entry("additionalProperties", Json::Bool(false)),
        entry("required", Json::array(required)),
        entry("properties", Json::object(properties)),
    ];
    let r = Json::object(members);
    proof {
        let expected = authorize_schema(grant_view, errors_view)->Object_0;
        let props = expected[5].1->Object_0;
        assert(required_view =~= expected[4].1->Array_0);
        assert(choices_view =~= props[2].1->Object_0[1].1->Array_0);
        assert(grant_field_view =~= props[2].1->Object_0);
        assert(properties_view =~= props);
        assert(members_view(members@) =~= expected);
    }
    r
}

/// Builds the five schemas from the definitions: the grant schema lists every
/// action of every resource type; the request schema has one variant for each
/// resource definition, in order; the response schemas embed the grant and
/// errors schemas.
pub fn generate_schemas(
    identity_defs: &[IdentityDefinition],
    resource_defs: &[ResourceDefinition],
) -> (r: Schemas)
    ensures
        r.grant@ == grant_schema(all_actions(resource_defs@)),
        r.errors@ == errors_schema(),
        r.request@ == request_schema(identity_defs@, resource_defs@),
        r.audit@ == audit_schema(grant_schema(all_actions(resource_defs@)), errors_schema()),
        r.authorize@ == authorize_schema(grant_schema(all_actions(resource_defs@)), errors_schema()),
{
    let actions = collect_actions(resource_defs);
    let grant = grant_schema_json(&actions);
    let errors = errors_schema_json();
    let request = request_schema_json(identity_defs, resource_defs);
    let audit = audit_schema_json(grant.clone(), errors.clone());
    let authorize = authorize_schema_json(grant.clone(), errors.clone());
    Schemas { grant, errors, request, audit, authorize }
}

} // verus!
