use vstd::prelude::*;

use crate::errors::{DefinitionError, DefinitionErrorView, ValidationResult};
use crate::evaluate::{join, joined, three_parts};
use crate::json::{entry, items_view, members_view, Json, JsonView};
use crate::validator::{schema_passes, validate_against, violations_of};
use crate::model::{
    identity_definition_json, resource_definition_json, DefinitionType, IdentityDefinition,
    ResourceDefinition,
};

verus! {

/// The schema of a type name: a non-empty word of letters, digits and `_`, at
/// most 256 characters long.
pub open spec fn type_name_schema() -> JsonView {
    JsonView::Object(
        seq![
            ("title"@, JsonView::Str("Authzee Type"@)),
            ("description"@, JsonView::Str("A unique name to identity this type."@)),
            ("type"@, JsonView::Str("string"@)),
            ("pattern"@, JsonView::Str("^[A-Za-z0-9_]*$"@)),
            ("minLength"@, JsonView::Number("1"@)),
            ("maxLength"@, JsonView::Number("256"@)),
        ],
    )
}

/// The schema of an embedded schema document.
pub open spec fn embedded_schema() -> JsonView {
    JsonView::Object(seq![("$schema"@, JsonView::Str("https://json-schema.org/draft/2020-12/schema"@))])
}

/// The schema that every identity definition must follow.
pub open spec fn identity_definition_schema() -> JsonView {
    JsonView::Object(
        seq![
            ("title"@, JsonView::Str("Identity Definition"@)),
            (
                "description"@,
                JsonView::Str(
                    "An identity definition. Defines a type of identity to use with Authzee."@,
                ),
            ),
            ("type"@, JsonView::Str("object"@)),
            ("additionalProperties"@, JsonView::Bool(false)),
            (
                "required"@,
                JsonView::Array(seq![JsonView::Str("identity_type"@), JsonView::Str("schema"@)]),
            ),
            (
                "properties"@,
                JsonView::Object(
                    seq![("identity_type"@, type_name_schema()), ("schema"@, embedded_schema())],
                ),
            ),
        ],
    )
}

/// The schema of an array of unique strings, with `description`.
pub open spec fn type_list_schema(description: Seq<char>) -> JsonView {
    JsonView::Object(
        seq![
            ("type"@, JsonView::Str("array"@)),
            ("uniqueItems"@, JsonView::Bool(true)),
            ("items"@, JsonView::Object(seq![("type"@, JsonView::Str("string"@))])),
            ("description"@, JsonView::Str(description)),
        ],
    )
}

/// The schema of a resource's list of actions.
pub open spec fn action_list_schema() -> JsonView {
    JsonView::Object(
        seq![
            ("type"@, JsonView::Str("array"@)),
            ("uniqueItems"@, JsonView::Bool(true)),
            (
                "items"@,
                JsonView::Object(
                    seq![
                        ("title"@, JsonView::Str("Resource Action"@)),
                        (
                            "description"@,
                            JsonView::Str(
                                "Unique name for a resource action. The 'ResourceType:ResourceAction' pattern is common."@,
                            ),
                        ),
                        ("type"@, JsonView::Str("string"@)),
                        ("pattern"@, JsonView::Str("^[A-Za-z0-9_.:-]*$"@)),
                        ("minLength"@, JsonView::Number("1"@)),
                        ("maxLength"@, JsonView::Number("512"@)),
                    ],
                ),
            ),
        ],
    )
}

pub open spec fn parent_types_description() -> Seq<char> {
    "Types that are a parent of this resource. When instances of these types are passed to the request they will be checked against their schemas and against the hierarchy."@
}

pub open spec fn child_types_description() -> Seq<char> {
    "Types that are a child of this resource. When instances of these types are passed to the request they will be checked against their schemas and against the hierarchy."@
}

/// The schema that every resource definition must follow.
pub open spec fn resource_definition_schema() -> JsonView {
    JsonView::Object(
        seq![
            ("title"@, JsonView::Str("Resource Definition"@)),
            (
                "description"@,
                JsonView::Str(
                    "A resource definition. Defines a type of resource to use with Authzee."@,
                ),
            ),
            ("type"@, JsonView::Str("object"@)),
            ("additionalProperties"@, JsonView::Bool(false)),
            (
                "required"@,
                JsonView::Array(
                    seq![
                        JsonView::Str("resource_type"@),
                        JsonView::Str("actions"@),
                        JsonView::Str("schema"@),
                        JsonView::Str("parent_types"@),
                        JsonView::Str("child_types"@),
                    ],
                ),
            ),
            (
                "properties"@,
                JsonView::Object(
                    seq![
                        ("resource_type"@, type_name_schema()),
                        ("actions"@, action_list_schema()),
                        ("schema"@, embedded_schema()),
                        ("parent_types"@, type_list_schema(parent_types_description())),
                        ("child_types"@, type_list_schema(child_types_description())),
                    ],
                ),
            ),
        ],
    )
}

fn type_name_schema_json() -> (r: Json)
    ensures
        r@ == type_name_schema(),
{
    let members = vec![
        entry("title", Json::text("Authzee Type")),
        entry("description", Json::text("A unique name to identity this type.")),
        entry("type", Json::text("string")),
        entry("pattern", Json::text("^[A-Za-z0-9_]*$")),
        entry("minLength", Json::number("1")),
        entry("maxLength", Json::number("256")),
    ];
    let r = Json::object(members);
    assert(members_view(members@) =~= type_name_schema()->Object_0);
    r
}

fn embedded_schema_json() -> (r: Json)
    ensures
        r@ == embedded_schema(),
{
    let members = vec![
        entry("$schema", Json::text("https://json-schema.org/draft/2020-12/schema")),
    ];
    let r = Json::object(members);
    assert(members_view(members@) =~= embedded_schema()->Object_0);
    r
}

/// The schema that every identity definition must follow.
pub fn get_identity_definition_schema() -> (r: Json)
    ensures
        r@ == identity_definition_schema(),
{
    let required = vec![Json::text("identity_type"), Json::text("schema")];
    let ghost required_view = items_view(required@);
    let required = Json::array(required);
    let properties = vec![
        entry("identity_type", type_name_schema_json()),
        entry("schema", embedded_schema_json()),
    ];
    let ghost properties_view = members_view(properties@);
    let properties = Json::object(properties);
    let members = vec![
        entry("title", Json::text("Identity Definition")),
        entry(
            "description",
            Json::text("An identity definition. Defines a type of identity to use with Authzee."),
        ),
        entry("type", Json::text("object")),
        entry("additionalProperties", Json::Bool(false)),
        entry("required", required),
        entry("properties", properties),
    ];
    let r = Json::object(members);
    proof {
        let expected = identity_definition_schema()->Object_0;
        assert(required_view =~= expected[4].1->Array_0);
        assert(properties_view =~= expected[5].1->Object_0);
        assert(members_view(members@) =~= expected);
    }
    r
}

fn type_list_schema_json(description: &str) -> (r: Json)
    ensures
        r@ == type_list_schema(description@),
{
    let items = vec![entry("type", Json::text("string"))];
    let ghost items_view = members_view(items@);
    let members = vec![
        entry("type", Json::text("array")),
        entry("uniqueItems", Json::Bool(true)),
        entry("items", Json::object(items)),
        entry("description", Json::text(description)),
    ];
    let r = Json::object(members);
    proof {
        let expected = type_list_schema(description@)->Object_0;
        assert(items_view =~= expected[2].1->Object_0);
        assert(members_view(members@) =~= expected);
    }
    r
}

fn action_list_schema_json() -> (r: Json)
    ensures
        r@ == action_list_schema(),
{
    let items = vec![
        entry("title", Json::text("Resource Action")),
        entry(
            "description",
            Json::text(
                "Unique name for a resource action. The 'ResourceType:ResourceAction' pattern is common.",
            ),
        ),
        entry("type", Json::text("string")),
        entry("pattern", Json::text("^[A-Za-z0-9_.:-]*$")),
        entry("minLength", Json::number("1")),
        entry("maxLength", Json::number("512")),
    ];
    let ghost items_view = members_view(items@);
    let members = vec![
        entry("type", Json::text("array")),
        entry("uniqueItems", Json::Bool(true)),
        entry("items", Json::object(items)),
    ];
    let r = Json::object(members);
    proof {
        let expected = action_list_schema()->Object_0;
        assert(items_view =~= expected[2].1->Object_0);
        assert(members_view(members@) =~= expected);
    }
    r
}

/// The schema that every resource definition must follow.
pub fn get_resource_definition_schema() -> (r: Json)
    ensures
        r@ == resource_definition_schema(),
{
    let required = vec![
        Json::text("resource_type"),
        Json::text("actions"),
        Json::text("schema"),
        Json::text("parent_types"),
        Json::text("child_types"),
    ];
    let ghost required_view = items_view(required@);
    let required = Json::array(required);
    let properties = vec![
        entry("resource_type", type_name_schema_json()),
        entry("actions", action_list_schema_json()),
        entry("schema", embedded_schema_json()),
        entry(
            "parent_types",
            type_list_schema_json(
                "Types that are a parent of this resource. When instances of these types are passed to the request they will be checked against their schemas and against the hierarchy.",
            ),
        ),
        entry(
            "child_types",
            type_list_schema_json(
                "Types that are a child of this resource. When instances of these types are passed to the request they will be checked against their schemas and against the hierarchy.",
            ),
        ),
    ];
    let ghost properties_view = members_view(properties@);
    let properties = Json::object(properties);
    let members = vec![
        entry("title", Json::text("Resource Definition")),
        entry(
            "description",
            Json::text("A resource definition. Defines a type of resource to use with Authzee."),
        ),
        entry("type", Json::text("object")),
        entry("additionalProperties", Json::Bool(false)),
        entry("required", required),
        entry("properties", properties),
    ];
    let r = Json::object(members);
    proof {
        let expected = resource_definition_schema()->Object_0;
        assert(required_view =~= expected[4].1->Array_0);
        assert(properties_view =~= expected[5].1->Object_0);
        assert(members_view(members@) =~= expected);
    }
    r
}

/// How a definition that fails the identity definition schema is reported.
pub const IDENTITY_SCHEMA_ERROR: &'static str = "Identity definition schema was not valid. Schema Error: ";

/// How a definition that fails the resource definition schema is reported.
pub const RESOURCE_SCHEMA_ERROR: &'static str = "Resource definition was not valid. Schema Error: ";

/// What a definition error reports.
pub enum Issue {
    /// The definition does not follow its schema.
    SchemaInvalid,
    /// An earlier valid definition already has this type name.
    Duplicate(Seq<char>),
    /// This parent type names no declared resource type.
    MissingParent(Seq<char>),
    /// This child type names no declared resource type.
    MissingChild(Seq<char>),
}

/// One expected definition error: what it reports and about which definition.
pub struct IssueView {
    pub issue: Issue,
    pub definition_type: DefinitionType,
    pub definition: JsonView,
}

pub open spec fn identity_passes(d: IdentityDefinition) -> bool {
    schema_passes(identity_definition_schema(), identity_definition_json(d))
}

pub open spec fn resource_passes(d: ResourceDefinition) -> bool {
    schema_passes(resource_definition_schema(), resource_definition_json(d))
}

/// The type names of the identity definitions that follow their schema, each
/// once, in order.
pub open spec fn accepted_identity_names(defs: Seq<IdentityDefinition>) -> Seq<Seq<char>>
    decreases defs.len(),
{
    if defs.len() == 0 {
        Seq::empty()
    } else {
        let prev = accepted_identity_names(defs.drop_last());
        let d = defs.last();
        if identity_passes(d) && !prev.contains(d.identity_type@) {
            prev.push(d.identity_type@)
        } else {
            prev
        }
    }
}

/// The type names of the resource definitions that follow their schema, each
/// once, in order.
pub open spec fn accepted_resource_names(defs: Seq<ResourceDefinition>) -> Seq<Seq<char>>
    decreases defs.len(),
{
    if defs.len() == 0 {
        Seq::empty()
    } else {
        let prev = accepted_resource_names(defs.drop_last());
        let d = defs.last();
        if resource_passes(d) && !prev.contains(d.resource_type@) {
            prev.push(d.resource_type@)
        } else {
            prev
        }
    }
}

/// The errors about identity definitions, in order: one for each definition
/// that fails its schema, else for each that repeats an earlier valid type name.
pub open spec fn identity_issues(defs: Seq<IdentityDefinition>) -> Seq<IssueView>
    decreases defs.len(),
{
    if defs.len() == 0 {
        Seq::empty()
    } else {
        let prev = identity_issues(defs.drop_last());
        let d = defs.last();
        let definition = identity_definition_json(d);
        if !identity_passes(d) {
            prev.push(
                IssueView {
                    issue: Issue::SchemaInvalid,
                    definition_type: DefinitionType::Identity,
                    definition,
                },
            )
        } else if accepted_identity_names(defs.drop_last()).contains(d.identity_type@) {
            prev.push(
                IssueView {
                    issue: Issue::Duplicate(d.identity_type@),
                    definition_type: DefinitionType::Identity,
                    definition,
                },
            )
        } else {
            prev
        }
    }
}

/// The errors about resource definitions themselves, in order, as for identities.
pub open spec fn resource_issues(defs: Seq<ResourceDefinition>) -> Seq<IssueView>
    decreases defs.len(),
{
    if defs.len() == 0 {
        Seq::empty()
    } else {
        let prev = resource_issues(defs.drop_last());
        let d = defs.last();
        let definition = resource_definition_json(d);
        if !resource_passes(d) {
            prev.push(
                IssueView {
                    issue: Issue::SchemaInvalid,
                    definition_type: DefinitionType::Resource,
                    definition,
                },
            )
        } else if accepted_resource_names(defs.drop_last()).contains(d.resource_type@) {
            prev.push(
                IssueView {
                    issue: Issue::Duplicate(d.resource_type@),
                    definition_type: DefinitionType::Resource,
                    definition,
                },
            )
        } else {
            prev
        }
    }
}

/// One error for each of `names` missing from `known`, in order.
pub open spec fn unknown_types(
    names: Seq<Seq<char>>,
    known: Seq<Seq<char>>,
    parent: bool,
    definition: JsonView,
) -> Seq<IssueView>
    decreases names.len(),
{
    if names.len() == 0 {
        Seq::empty()
    } else {
        let prev = unknown_types(names.drop_last(), known, parent, definition);
        let name = names.last();
        if known.contains(name) {
            prev
        } else {
            prev.push(
                IssueView {
                    issue: if parent {
                        Issue::MissingParent(name)
                    } else {
                        Issue::MissingChild(name)
                    },
                    definition_type: DefinitionType::Resource,
                    definition,
                },
            )
        }
    }
}

/// The errors about parent and child types of one resource definition.
pub open spec fn definition_links(d: ResourceDefinition, known: Seq<Seq<char>>) -> Seq<
    IssueView,
> {
    let definition = resource_definition_json(d);
    unknown_types(d.parent_types.deep_view(), known, true, definition) + unknown_types(
        d.child_types.deep_view(),
        known,
        false,
        definition,
    )
}

/// The errors about parent and child types of every resource definition, in order.
pub open spec fn link_issues(defs: Seq<ResourceDefinition>, known: Seq<Seq<char>>) -> Seq<
    IssueView,
>
    decreases defs.len(),
{
    if defs.len() == 0 {
        Seq::empty()
    } else {
        link_issues(defs.drop_last(), known) + definition_links(defs.last(), known)
    }
}

/// The type names of every resource definition, valid or not, in order.
pub open spec fn declared_resource_names(defs: Seq<ResourceDefinition>) -> Seq<Seq<char>> {
    defs.map_values(|d: ResourceDefinition| d.resource_type@)
}

/// Every error that checking the definitions reports, in order.
pub open spec fn definition_issues(
    identity_defs: Seq<IdentityDefinition>,
    resource_defs: Seq<ResourceDefinition>,
) -> Seq<IssueView> {
    identity_issues(identity_defs) + resource_issues(resource_defs) + link_issues(
        resource_defs,
        declared_resource_names(resource_defs),
    )
}

/// `message` is the text of an error reporting `i`.
pub open spec fn issue_message(i: IssueView, message: Seq<char>) -> bool {
    match i.issue {
        Issue::SchemaInvalid => if i.definition_type == DefinitionType::Identity {
            message == IDENTITY_SCHEMA_ERROR@ + joined(
                violations_of(identity_definition_schema(), i.definition),
                ", "@,
            )
        } else {
            message == RESOURCE_SCHEMA_ERROR@ + joined(
                violations_of(resource_definition_schema(), i.definition),
                ", "@,
            )
        },
        Issue::Duplicate(name) => message == (if i.definition_type == DefinitionType::Identity {
            "Identity types must be unique. '"@
        } else {
            "Resource types must be unique. '"@
        }) + name + "' is present more than once."@,
        Issue::MissingParent(name) => message == "Parent type '"@ + name
            + "' does not have a corresponding resource definition."@,
        Issue::MissingChild(name) => message == "Child type '"@ + name
            + "' does not have a corresponding resource definition."@,
    }
}

/// `e` is a critical error reporting `i`.
pub open spec fn describes(e: DefinitionErrorView, i: IssueView) -> bool {
    &&& e.critical
    &&& e.definition_type == i.definition_type
    &&& e.definition == i.definition
    &&& issue_message(i, e.message)
}

/// `errors` report `issues`, one for one and in order.
pub open spec fn reports(errors: Seq<DefinitionErrorView>, issues: Seq<IssueView>) -> bool {
    &&& errors.len() == issues.len()
    &&& forall|k: int| 0 <= k < issues.len() ==> describes(#[trigger] errors[k], issues[k])
}

proof fn lemma_reports_push(
    errors: Seq<DefinitionErrorView>,
    issues: Seq<IssueView>,
    e: DefinitionErrorView,
    i: IssueView,
)
    requires
        reports(errors, issues),
        describes(e, i),
    ensures
        reports(errors.push(e), issues.push(i)),
{
    assert forall|k: int| 0 <= k < issues.len() + 1 implies describes(
        #[trigger] errors.push(e)[k],
        issues.push(i)[k],
    ) by {
        if k < issues.len() {
            assert(errors.push(e)[k] == errors[k]);
        }
    }
}

/// Whether `names` holds `name`.
pub fn contains_name(names: &Vec<String>, name: &String) -> (r: bool)
    ensures
        r == names.deep_view().contains(name@),
{
    for i in 0..names.len()
        invariant
            forall|k: int| 0 <= k < i ==> names.deep_view()[k] != name@,
    {
        if names[i] == *name {
            assert(names.deep_view()[i as int] == name@);
            return true;
        }
    }
    false
}

/// A critical definition error.
fn definition_error(message: String, definition_type: DefinitionType, definition: Json) -> (r:
    DefinitionError)
    ensures
        r@.message == message@,
        r@.critical,
        r@.definition_type == definition_type,
        r@.definition == definition@,
{
    DefinitionError { message, critical: true, definition_type, definition }
}

/// The error for a definition that fails its schema, with the validator's
/// `violations`.
fn schema_error(prefix: &str, violations: &Vec<String>, definition_type: DefinitionType, definition: Json) -> (r:
    DefinitionError)
    ensures
        r@.message == prefix@ + joined(violations.deep_view(), ", "@),
        r@.critical,
        r@.definition_type == definition_type,
        r@.definition == definition@,
{
    let mut message = prefix.to_string();
    let details = join(violations, ", ");
    message.append(details.as_str());
    definition_error(message, definition_type, definition)
}

/// The type names of every resource definition, in order.
fn collect_resource_types(defs: &[ResourceDefinition]) -> (r: Vec<String>)
    ensures
        r.deep_view() == declared_resource_names(defs@),
{
    let mut out: Vec<String> = Vec::new();
    for i in 0..defs.len()
        invariant
            out.deep_view() == declared_resource_names(defs@.take(i as int)),
    {
        let ghost prev = out.deep_view();
        out.push(defs[i].resource_type.clone());
        assert(out.deep_view() =~= prev.push(defs@[i as int].resource_type@));
        assert(defs@.take(i + 1) =~= defs@.take(i as int).push(defs@[i as int]));
        assert(out.deep_view() =~= declared_resource_names(defs@.take(i + 1)));
    }
    assert(defs@.take(defs.len() as int) =~= defs@);
    out
}

/// Checks identity and resource definitions, reporting every problem found
/// rather than the first: each definition that fails its schema, else repeats
/// an earlier valid type name; then, for every resource definition, each parent
/// or child type that names no declared resource type, valid or not.
pub fn validate_definitions(
    identity_defs: &[IdentityDefinition],
    resource_defs: &[ResourceDefinition],
) -> (r: ValidationResult)
    ensures
        reports(r.errors.deep_view(), definition_issues(identity_defs@, resource_defs@)),
        r.valid == (definition_issues(identity_defs@, resource_defs@).len() == 0),
{
    let mut errors: Vec<DefinitionError> = Vec::new();
    let mut id_types: Vec<String> = Vec::new();
    let identity_schema = get_identity_definition_schema();
    for i in 0..identity_defs.len()
        invariant
            identity_schema@ == identity_definition_schema(),
            id_types.deep_view() == accepted_identity_names(identity_defs@.take(i as int)),
            reports(errors.deep_view(), identity_issues(identity_defs@.take(i as int))),
    {
        let ghost prefix = identity_defs@.take(i as int);
        let ghost next = identity_defs@.take(i + 1);
        let ghost before = errors.deep_view();
        let ghost issues = identity_issues(prefix);
        proof {
            assert(next.drop_last() =~= prefix);
            assert(next.last() == identity_defs@[i as int]);
        }
        let d = &identity_defs[i];
        let value = d.to_json();
        match validate_against(&identity_schema, &value) {
            Err(violations) => {
                let e = schema_error(IDENTITY_SCHEMA_ERROR, &violations, DefinitionType::Identity, value);
                errors.push(e);
                proof {
                    assert(errors.deep_view() =~= before.push(e@));
                    lemma_reports_push(before, issues, e@, identity_issues(next).last());
                    assert(identity_issues(next) =~= issues.push(identity_issues(next).last()));
                }
            },
            Ok(()) => {
                if contains_name(&id_types, &d.identity_type) {
                    let message = three_parts(
                        "Identity types must be unique. '",
                        d.identity_type.as_str(),
                        "' is present more than once.",
                    );
                    let e = definition_error(message, DefinitionType::Identity, value);
                    errors.push(e);
                    proof {
                        assert(errors.deep_view() =~= before.push(e@));
                        lemma_reports_push(before, issues, e@, identity_issues(next).last());
                        assert(identity_issues(next) =~= issues.push(identity_issues(next).last()));
                    }
                } else {
                    id_types.push(d.identity_type.clone());
                    proof {
                        assert(id_types.deep_view() =~= accepted_identity_names(next));
                    }
                }
            },
        }
    }
    proof {
        assert(identity_defs@.take(identity_defs.len() as int) =~= identity_defs@);
    }
    let ghost identity_part = identity_issues(identity_defs@);
    let mut r_types: Vec<String> = Vec::new();
    let resource_schema = get_resource_definition_schema();
    for i in 0..resource_defs.len()
        invariant
            resource_schema@ == resource_definition_schema(),
            identity_part == identity_issues(identity_defs@),
            r_types.deep_view() == accepted_resource_names(resource_defs@.take(i as int)),
            reports(
                errors.deep_view(),
                identity_part + resource_issues(resource_defs@.take(i as int)),
            ),
    {
        let ghost prefix = resource_defs@.take(i as int);
        let ghost next = resource_defs@.take(i + 1);
        let ghost before = errors.deep_view();
        let ghost issues = identity_part + resource_issues(prefix);
        proof {
            assert(next.drop_last() =~= prefix);
            assert(next.last() == resource_defs@[i as int]);
        }
        let d = &resource_defs[i];
        let value = d.to_json();
        match validate_against(&resource_schema, &value) {
            Err(violations) => {
                let e = schema_error(RESOURCE_SCHEMA_ERROR, &violations, DefinitionType::Resource, value);
                errors.push(e);
                proof {
                    assert(errors.deep_view() =~= before.push(e@));
                    lemma_reports_push(before, issues, e@, resource_issues(next).last());
                    assert(identity_part + resource_issues(next) =~= issues.push(
                        resource_issues(next).last(),
                    ));
                }
            },
            Ok(()) => {
                if contains_name(&r_types, &d.resource_type) {
                    let message = three_parts(
                        "Resource types must be unique. '",
                        d.resource_type.as_str(),
                        "' is present more than once.",
                    );
                    let e = definition_error(message, DefinitionType::Resource, value);
                    errors.push(e);
                    proof {
                        assert(errors.deep_view() =~= before.push(e@));
                        lemma_reports_push(before, issues, e@, resource_issues(next).last());
                        assert(identity_part + resource_issues(next) =~= issues.push(
                            resource_issues(next).last(),
                        ));
                    }
                } else {
                    r_types.push(d.resource_type.clone());
                    proof {
                        assert(r_types.deep_view() =~= accepted_resource_names(next));
                        assert(identity_part + resource_issues(next) =~= issues);
                    }
                }
            },
        }
    }
    proof {
        assert(resource_defs@.take(resource_defs.len() as int) =~= resource_defs@);
    }
    let ghost own_part = identity_part + resource_issues(resource_defs@);
    let all_types = collect_resource_types(resource_defs);
    let ghost known = declared_resource_names(resource_defs@);
    for i in 0..resource_defs.len()
        invariant
            own_part == identity_issues(identity_defs@) + resource_issues(resource_defs@),
            known == declared_resource_names(resource_defs@),
            all_types.deep_view() == known,
            reports(errors.deep_view(), own_part + link_issues(resource_defs@.take(i as int), known)),
    {
        let ghost prefix = resource_defs@.take(i as int);
        let ghost next = resource_defs@.take(i + 1);
        proof {
            assert(next.drop_last() =~= prefix);
            assert(next.last() == resource_defs@[i as int]);
        }
        let d = &resource_defs[i];
        let value = d.to_json();
        let ghost definition = value@;
        let ghost base = own_part + link_issues(prefix, known);
        for j in 0..d.parent_types.len()
            invariant
                value@ == definition,
                definition == resource_definition_json(*d),
                all_types.deep_view() == known,
                reports(
                    errors.deep_view(),
                    base + unknown_types(
                        d.parent_types.deep_view().take(j as int),
                        known,
                        true,
                        definition,
                    ),
                ),
        {
            let ghost names = d.parent_types.deep_view().take(j + 1);
            let ghost before = errors.deep_view();
            let ghost issues = base + unknown_types(
                d.parent_types.deep_view().take(j as int),
                known,
                true,
                definition,
            );
            proof {
                assert(names.drop_last() =~= d.parent_types.deep_view().take(j as int));
                assert(names.last() == d.parent_types@[j as int]@);
            }
            let p_type = &d.parent_types[j];
            if !contains_name(&all_types, p_type) {
                let message = three_parts(
                    "Parent type '",
                    p_type.as_str(),
                    "' does not have a corresponding resource definition.",
                );
                let e = definition_error(message, DefinitionType::Resource, value.clone());
                errors.push(e);
                proof {
                    let m = unknown_types(names, known, true, definition);
                    assert(errors.deep_view() =~= before.push(e@));
                    lemma_reports_push(before, issues, e@, m.last());
                    assert(base + m =~= issues.push(m.last()));
                }
            }
        }
        proof {
            assert(d.parent_types.deep_view().take(d.parent_types.len() as int) =~= d.parent_types.deep_view());
        }
        let ghost base2 = base + unknown_types(d.parent_types.deep_view(), known, true, definition);
        for j in 0..d.child_types.len()
            invariant
                value@ == definition,
                definition == resource_definition_json(*d),
                all_types.deep_view() == known,
                reports(
                    errors.deep_view(),
                    base2 + unknown_types(
                        d.child_types.deep_view().take(j as int),
                        known,
                        false,
                        definition,
                    ),
                ),
        {
            let ghost names = d.child_types.deep_view().take(j + 1);
            let ghost before = errors.deep_view();
            let ghost issues = base2 + unknown_types(
                d.child_types.deep_view().take(j as int),
                known,
                false,
                definition,
            );
            proof {
                assert(names.drop_last() =~= d.child_types.deep_view().take(j as int));
                assert(names.last() == d.child_types@[j as int]@);
            }
            let c_type = &d.child_types[j];
            if !contains_name(&all_types, c_type) {
                let message = three_parts(
                    "Child type '",
                    c_type.as_str(),
                    "' does not have a corresponding resource definition.",
                );
                let e = definition_error(message, DefinitionType::Resource, value.clone());
                errors.push(e);
                proof {
                    let m = unknown_types(names, known, false, definition);
                    assert(errors.deep_view() =~= before.push(e@));
                    lemma_reports_push(before, issues, e@, m.last());
                    assert(base2 + m =~= issues.push(m.last()));
                }
            }
        }
        proof {
            assert(d.child_types.deep_view().take(d.child_types.len() as int) =~= d.child_types.deep_view());
            assert(own_part + link_issues(next, known) =~= base2 + unknown_types(
                d.child_types.deep_view(),
                known,
                false,
                definition,
            ));
        }
    }
    proof {
        assert(resource_defs@.take(resource_defs.len() as int) =~= resource_defs@);
        assert(own_part + link_issues(resource_defs@, known) =~= definition_issues(
            identity_defs@,
            resource_defs@,
        ));
    }
    let valid = errors.len() == 0;
    ValidationResult { valid, errors }
}

} // verus!
