use authzee::{
    audit, audit_workflow, authorize, authorize_workflow, evaluate_one, generate_schemas,
    get_identity_definition_schema, get_resource_definition_schema, join,
    resolve_context_validation, resolve_query_validation, validate_definitions, validate_grants,
    validate_request, ContextValidation, DefinitionType, Effect, Errors, Grant,
    IdentityDefinition, Json, Member, QueryValidation, Request, ResourceDefinition, StringMap,
    UNSAFE_SCHEMA_MESSAGE,
};
use serde_json::Value;
use std::cell::Cell;

fn from_value(v: &Value) -> Json {
    match v {
        Value::Null => Json::Null,
        Value::Bool(b) => Json::Bool(*b),
        Value::Number(n) => Json::Number(n.to_string()),
        Value::String(s) => Json::Str(s.clone()),
        Value::Array(items) => Json::Array(items.iter().map(from_value).collect()),
        Value::Object(members) => Json::Object(
            members
                .iter()
                .map(|(k, v)| Member { key: k.clone(), value: from_value(v) })
                .collect(),
        ),
    }
}

fn to_value(j: &Json) -> Value {
    match j {
        Json::Null => Value::Null,
        Json::Bool(b) => Value::Bool(*b),
        Json::Number(n) => Value::Number(n.parse().unwrap()),
        Json::Str(s) => Value::String(s.clone()),
        Json::Array(items) => Value::Array(items.iter().map(to_value).collect()),
        Json::Object(members) => Value::Object(
            members.iter().map(|m| (m.key.clone(), to_value(&m.value))).collect(),
        ),
    }
}

fn j(text: &str) -> Json {
    from_value(&serde_json::from_str(text).unwrap())
}

fn s(text: &str) -> Value {
    Value::String(text.to_string())
}

fn jmespath_search(query: &str, data: &Json) -> Result<Json, jmespath::JmespathError> {
    let expr = jmespath::compile(query)?;
    let found = expr.search(to_value(data))?;
    let value = serde_json::to_value(&*found)?;
    Ok(from_value(&value))
}

fn jmespath_search_error(_query: &str, _data: &Json) -> Result<Json, jmespath::JmespathError> {
    Err(jmespath::JmespathError::new(
        "",
        0,
        jmespath::ErrorReason::Parse("Mock JMESPath error".to_string()),
    ))
}

fn create_basic_identity_def() -> IdentityDefinition {
    IdentityDefinition {
        identity_type: "user".to_string(),
        schema: j(r#"{"type": "object", "properties": {"id": {"type": "string"}}}"#),
    }
}

fn create_basic_resource_def() -> ResourceDefinition {
    ResourceDefinition {
        resource_type: "document".to_string(),
        actions: vec!["read".to_string(), "write".to_string()],
        schema: j(r#"{"type": "object", "properties": {"id": {"type": "string"}}}"#),
        parent_types: vec![],
        child_types: vec![],
    }
}

fn create_basic_grant() -> Grant {
    Grant {
        effect: Effect::Allow,
        actions: vec!["read".to_string()],
        query: "request.resource.id".to_string(),
        query_validation: QueryValidation::Validate,
        equality: j(r#""doc1""#),
        data: j("{}"),
        context_schema: j(r#"{"type": "object"}"#),
        context_validation: ContextValidation::Skip,
    }
}

fn create_basic_request() -> Request {
    Request {
        identities: {
            let mut map = StringMap::new();
            map.insert("user".to_string(), vec![j(r#"{"id": "user1"}"#)]);
            map
        },
        resource_type: "document".to_string(),
        action: "read".to_string(),
        resource: j(r#"{"id": "doc1"}"#),
        parents: StringMap::new(),
        children: StringMap::new(),
        query_validation: QueryValidation::Grant,
        context: StringMap::new(),
        context_validation: ContextValidation::Grant,
    }
}

fn contains(items: &Value, text: &str) -> bool {
    items.as_array().unwrap().contains(&s(text))
}

#[test]
fn test_basic_workflow() {
    let identity_defs = vec![create_basic_identity_def()];
    let resource_defs = vec![create_basic_resource_def()];
    let grants = vec![create_basic_grant()];
    let request = create_basic_request();

    let result =
        authorize_workflow(&identity_defs, &resource_defs, &grants, &request, jmespath_search);
    assert!(result.authorized);
    assert!(result.completed);
}

#[test]
fn test_get_identity_definition_schema() {
    let schema = to_value(&get_identity_definition_schema());
    assert_eq!(schema["title"], "Identity Definition");
    assert_eq!(schema["type"], "object");
    assert!(contains(&schema["required"], "identity_type"));
    assert!(contains(&schema["required"], "schema"));
}

#[test]
fn test_get_resource_definition_schema() {
    let schema = to_value(&get_resource_definition_schema());
    assert_eq!(schema["title"], "Resource Definition");
    assert_eq!(schema["type"], "object");
    let required = &schema["required"];
    assert!(contains(required, "resource_type"));
    assert!(contains(required, "actions"));
    assert!(contains(required, "schema"));
    assert!(contains(required, "parent_types"));
    assert!(contains(required, "child_types"));
}

#[test]
fn test_validate_definitions_success() {
    let identity_defs = vec![create_basic_identity_def()];
    let resource_defs = vec![create_basic_resource_def()];

    let result = validate_definitions(&identity_defs, &resource_defs);
    assert!(result.valid);
    assert!(result.errors.is_empty());
}

#[test]
fn test_validate_definitions_duplicate_identity_types() {
    let identity_defs = vec![create_basic_identity_def(), create_basic_identity_def()];
    let resource_defs = vec![create_basic_resource_def()];

    let result = validate_definitions(&identity_defs, &resource_defs);
    assert!(!result.valid);
    assert_eq!(result.errors.len(), 1);
    assert!(result.errors[0].message.contains("Identity types must be unique"));
    assert!(result.errors[0].critical);
    assert!(matches!(result.errors[0].definition_type, DefinitionType::Identity));
}

#[test]
fn test_validate_definitions_duplicate_resource_types() {
    let identity_defs = vec![create_basic_identity_def()];
    let resource_defs = vec![create_basic_resource_def(), create_basic_resource_def()];

    let result = validate_definitions(&identity_defs, &resource_defs);
    assert!(!result.valid);
    assert_eq!(result.errors.len(), 1);
    assert!(result.errors[0].message.contains("Resource types must be unique"));
    assert!(result.errors[0].critical);
    assert!(matches!(result.errors[0].definition_type, DefinitionType::Resource));
}

#[test]
fn test_validate_definitions_invalid_parent_type() {
    let identity_defs = vec![create_basic_identity_def()];
    let mut resource_def = create_basic_resource_def();
    resource_def.parent_types = vec!["nonexistent".to_string()];
    let resource_defs = vec![resource_def];

    let result = validate_definitions(&identity_defs, &resource_defs);
    assert!(!result.valid);
    assert_eq!(result.errors.len(), 1);
    assert!(result.errors[0]
        .message
        .contains("Parent type 'nonexistent' does not have a corresponding resource definition"));
    assert!(result.errors[0].critical);
    assert!(matches!(result.errors[0].definition_type, DefinitionType::Resource));
}

#[test]
fn test_validate_definitions_invalid_child_type() {
    let identity_defs = vec![create_basic_identity_def()];
    let mut resource_def = create_basic_resource_def();
    resource_def.child_types = vec!["nonexistent".to_string()];
    let resource_defs = vec![resource_def];

    let result = validate_definitions(&identity_defs, &resource_defs);
    assert!(!result.valid);
    assert_eq!(result.errors.len(), 1);
    assert!(result.errors[0]
        .message
        .contains("Child type 'nonexistent' does not have a corresponding resource definition"));
    assert!(result.errors[0].critical);
    assert!(matches!(result.errors[0].definition_type, DefinitionType::Resource));
}

#[test]
fn test_validate_definitions_valid_parent_child_types() {
    let identity_defs = vec![create_basic_identity_def()];
    let parent_def = ResourceDefinition {
        resource_type: "parent".to_string(),
        actions: vec!["manage".to_string()],
        schema: j(r#"{"type": "object"}"#),
        parent_types: vec![],
        child_types: vec!["document".to_string()],
    };
    let mut child_def = create_basic_resource_def();
    child_def.parent_types = vec!["parent".to_string()];
    let resource_defs = vec![parent_def, child_def];

    let result = validate_definitions(&identity_defs, &resource_defs);
    assert!(result.valid);
    assert!(result.errors.is_empty());
}

#[test]
fn test_generate_schemas() {
    let identity_defs = vec![
        create_basic_identity_def(),
        IdentityDefinition {
            identity_type: "admin".to_string(),
            schema: j(r#"{"type": "object", "properties": {"role": {"type": "string"}}}"#),
        },
    ];
    let parent_def = ResourceDefinition {
        resource_type: "folder".to_string(),
        actions: vec!["list".to_string()],
        schema: j(r#"{"type": "object", "properties": {"name": {"type": "string"}}}"#),
        parent_types: vec![],
        child_types: vec!["document".to_string()],
    };
    let mut document_def = create_basic_resource_def();
    document_def.parent_types = vec!["folder".to_string()];
    let resource_defs = vec![parent_def, document_def];

    let schemas = generate_schemas(&identity_defs, &resource_defs);

    let grant = to_value(&schemas.grant);
    assert_eq!(grant["title"], "Grant");
    let actions_enum = &grant["properties"]["actions"]["items"]["enum"];
    assert!(contains(actions_enum, "read"));
    assert!(contains(actions_enum, "write"));
    assert!(contains(actions_enum, "list"));

    let request = to_value(&schemas.request);
    assert_eq!(request["title"], "Workflow Request");
    let identities_required = &request["$defs"]["identities"]["required"];
    assert!(contains(identities_required, "user"));
    assert!(contains(identities_required, "admin"));

    assert!(request["anyOf"].as_array().unwrap().len() == 2);
    assert!(request["$defs"]["document"].is_object());
    assert!(request["$defs"]["folder"].is_object());

    assert_eq!(to_value(&schemas.errors)["title"], "Workflow Errors");
    assert_eq!(to_value(&schemas.audit)["title"], "Audit Response");
    assert_eq!(to_value(&schemas.authorize)["title"], "Authorize Response");
}

#[test]
fn test_validate_grants_success() {
    let grants = vec![create_basic_grant()];
    let identity_defs = vec![create_basic_identity_def()];
    let resource_defs = vec![create_basic_resource_def()];
    let schemas = generate_schemas(&identity_defs, &resource_defs);

    let result = validate_grants(&grants, &schemas.grant);
    assert!(result.valid);
    assert!(result.errors.is_empty());
}

#[test]
fn test_validate_grants_invalid() {
    let invalid_grant = Grant {
        effect: Effect::Allow,
        actions: vec!["invalid_action".to_string()],
        query: "request.resource.id".to_string(),
        query_validation: QueryValidation::Validate,
        equality: j(r#""doc1""#),
        data: j("{}"),
        context_schema: j(r#"{"type": "object"}"#),
        context_validation: ContextValidation::Skip,
    };
    let grants = vec![invalid_grant];
    let identity_defs = vec![create_basic_identity_def()];
    let resource_defs = vec![create_basic_resource_def()];
    let schemas = generate_schemas(&identity_defs, &resource_defs);

    let result = validate_grants(&grants, &schemas.grant);
    assert!(!result.valid);
    assert_eq!(result.errors.len(), 1);
    assert!(result.errors[0].message.contains("The grant is not valid"));
    assert!(result.errors[0].critical);
}

#[test]
fn test_validate_request_success() {
    let request = create_basic_request();
    let identity_defs = vec![create_basic_identity_def()];
    let resource_defs = vec![create_basic_resource_def()];
    let schemas = generate_schemas(&identity_defs, &resource_defs);

    let result = validate_request(&request, &schemas.request);
    assert!(result.valid);
    assert!(result.errors.is_empty());
}

#[test]
fn test_validate_request_invalid() {
    let mut request = create_basic_request();
    request.action = "invalid_action".to_string();
    let identity_defs = vec![create_basic_identity_def()];
    let resource_defs = vec![create_basic_resource_def()];
    let schemas = generate_schemas(&identity_defs, &resource_defs);

    let result = validate_request(&request, &schemas.request);
    assert!(!result.valid);
    assert_eq!(result.errors.len(), 1);
    assert!(result.errors[0].message.contains("The request is not valid"));
    assert!(result.errors[0].critical);
}

#[test]
fn test_evaluate_one_action_not_matched() {
    let request = create_basic_request();
    let mut grant = create_basic_grant();
    grant.actions = vec!["write".to_string()];

    let result = evaluate_one(&request, &grant, jmespath_search);
    assert!(!result.critical);
    assert!(!result.applicable);
    assert!(result.errors.context.is_empty());
    assert!(result.errors.jmespath.is_empty());
}

#[test]
fn test_evaluate_one_empty_actions_matches_all() {
    let request = create_basic_request();
    let mut grant = create_basic_grant();
    grant.actions = vec![];

    let result = evaluate_one(&request, &grant, jmespath_search);
    assert!(!result.critical);
    assert!(result.applicable);
}

#[test]
fn test_evaluate_one_context_validation_none() {
    let request = create_basic_request();
    let mut grant = create_basic_grant();
    grant.context_validation = ContextValidation::Skip;

    let result = evaluate_one(&request, &grant, jmespath_search);
    assert!(!result.critical);
    assert!(result.applicable);
}

#[test]
fn test_evaluate_one_context_validation_validate_failure() {
    let mut request = create_basic_request();
    request.context.insert("invalid".to_string(), j(r#""value""#));
    request.context_validation = ContextValidation::Validate;
    let mut grant = create_basic_grant();
    grant.context_schema = j(r#"{"type": "object", "additionalProperties": false}"#);

    let result = evaluate_one(&request, &grant, jmespath_search);
    assert!(!result.critical);
    assert!(!result.applicable);
    assert!(result.errors.context.is_empty());
}

#[test]
fn test_evaluate_one_context_validation_error_failure() {
    let mut request = create_basic_request();
    request.context.insert("invalid".to_string(), j(r#""value""#));
    request.context_validation = ContextValidation::Error;
    let mut grant = create_basic_grant();
    grant.context_schema = j(r#"{"type": "object", "additionalProperties": false}"#);

    let result = evaluate_one(&request, &grant, jmespath_search);
    assert!(!result.critical);
    assert!(!result.applicable);
    assert_eq!(result.errors.context.len(), 1);
    assert!(!result.errors.context[0].critical);
}

#[test]
fn test_evaluate_one_context_validation_critical_failure() {
    let mut request = create_basic_request();
    request.context.insert("invalid".to_string(), j(r#""value""#));
    request.context_validation = ContextValidation::Critical;
    let mut grant = create_basic_grant();
    grant.context_schema = j(r#"{"type": "object", "additionalProperties": false}"#);

    let result = evaluate_one(&request, &grant, jmespath_search);
    assert!(result.critical);
    assert!(!result.applicable);
    assert_eq!(result.errors.context.len(), 1);
    assert!(result.errors.context[0].critical);
}

#[test]
fn test_evaluate_one_context_validation_grant_level() {
    let mut request = create_basic_request();
    request.context.insert("invalid".to_string(), j(r#""value""#));
    request.context_validation = ContextValidation::Grant;
    let mut grant = create_basic_grant();
    grant.context_schema = j(r#"{"type": "object", "additionalProperties": false}"#);
    grant.context_validation = ContextValidation::Error;

    let result = evaluate_one(&request, &grant, jmespath_search);
    assert!(!result.critical);
    assert!(!result.applicable);
    assert_eq!(result.errors.context.len(), 1);
    assert!(!result.errors.context[0].critical);
}

#[test]
fn test_evaluate_one_query_success() {
    let request = create_basic_request();
    let grant = create_basic_grant();

    let result = evaluate_one(&request, &grant, jmespath_search);
    assert!(!result.critical);
    assert!(result.applicable);
}

#[test]
fn test_evaluate_one_query_no_match() {
    let request = create_basic_request();
    let mut grant = create_basic_grant();
    grant.equality = j(r#""different_value""#);

    let result = evaluate_one(&request, &grant, jmespath_search);
    assert!(!result.critical);
    assert!(!result.applicable);
}

#[test]
fn test_evaluate_one_jmespath_error_validate() {
    let request = create_basic_request();
    let mut grant = create_basic_grant();
    grant.query_validation = QueryValidation::Validate;

    let result = evaluate_one(&request, &grant, jmespath_search_error);
    assert!(!result.critical);
    assert!(!result.applicable);
    assert!(result.errors.jmespath.is_empty());
}

#[test]
fn test_evaluate_one_jmespath_error_error() {
    let request = create_basic_request();
    let mut grant = create_basic_grant();
    grant.query_validation = QueryValidation::Error;

    let result = evaluate_one(&request, &grant, jmespath_search_error);
    assert!(!result.critical);
    assert!(!result.applicable);
    assert_eq!(result.errors.jmespath.len(), 1);
    assert!(!result.errors.jmespath[0].critical);
}

#[test]
fn test_evaluate_one_jmespath_error_critical() {
    let request = create_basic_request();
    let mut grant = create_basic_grant();
    grant.query_validation = QueryValidation::Critical;

    let result = evaluate_one(&request, &grant, jmespath_search_error);
    assert!(result.critical);
    assert!(!result.applicable);
    assert_eq!(result.errors.jmespath.len(), 1);
    assert!(result.errors.jmespath[0].critical);
}

#[test]
fn test_evaluate_one_jmespath_error_grant_level() {
    let mut request = create_basic_request();
    request.query_validation = QueryValidation::Grant;
    let mut grant = create_basic_grant();
    grant.query_validation = QueryValidation::Error;

    let result = evaluate_one(&request, &grant, jmespath_search_error);
    assert!(!result.critical);
    assert!(!result.applicable);
    assert_eq!(result.errors.jmespath.len(), 1);
    assert!(!result.errors.jmespath[0].critical);
}

#[test]
fn test_evaluate_success() {
    let request = create_basic_request();
    let grants = vec![create_basic_grant()];

    let result = audit(&request, &grants, jmespath_search);
    assert!(result.completed);
    assert_eq!(result.grants.len(), 1);
    assert!(result.errors.context.is_empty());
    assert!(result.errors.jmespath.is_empty());
}

#[test]
fn test_evaluate_critical_error() {
    let request = create_basic_request();
    let mut grant = create_basic_grant();
    grant.query_validation = QueryValidation::Critical;
    let grants = vec![grant];

    let result = audit(&request, &grants, jmespath_search_error);
    assert!(!result.completed);
    assert!(result.grants.is_empty());
    assert_eq!(result.errors.jmespath.len(), 1);
}

#[test]
fn test_evaluate_no_applicable_grants() {
    let request = create_basic_request();
    let mut grant = create_basic_grant();
    grant.equality = j(r#""different_value""#);
    let grants = vec![grant];

    let result = audit(&request, &grants, jmespath_search);
    assert!(result.completed);
    assert!(result.grants.is_empty());
}

#[test]
fn test_authorize_allow_grant() {
    let request = create_basic_request();
    let grants = vec![create_basic_grant()];

    let result = authorize(&request, &grants, jmespath_search);
    assert!(result.authorized);
    assert!(result.completed);
    assert!(result.grant.is_some());
    assert!(result.message.contains("An allow grant is applicable"));
}

#[test]
fn test_authorize_deny_grant() {
    let request = create_basic_request();
    let mut deny_grant = create_basic_grant();
    deny_grant.effect = Effect::Deny;
    let grants = vec![deny_grant];

    let result = authorize(&request, &grants, jmespath_search);
    assert!(!result.authorized);
    assert!(result.completed);
    assert!(result.grant.is_some());
    assert!(result.message.contains("A deny grant is applicable"));
}

#[test]
fn test_authorize_deny_takes_precedence() {
    let request = create_basic_request();
    let allow_grant = create_basic_grant();
    let mut deny_grant = create_basic_grant();
    deny_grant.effect = Effect::Deny;
    let grants = vec![allow_grant, deny_grant];

    let result = authorize(&request, &grants, jmespath_search);
    assert!(!result.authorized);
    assert!(result.completed);
    assert!(result.grant.is_some());
    assert!(matches!(result.grant.as_ref().unwrap().effect, Effect::Deny));
}

#[test]
fn test_authorize_no_applicable_grants() {
    let request = create_basic_request();
    let mut grant = create_basic_grant();
    grant.equality = j(r#""different_value""#);
    let grants = vec![grant];

    let result = authorize(&request, &grants, jmespath_search);
    assert!(!result.authorized);
    assert!(result.completed);
    assert!(result.grant.is_none());
    assert!(result.message.contains("No allow or deny grants are applicable"));
}

#[test]
fn test_authorize_critical_error_in_deny() {
    let request = create_basic_request();
    let mut deny_grant = create_basic_grant();
    deny_grant.effect = Effect::Deny;
    deny_grant.query_validation = QueryValidation::Critical;
    let grants = vec![deny_grant];

    let result = authorize(&request, &grants, jmespath_search_error);
    assert!(!result.authorized);
    assert!(!result.completed);
    assert!(result.grant.is_some());
    assert!(result.message.contains("A critical error has occurred"));
}

#[test]
fn test_authorize_critical_error_in_allow() {
    let request = create_basic_request();
    let mut allow_grant = create_basic_grant();
    allow_grant.query_validation = QueryValidation::Critical;
    let grants = vec![allow_grant];

    let result = authorize(&request, &grants, jmespath_search_error);
    assert!(!result.authorized);
    assert!(!result.completed);
    assert!(result.grant.is_some());
    assert!(result.message.contains("A critical error has occurred"));
}

#[test]
fn test_authorize_action_filtering() {
    let mut request = create_basic_request();
    request.action = "delete".to_string();
    let grants = vec![create_basic_grant()];

    let result = authorize(&request, &grants, jmespath_search);
    assert!(!result.authorized);
    assert!(result.completed);
    assert!(result.grant.is_none());
    assert!(result.message.contains("No allow or deny grants are applicable"));
}

#[test]
fn test_evaluate_workflow_definition_validation_failure() {
    let identity_defs = vec![create_basic_identity_def(), create_basic_identity_def()];
    let resource_defs = vec![create_basic_resource_def()];
    let grants = vec![create_basic_grant()];
    let request = create_basic_request();

    let result = audit_workflow(&identity_defs, &resource_defs, &grants, &request, jmespath_search);
    assert!(!result.completed);
    assert!(result.grants.is_empty());
    assert!(!result.errors.definition.is_empty());
}

#[test]
fn test_evaluate_workflow_grant_validation_failure() {
    let identity_defs = vec![create_basic_identity_def()];
    let resource_defs = vec![create_basic_resource_def()];
    let mut invalid_grant = create_basic_grant();
    invalid_grant.actions = vec!["invalid_action".to_string()];
    let grants = vec![invalid_grant];
    let request = create_basic_request();

    let result = audit_workflow(&identity_defs, &resource_defs, &grants, &request, jmespath_search);
    assert!(!result.completed);
    assert!(result.grants.is_empty());
    assert!(!result.errors.grant.is_empty());
}

#[test]
fn test_evaluate_workflow_request_validation_failure() {
    let identity_defs = vec![create_basic_identity_def()];
    let resource_defs = vec![create_basic_resource_def()];
    let grants = vec![create_basic_grant()];
    let mut invalid_request = create_basic_request();
    invalid_request.action = "invalid_action".to_string();

    let result =
        audit_workflow(&identity_defs, &resource_defs, &grants, &invalid_request, jmespath_search);
    assert!(!result.completed);
    assert!(result.grants.is_empty());
    assert!(!result.errors.request.is_empty());
}

#[test]
fn test_evaluate_workflow_success() {
    let identity_defs = vec![create_basic_identity_def()];
    let resource_defs = vec![create_basic_resource_def()];
    let grants = vec![create_basic_grant()];
    let request = create_basic_request();

    let result = audit_workflow(&identity_defs, &resource_defs, &grants, &request, jmespath_search);
    assert!(result.completed);
    assert_eq!(result.grants.len(), 1);
}

#[test]
fn test_authorize_workflow_definition_validation_failure() {
    let identity_defs = vec![create_basic_identity_def(), create_basic_identity_def()];
    let resource_defs = vec![create_basic_resource_def()];
    let grants = vec![create_basic_grant()];
    let request = create_basic_request();

    let result =
        authorize_workflow(&identity_defs, &resource_defs, &grants, &request, jmespath_search);
    assert!(!result.authorized);
    assert!(!result.completed);
    assert!(result.grant.is_none());
    assert!(result
        .message
        .contains("One or more identity and/or resource definitions are not valid"));
    assert!(!result.errors.definition.is_empty());
}

#[test]
fn test_authorize_workflow_grant_validation_failure() {
    let identity_defs = vec![create_basic_identity_def()];
    let resource_defs = vec![create_basic_resource_def()];
    let mut invalid_grant = create_basic_grant();
    invalid_grant.actions = vec!["invalid_action".to_string()];
    let grants = vec![invalid_grant];
    let request = create_basic_request();

    let result =
        authorize_workflow(&identity_defs, &resource_defs, &grants, &request, jmespath_search);
    assert!(!result.authorized);
    assert!(!result.completed);
    assert!(result.grant.is_none());
    assert!(result.message.contains("One or more grants are not valid"));
    assert!(!result.errors.grant.is_empty());
}

#[test]
fn test_authorize_workflow_request_validation_failure() {
    let identity_defs = vec![create_basic_identity_def()];
    let resource_defs = vec![create_basic_resource_def()];
    let grants = vec![create_basic_grant()];
    let mut invalid_request = create_basic_request();
    invalid_request.action = "invalid_action".to_string();

    let result = authorize_workflow(
        &identity_defs,
        &resource_defs,
        &grants,
        &invalid_request,
        jmespath_search,
    );
    assert!(!result.authorized);
    assert!(!result.completed);
    assert!(result.grant.is_none());
    assert!(result.message.contains("The request is not valid"));
    assert!(!result.errors.request.is_empty());
}

#[test]
fn test_authorize_workflow_success() {
    let identity_defs = vec![create_basic_identity_def()];
    let resource_defs = vec![create_basic_resource_def()];
    let grants = vec![create_basic_grant()];
    let request = create_basic_request();

    let result =
        authorize_workflow(&identity_defs, &resource_defs, &grants, &request, jmespath_search);
    assert!(result.authorized);
    assert!(result.completed);
    assert!(result.grant.is_some());
}

#[test]
fn test_errors_default() {
    let errors = Errors::default();
    assert!(errors.context.is_empty());
    assert!(errors.definition.is_empty());
    assert!(errors.grant.is_empty());
    assert!(errors.jmespath.is_empty());
    assert!(errors.request.is_empty());
}

#[test]
fn test_effect_serialization() {
    let allow = Effect::Allow;
    let deny = Effect::Deny;

    let allow_json = to_value(&allow.to_json());
    let deny_json = to_value(&deny.to_json());

    assert_eq!(allow_json, s("allow"));
    assert_eq!(deny_json, s("deny"));
}

#[test]
fn test_query_validation_serialization() {
    let variants = vec![
        QueryValidation::Grant,
        QueryValidation::Validate,
        QueryValidation::Error,
        QueryValidation::Critical,
    ];
    let expected = vec!["grant", "validate", "error", "critical"];

    for (variant, expected_str) in variants.iter().zip(expected.iter()) {
        let json_val = to_value(&variant.to_json());
        assert_eq!(json_val, s(expected_str));
    }
}

#[test]
fn test_context_validation_serialization() {
    let variants = vec![
        ContextValidation::Grant,
        ContextValidation::Skip,
        ContextValidation::Validate,
        ContextValidation::Error,
        ContextValidation::Critical,
    ];
    let expected = vec!["grant", "none", "validate", "error", "critical"];

    for (variant, expected_str) in variants.iter().zip(expected.iter()) {
        let json_val = to_value(&variant.to_json());
        assert_eq!(json_val, s(expected_str));
    }
}

#[test]
fn test_definition_type_serialization() {
    let identity = DefinitionType::Identity;
    let resource = DefinitionType::Resource;

    let identity_json = to_value(&identity.to_json());
    let resource_json = to_value(&resource.to_json());

    assert_eq!(identity_json, s("identity"));
    assert_eq!(resource_json, s("resource"));
}

#[test]
fn test_complex_resource_hierarchy() {
    let identity_defs = vec![create_basic_identity_def()];
    let org_def = ResourceDefinition {
        resource_type: "organization".to_string(),
        actions: vec!["admin".to_string()],
        schema: j(r#"{"type": "object", "properties": {"id": {"type": "string"}}}"#),
        parent_types: vec![],
        child_types: vec!["project".to_string()],
    };
    let project_def = ResourceDefinition {
        resource_type: "project".to_string(),
        actions: vec!["manage".to_string()],
        schema: j(r#"{"type": "object", "properties": {"id": {"type": "string"}}}"#),
        parent_types: vec!["organization".to_string()],
        child_types: vec!["document".to_string()],
    };
    let mut document_def = create_basic_resource_def();
    document_def.parent_types = vec!["project".to_string()];
    let resource_defs = vec![org_def, project_def, document_def];

    let result = validate_definitions(&identity_defs, &resource_defs);
    assert!(result.valid);
    assert!(result.errors.is_empty());

    let schemas = generate_schemas(&identity_defs, &resource_defs);
    let request = to_value(&schemas.request);
    assert!(request["$defs"]["organization"].is_object());
    assert!(request["$defs"]["project"].is_object());
    assert!(request["$defs"]["document"].is_object());
}

#[test]
fn test_multiple_identity_types_in_request() {
    let identity_defs = vec![
        create_basic_identity_def(),
        IdentityDefinition {
            identity_type: "service".to_string(),
            schema: j(r#"{"type": "object", "properties": {"name": {"type": "string"}}}"#),
        },
    ];
    let resource_defs = vec![create_basic_resource_def()];
    let schemas = generate_schemas(&identity_defs, &resource_defs);

    let mut request = create_basic_request();
    request.identities.insert("service".to_string(), vec![j(r#"{"name": "api-service"}"#)]);

    let result = validate_request(&request, &schemas.request);
    assert!(result.valid);
    assert!(result.errors.is_empty());
}

#[test]
fn test_grant_with_empty_actions() {
    let request = create_basic_request();
    let mut grant = create_basic_grant();
    grant.actions = vec![];
    grant.effect = Effect::Deny;

    let result = authorize(&request, &[grant], jmespath_search);
    assert!(!result.authorized);
    assert!(result.completed);
    assert!(result.message.contains("A deny grant is applicable"));
}

#[test]
fn test_jmespath_query_returning_different_types() {
    let request = create_basic_request();

    let mut grant = create_basic_grant();
    grant.query = "`true`".to_string();
    grant.equality = j("true");
    let result = evaluate_one(&request, &grant, jmespath_search);
    assert!(result.applicable);

    grant.query = "`42`".to_string();
    grant.equality = j("42");
    let result = evaluate_one(&request, &grant, jmespath_search);
    assert!(result.applicable);

    grant.query = "[`1`, `2`, `3`]".to_string();
    grant.equality = j("[1, 2, 3]");
    let result = evaluate_one(&request, &grant, jmespath_search);
    assert!(result.applicable);
}

#[test]
fn test_context_with_complex_schema() {
    let mut request = create_basic_request();
    request.context.insert(
        "user_attributes".to_string(),
        j(r#"{"department": "engineering", "level": 5, "permissions": ["read", "write"]}"#),
    );
    request.context_validation = ContextValidation::Error;
    let mut grant = create_basic_grant();
    grant.context_schema = j(r#"{
        "type": "object",
        "required": ["user_attributes"],
        "properties": {
            "user_attributes": {
                "type": "object",
                "required": ["department", "level"],
                "properties": {
                    "department": {"type": "string"},
                    "level": {"type": "number", "minimum": 1},
                    "permissions": {"type": "array", "items": {"type": "string"}}
                }
            }
        }
    }"#);

    let result = evaluate_one(&request, &grant, jmespath_search);
    assert!(!result.critical);
    assert!(result.applicable);
    assert!(result.errors.context.is_empty());
}

#[test]
fn test_resource_with_parents_and_children() {
    let identity_defs = vec![create_basic_identity_def()];
    let folder_def = ResourceDefinition {
        resource_type: "folder".to_string(),
        actions: vec!["list".to_string()],
        schema: j(r#"{"type": "object", "properties": {"id": {"type": "string"}}}"#),
        parent_types: vec![],
        child_types: vec!["document".to_string()],
    };
    let mut document_def = create_basic_resource_def();
    document_def.parent_types = vec!["folder".to_string()];
    let resource_defs = vec![folder_def, document_def];
    let schemas = generate_schemas(&identity_defs, &resource_defs);

    let mut request = create_basic_request();
    request.parents.insert("folder".to_string(), vec![j(r#"{"id": "parent-folder"}"#)]);

    let result = validate_request(&request, &schemas.request);
    assert!(result.valid);
}

// Properties and edge cases beyond the tests above.

#[test]
fn empty_actions_cover_an_unlisted_action() {
    let mut request = create_basic_request();
    request.action = "write".to_string();
    let mut grant = create_basic_grant();
    grant.actions = vec![];

    let result = evaluate_one(&request, &grant, jmespath_search);
    assert!(result.applicable);
}

#[test]
fn skipped_context_is_never_checked() {
    let mut request = create_basic_request();
    request.context.insert("anything".to_string(), j("1"));
    request.context_validation = ContextValidation::Skip;
    let mut grant = create_basic_grant();
    grant.context_schema = j(r#"{"type": "object", "additionalProperties": false}"#);
    grant.context_validation = ContextValidation::Critical;

    let result = evaluate_one(&request, &grant, jmespath_search);
    assert!(!result.critical);
    assert!(result.applicable);
    assert!(result.errors.context.is_empty());
}

#[test]
fn critical_context_failure_skips_the_query() {
    let calls = Cell::new(0);
    let counting = |q: &str, d: &Json| {
        calls.set(calls.get() + 1);
        jmespath_search(q, d)
    };
    let mut request = create_basic_request();
    request.context.insert("invalid".to_string(), j(r#""value""#));
    request.context_validation = ContextValidation::Critical;
    let mut grant = create_basic_grant();
    grant.context_schema = j(r#"{"type": "object", "additionalProperties": false}"#);

    let result = evaluate_one(&request, &grant, counting);
    assert!(result.critical);
    assert_eq!(calls.get(), 0);
}

#[test]
fn critical_deny_overrides_applicable_allow() {
    let request = create_basic_request();
    let allow_grant = create_basic_grant();
    let mut deny_grant = create_basic_grant();
    deny_grant.effect = Effect::Deny;
    deny_grant.query = "bad(".to_string();
    deny_grant.query_validation = QueryValidation::Critical;
    let grants = vec![allow_grant, deny_grant];

    let result = authorize(&request, &grants, jmespath_search);
    assert!(!result.authorized);
    assert!(!result.completed);
    assert_eq!(result.grant.as_ref().unwrap().effect, Effect::Deny);
    assert_eq!(result.errors.jmespath.len(), 1);
}

#[test]
fn critical_grant_stops_the_audit_scan() {
    let calls = Cell::new(0);
    let counting = |q: &str, d: &Json| {
        calls.set(calls.get() + 1);
        jmespath_search(q, d)
    };
    let request = create_basic_request();
    let mut broken = create_basic_grant();
    broken.query = "bad(".to_string();
    broken.query_validation = QueryValidation::Critical;
    let grants = vec![create_basic_grant(), broken, create_basic_grant()];

    let result = audit(&request, &grants, counting);
    assert!(!result.completed);
    assert_eq!(calls.get(), 2);
    assert_eq!(result.grants.len(), 1);
    assert_eq!(result.errors.jmespath.len(), 1);
    assert!(result.errors.jmespath[0].critical);
}

#[test]
fn critical_grant_stops_the_authorize_scan() {
    let calls = Cell::new(0);
    let counting = |q: &str, d: &Json| {
        calls.set(calls.get() + 1);
        jmespath_search(q, d)
    };
    let request = create_basic_request();
    let mut broken = create_basic_grant();
    broken.effect = Effect::Deny;
    broken.query = "bad(".to_string();
    broken.query_validation = QueryValidation::Critical;
    let mut other_deny = create_basic_grant();
    other_deny.effect = Effect::Deny;
    let grants = vec![create_basic_grant(), broken, other_deny];

    let result = authorize(&request, &grants, counting);
    assert!(!result.completed);
    assert!(!result.authorized);
    assert_eq!(calls.get(), 1);
}

#[test]
fn critical_error_reaches_the_workflow() {
    let identity_defs = vec![create_basic_identity_def()];
    let resource_defs = vec![create_basic_resource_def()];
    let mut grant = create_basic_grant();
    grant.query_validation = QueryValidation::Critical;
    let grants = vec![grant];
    let request = create_basic_request();

    let audited =
        audit_workflow(&identity_defs, &resource_defs, &grants, &request, jmespath_search_error);
    assert!(!audited.completed);
    let decided = authorize_workflow(
        &identity_defs,
        &resource_defs,
        &grants,
        &request,
        jmespath_search_error,
    );
    assert!(!decided.completed);
    assert!(!decided.authorized);
}

#[test]
fn definition_check_reports_every_duplicate() {
    let identity_defs = vec![create_basic_identity_def(), create_basic_identity_def()];
    let resource_defs = vec![create_basic_resource_def(), create_basic_resource_def()];

    let result = validate_definitions(&identity_defs, &resource_defs);
    assert!(!result.valid);
    assert_eq!(result.errors.len(), 2);
    assert_eq!(result.errors[0].definition_type, DefinitionType::Identity);
    assert_eq!(result.errors[1].definition_type, DefinitionType::Resource);
    assert_eq!(
        result.errors[0].message,
        "Identity types must be unique. 'user' is present more than once."
    );
    assert_eq!(
        result.errors[1].message,
        "Resource types must be unique. 'document' is present more than once."
    );
}

#[test]
fn malformed_definition_is_reported_once() {
    let mut bad = create_basic_identity_def();
    bad.identity_type = "not valid!".to_string();
    let identity_defs = vec![bad];
    let resource_defs = vec![create_basic_resource_def()];

    let result = validate_definitions(&identity_defs, &resource_defs);
    assert!(!result.valid);
    assert_eq!(result.errors.len(), 1);
    assert!(result.errors[0]
        .message
        .starts_with("Identity definition schema was not valid. Schema Error: "));
    assert_eq!(to_value(&result.errors[0].definition)["identity_type"], "not valid!");
}

#[test]
fn request_for_a_resource_type_follows_its_schema() {
    let identity_defs = vec![create_basic_identity_def()];
    let folder_def = ResourceDefinition {
        resource_type: "folder".to_string(),
        actions: vec!["list".to_string()],
        schema: j(r#"{"type": "object", "properties": {"id": {"type": "string"}}}"#),
        parent_types: vec![],
        child_types: vec!["document".to_string()],
    };
    let mut document_def = create_basic_resource_def();
    document_def.parent_types = vec!["folder".to_string()];
    let resource_defs = vec![folder_def, document_def];
    let schemas = generate_schemas(&identity_defs, &resource_defs);

    let mut request = create_basic_request();
    request.parents.insert("folder".to_string(), vec![j(r#"{"id": "f1"}"#)]);
    assert!(validate_request(&request, &schemas.request).valid);

    request.action = "list".to_string();
    assert!(!validate_request(&request, &schemas.request).valid);

    let mut unkeyed = create_basic_request();
    unkeyed.action = "read".to_string();
    assert!(!validate_request(&unkeyed, &schemas.request).valid);
}

#[test]
fn allow_grant_matching_the_resource_authorizes() {
    let mut grant = create_basic_grant();
    grant.actions = vec!["read".to_string()];
    grant.equality = j(r#""doc1""#);
    grant.context_validation = ContextValidation::Skip;
    let request = create_basic_request();

    let result = authorize(&request, &[grant], jmespath_search);
    assert!(result.authorized);
    assert!(result.completed);
}

#[test]
fn deny_grant_with_empty_actions_overrides_allow() {
    let allow = create_basic_grant();
    let deny = Grant {
        effect: Effect::Deny,
        actions: vec![],
        query: "`true`".to_string(),
        query_validation: QueryValidation::Validate,
        equality: j("true"),
        data: j("{}"),
        context_schema: j(r#"{"type": "object"}"#),
        context_validation: ContextValidation::Skip,
    };
    let request = create_basic_request();

    let result = authorize(&request, &[allow, deny], jmespath_search);
    assert!(!result.authorized);
    assert!(result.completed);
    assert_eq!(result.grant.unwrap().effect, Effect::Deny);
}

#[test]
fn query_error_at_critical_level_is_critical_everywhere() {
    let request = create_basic_request();
    let mut grant = create_basic_grant();
    grant.query_validation = QueryValidation::Critical;

    let one = evaluate_one(&request, &grant, jmespath_search_error);
    assert!(one.critical);
    assert!(!one.applicable);
    assert!(one.errors.jmespath[0].message.contains("Mock JMESPath error"));
    let grants = vec![grant];
    assert!(!authorize(&request, &grants, jmespath_search_error).completed);
    assert!(!audit(&request, &grants, jmespath_search_error).completed);
}

#[test]
fn request_level_overrides_grant_level() {
    assert_eq!(
        resolve_context_validation(ContextValidation::Error, ContextValidation::Skip),
        ContextValidation::Error
    );
    assert_eq!(
        resolve_context_validation(ContextValidation::Grant, ContextValidation::Skip),
        ContextValidation::Skip
    );
    assert_eq!(
        resolve_query_validation(QueryValidation::Critical, QueryValidation::Validate),
        QueryValidation::Critical
    );
    assert_eq!(
        resolve_query_validation(QueryValidation::Grant, QueryValidation::Error),
        QueryValidation::Error
    );
}

#[test]
fn join_places_separator_between_parts() {
    assert_eq!(join(&vec![], ", "), "");
    assert_eq!(join(&vec!["a".to_string()], ", "), "a");
    assert_eq!(join(&vec!["a".to_string(), "b".to_string(), "c".to_string()], ", "), "a, b, c");
}

#[test]
fn no_grants_means_implicit_deny() {
    let request = create_basic_request();
    let result = authorize(&request, &[], jmespath_search);
    assert!(!result.authorized);
    assert!(result.completed);
    assert!(result.grant.is_none());
    let listed = audit(&request, &[], jmespath_search);
    assert!(listed.completed);
    assert!(listed.grants.is_empty());
}

#[test]
fn audit_lists_every_applicable_grant_in_order() {
    let request = create_basic_request();
    let mut first = create_basic_grant();
    first.query = "`1`".to_string();
    first.equality = j("1");
    let mut missed = create_basic_grant();
    missed.equality = j(r#""other""#);
    let mut second = create_basic_grant();
    second.effect = Effect::Deny;
    let mut failing = create_basic_grant();
    failing.query = "bad(".to_string();
    failing.query_validation = QueryValidation::Error;
    let grants = vec![first, missed, failing, second];

    let result = audit(&request, &grants, jmespath_search);
    assert!(result.completed);
    assert_eq!(result.grants.len(), 2);
    assert_eq!(result.grants[0].query, "`1`");
    assert_eq!(result.grants[1].effect, Effect::Deny);
    assert_eq!(result.errors.jmespath.len(), 1);
    assert!(!result.errors.jmespath[0].critical);
}

#[test]
fn equality_compares_objects_as_maps() {
    let request = create_basic_request();
    let mut grant = create_basic_grant();
    grant.query = "request.resource".to_string();
    grant.equality = Json::Object(vec![Member { key: "id".to_string(), value: j(r#""doc1""#) }]);
    assert!(evaluate_one(&request, &grant, jmespath_search).applicable);

    grant.equality = j(r#"{"id": "doc2"}"#);
    assert!(!evaluate_one(&request, &grant, jmespath_search).applicable);
}

#[test]
fn string_map_insert_replaces_in_place() {
    let mut map: StringMap<Json> = StringMap::new();
    map.insert("a".to_string(), j("1"));
    map.insert("b".to_string(), j("2"));
    map.insert("a".to_string(), j("3"));
    assert_eq!(map.len(), 2);
    assert_eq!(map.entries()[0].0, "a");
    assert_eq!(map.entries()[0].1, j("3"));
    assert_eq!(map.entries()[1].0, "b");
}

#[test]
fn grant_serializes_every_field() {
    let grant = create_basic_grant();
    let value = to_value(&grant.to_json());
    let expected: Value = serde_json::from_str(
        r#"{
            "effect": "allow",
            "actions": ["read"],
            "query": "request.resource.id",
            "query_validation": "validate",
            "equality": "doc1",
            "data": {},
            "context_schema": {"type": "object"},
            "context_validation": "none"
        }"#,
    )
    .unwrap();
    assert_eq!(value, expected);
}

#[test]
fn grant_schema_lists_each_action_once() {
    let mut other = create_basic_resource_def();
    other.resource_type = "folder".to_string();
    other.actions = vec!["list".to_string(), "read".to_string()];
    let resource_defs = vec![create_basic_resource_def(), other];
    let schemas = generate_schemas(&[create_basic_identity_def()], &resource_defs);
    let grant = to_value(&schemas.grant);
    let actions: Value = serde_json::from_str(r#"["read", "write", "list"]"#).unwrap();
    assert_eq!(grant["properties"]["actions"]["items"]["enum"], actions);
    let audit_schema = to_value(&schemas.audit);
    assert_eq!(audit_schema["properties"]["grants"]["items"], grant);
}

#[test]
fn invalid_grant_error_holds_the_grant() {
    let mut bad = create_basic_grant();
    bad.actions = vec!["fly".to_string()];
    let schemas = generate_schemas(&[create_basic_identity_def()], &[create_basic_resource_def()]);
    let result = validate_grants(&[create_basic_grant(), bad], &schemas.grant);
    assert!(!result.valid);
    assert_eq!(result.errors.len(), 1);
    assert_eq!(to_value(&result.errors[0].grant)["actions"][0], "fly");
    assert!(result.errors[0].message.starts_with("The grant is not valid. Schema Error: "));
}

#[test]
fn parent_declared_but_invalid_still_resolves() {
    let identity_defs = vec![create_basic_identity_def()];
    let folder_def = ResourceDefinition {
        resource_type: "folder".to_string(),
        actions: vec!["not an action!".to_string()],
        schema: j(r#"{"type": "object"}"#),
        parent_types: vec![],
        child_types: vec![],
    };
    let mut document_def = create_basic_resource_def();
    document_def.parent_types = vec!["folder".to_string()];
    document_def.child_types = vec!["missing".to_string()];

    let result = validate_definitions(&identity_defs, &[folder_def, document_def]);
    assert!(!result.valid);
    assert_eq!(result.errors.len(), 2);
    assert!(result.errors[0].message.starts_with("Resource definition was not valid. Schema Error: "));
    assert_eq!(
        result.errors[1].message,
        "Child type 'missing' does not have a corresponding resource definition."
    );
}

#[test]
fn self_referencing_context_schema_is_reported() {
    let mut request = create_basic_request();
    request.context_validation = ContextValidation::Error;
    let mut grant = create_basic_grant();
    grant.context_schema = j(r##"{"$ref": "#"}"##);

    let result = evaluate_one(&request, &grant, jmespath_search);
    assert!(!result.applicable);
    assert_eq!(result.errors.context.len(), 1);
    assert_eq!(result.errors.context[0].message, UNSAFE_SCHEMA_MESSAGE);
}

#[test]
fn looping_defs_schema_is_reported() {
    let schema = j(r##"{"$defs": {"a": {"$ref": "#/$defs/a"}}, "$ref": "#/$defs/a"}"##);
    let result = validate_request(&create_basic_request(), &schema);
    assert!(!result.valid);
    assert_eq!(
        result.errors[0].message,
        format!("The request is not valid for the request schema: {}", UNSAFE_SCHEMA_MESSAGE)
    );
}

#[test]
fn request_error_joins_the_validator_messages() {
    let identity_defs = vec![create_basic_identity_def()];
    let resource_defs = vec![create_basic_resource_def()];
    let schemas = generate_schemas(&identity_defs, &resource_defs);
    let mut request = create_basic_request();
    request.action = "invalid_action".to_string();
    request.resource_type = "nothing".to_string();

    let schema_value = to_value(&schemas.request);
    let compiled = jsonschema::JSONSchema::compile(&schema_value).unwrap();
    let instance = to_value(&request.to_json());
    let messages: Vec<String> = match compiled.validate(&instance) {
        Ok(()) => vec![],
        Err(errors) => errors.map(|e| e.to_string()).collect(),
    };
    assert!(!messages.is_empty());

    let result = validate_request(&request, &schemas.request);
    assert!(!result.valid);
    assert_eq!(
        result.errors[0].message,
        format!("The request is not valid for the request schema: {}", messages.join(", "))
    );
}

#[test]
fn draft07_schema_member_does_not_block_the_query() {
    let mut request = create_basic_request();
    request.context_validation = ContextValidation::Error;
    let mut grant = create_basic_grant();
    grant.context_schema =
        j(r#"{"$schema": "http://json-schema.org/draft-07/schema#", "type": "object"}"#);

    let result = evaluate_one(&request, &grant, jmespath_search);
    assert!(!result.critical);
    assert!(result.applicable);
    assert!(result.errors.context.is_empty());
}

#[test]
fn definitions_reference_is_followed() {
    let mut request = create_basic_request();
    request.context.insert("level".to_string(), j(r#""high""#));
    request.context_validation = ContextValidation::Error;
    let mut grant = create_basic_grant();
    grant.context_schema = j(r##"{
        "definitions": {"level": {"type": "integer"}},
        "properties": {"level": {"$ref": "#/definitions/level"}}
    }"##);

    let result = evaluate_one(&request, &grant, jmespath_search);
    assert!(!result.applicable);
    assert_eq!(result.errors.context.len(), 1);
    assert_ne!(result.errors.context[0].message, UNSAFE_SCHEMA_MESSAGE);
}

#[test]
fn schema_without_references_may_carry_ids() {
    let mut request = create_basic_request();
    request.context_validation = ContextValidation::Error;
    let mut grant = create_basic_grant();
    grant.context_schema = j(
        r#"{"$schema": "http://json-schema.org/draft-04/schema#", "id": "http://example.com/c", "$id": "http://example.com/c", "type": "object"}"#,
    );

    let result = evaluate_one(&request, &grant, jmespath_search);
    assert!(result.applicable);
    assert!(result.errors.context.is_empty());
}

#[test]
fn draft04_schema_with_references_is_reported() {
    let mut request = create_basic_request();
    request.context_validation = ContextValidation::Error;
    let mut grant = create_basic_grant();
    grant.context_schema = j(
        r##"{"$schema": "http://json-schema.org/draft-04/schema#", "$defs": {"a": {}}, "$ref": "#/$defs/a"}"##,
    );

    let result = evaluate_one(&request, &grant, jmespath_search);
    assert!(!result.applicable);
    assert_eq!(result.errors.context[0].message, UNSAFE_SCHEMA_MESSAGE);
}

#[test]
fn embedded_schema_with_id_round_trips() {
    let identity_defs = vec![IdentityDefinition {
        identity_type: "user".to_string(),
        schema: j(r#"{"$id": "http://example.com/user", "type": "object"}"#),
    }];
    let resource_defs = vec![create_basic_resource_def()];
    let schemas = generate_schemas(&identity_defs, &resource_defs);

    assert!(validate_request(&create_basic_request(), &schemas.request).valid);
    let mut mismatched = create_basic_request();
    mismatched.resource_type = "folder".to_string();
    let result = validate_request(&mismatched, &schemas.request);
    assert!(!result.valid);
    assert!(!result.errors[0].message.contains(UNSAFE_SCHEMA_MESSAGE));
}
