use canonical_errors::{
    CanonicalError, DebugInfo, ErrorInfo, FieldViolation, Json, PreconditionFailure,
    PreconditionViolation, Problem, ProblemConversionError, QuotaFailure, QuotaViolation,
    RequestInfo, ResourceInfo, RetryInfo, Validation,
};
use serde_json::Value;

fn to_value(j: &Json) -> Value {
    match j {
        Json::Null => Value::Null,
        Json::Bool(b) => Value::Bool(*b),
        Json::UInt(n) => Value::from(*n),
        Json::NegInt(n) => Value::from(*n),
        Json::Decimal(s) => serde_json::from_str(s).unwrap(),
        Json::Str(s) => Value::String(s.clone()),
        Json::Array(items) => Value::Array(items.iter().map(to_value).collect()),
        Json::Object(members) => {
            let mut m = serde_json::Map::new();
            for (k, v) in members {
                m.insert(k.clone(), to_value(v));
            }
            Value::Object(m)
        }
    }
}

fn from_value(v: &Value) -> Json {
    match v {
        Value::Null => Json::Null,
        Value::Bool(b) => Json::Bool(*b),
        Value::Number(n) => match (n.as_u64(), n.as_i64()) {
            (Some(u), _) => Json::UInt(u),
            (None, Some(i)) => Json::NegInt(i),
            _ => Json::Decimal(n.to_string()),
        },
        Value::String(s) => Json::Str(s.clone()),
        Value::Array(items) => Json::Array(items.iter().map(from_value).collect()),
        Value::Object(m) => Json::Object(m.iter().map(|(k, v)| (k.clone(), from_value(v))).collect()),
    }
}

fn parse_json(text: &str) -> Json {
    from_value(&serde_json::from_str::<Value>(text).unwrap())
}

fn assert_roundtrip(initial: &CanonicalError) {
    let problem = Problem::from_error(initial.clone());
    let reconstructed = CanonicalError::try_from(problem).expect("round-trip should succeed");
    assert_eq!(initial.gts_type(), reconstructed.gts_type(), "gts_type mismatch");
    assert_eq!(initial.message(), reconstructed.message(), "message mismatch");
    assert_eq!(initial.status_code(), reconstructed.status_code(), "status_code mismatch");
}

#[test]
fn context_types_are_deserializable() {
    // FieldViolation
    let json = r#"{"field":"email","description":"is required","reason":"REQUIRED"}"#;
    let fv: FieldViolation = FieldViolation::from_json(&parse_json(json)).unwrap();
    assert_eq!(fv.field, "email");
    assert_eq!(fv.description, "is required");
    assert_eq!(fv.reason, "REQUIRED");

    // ResourceInfo
    let json = r#"{"resource_type":"gts.cf.core.users.user.v1","resource_name":"user-123","description":"Resource not found"}"#;
    let ri: ResourceInfo = ResourceInfo::from_json(&parse_json(json)).unwrap();
    assert_eq!(ri.resource_name, "user-123");
}

#[test]
fn roundtrip_cancelled() {
    assert_roundtrip(&CanonicalError::cancelled(RequestInfo::new("req-1")));
}

#[test]
fn roundtrip_unknown() {
    assert_roundtrip(&CanonicalError::unknown("something went wrong"));
}

#[test]
fn roundtrip_invalid_argument() {
    assert_roundtrip(&CanonicalError::invalid_argument(
        Validation::fields(vec![FieldViolation::new("email", "is required", "REQUIRED")]),
    ));
}

#[test]
fn roundtrip_deadline_exceeded() {
    assert_roundtrip(&CanonicalError::deadline_exceeded(RequestInfo::new("req-2")));
}

#[test]
fn roundtrip_not_found() {
    assert_roundtrip(&CanonicalError::not_found(
        ResourceInfo::new("gts.cf.core.users.user.v1", "user-123"),
    ));
}

#[test]
fn roundtrip_already_exists() {
    assert_roundtrip(&CanonicalError::already_exists(
        ResourceInfo::new("gts.cf.core.users.user.v1", "bob@example.com"),
    ));
}

#[test]
fn roundtrip_permission_denied() {
    assert_roundtrip(&CanonicalError::permission_denied(
        ErrorInfo::new("CROSS_TENANT_ACCESS", "auth.cyberfabric.io"),
    ));
}

#[test]
fn roundtrip_resource_exhausted() {
    assert_roundtrip(&CanonicalError::resource_exhausted(
        QuotaFailure::new(vec![QuotaViolation::new("requests", "Rate limit exceeded")]),
    ));
}

#[test]
fn roundtrip_failed_precondition() {
    assert_roundtrip(&CanonicalError::failed_precondition(
        PreconditionFailure::new(vec![PreconditionViolation::new(
            "STATE", "document.status", "Document is already published",
        )]),
    ));
}

#[test]
fn roundtrip_aborted() {
    assert_roundtrip(&CanonicalError::aborted(
        ErrorInfo::new("OPTIMISTIC_LOCK_FAILURE", "cf.oagw")
            .with_metadata("expected_version", "3"),
    ));
}

#[test]
fn roundtrip_out_of_range() {
    assert_roundtrip(&CanonicalError::out_of_range(
        Validation::constraint("Page 50 is beyond the last page (12)"),
    ));
}

#[test]
fn roundtrip_unimplemented() {
    assert_roundtrip(&CanonicalError::unimplemented(
        ErrorInfo::new("GRPC_STREAMING", "cf.core"),
    ));
}

#[test]
fn roundtrip_internal() {
    assert_roundtrip(&CanonicalError::internal(
        DebugInfo::new("null pointer in user service"),
    ));
}

#[test]
fn roundtrip_service_unavailable() {
    assert_roundtrip(&CanonicalError::service_unavailable(
        RetryInfo::after_seconds(30),
    ));
}

#[test]
fn roundtrip_data_loss() {
    assert_roundtrip(&CanonicalError::data_loss(
        ResourceInfo::new("gts.cf.core.data.backup.v1", "backup-42"),
    ));
}

#[test]
fn roundtrip_unauthenticated() {
    assert_roundtrip(&CanonicalError::unauthenticated(
        ErrorInfo::new("TOKEN_EXPIRED", "auth.cyberfabric.io"),
    ));
}

#[test]
fn roundtrip_preserves_resource_info_fields() {
    let initial = CanonicalError::not_found(
        ResourceInfo::new("gts.cf.core.users.user.v1", "user-123")
            .with_description("User not found in database"),
    );
    let problem = Problem::from_error(initial);
    let reconstructed = CanonicalError::try_from(problem).unwrap();
    // Verify context fields via serialization
    let ctx_json = match &reconstructed {
        CanonicalError::NotFound { ctx, .. } => to_value(&ctx.to_json()),
        _ => panic!("expected NotFound"),
    };
    assert_eq!(ctx_json["resource_name"], "user-123");
    assert_eq!(ctx_json["description"], "User not found in database");
}

#[test]
fn roundtrip_preserves_error_info_with_metadata() {
    let initial = CanonicalError::permission_denied(
        ErrorInfo::new("CROSS_TENANT_ACCESS", "auth.cyberfabric.io")
            .with_metadata("tenant_id", "t-1")
            .with_metadata("caller", "user-99"),
    );
    let problem = Problem::from_error(initial);
    let reconstructed = CanonicalError::try_from(problem).unwrap();
    let ctx_json = match &reconstructed {
        CanonicalError::PermissionDenied { ctx, .. } => to_value(&ctx.to_json()),
        _ => panic!("expected PermissionDenied"),
    };
    assert_eq!(ctx_json["reason"], "CROSS_TENANT_ACCESS");
    assert_eq!(ctx_json["domain"], "auth.cyberfabric.io");
    assert_eq!(ctx_json["metadata"]["tenant_id"], "t-1");
    assert_eq!(ctx_json["metadata"]["caller"], "user-99");
}

#[test]
fn roundtrip_preserves_validation_field_violations() {
    let initial = CanonicalError::invalid_argument(Validation::fields(vec![
        FieldViolation::new("email", "is required", "REQUIRED"),
        FieldViolation::new("name", "must be at least 2 characters", "TOO_SHORT"),
    ]));
    let problem = Problem::from_error(initial);
    let reconstructed = CanonicalError::try_from(problem).unwrap();
    let ctx_json = match &reconstructed {
        CanonicalError::InvalidArgument { ctx, .. } => to_value(&ctx.to_json()),
        _ => panic!("expected InvalidArgument"),
    };
    let violations = ctx_json["field_violations"].as_array().unwrap();
    assert_eq!(violations.len(), 2);
    assert_eq!(violations[0]["field"], "email");
    assert_eq!(violations[0]["reason"], "REQUIRED");
    assert_eq!(violations[1]["field"], "name");
    assert_eq!(violations[1]["reason"], "TOO_SHORT");
}

#[test]
fn roundtrip_preserves_quota_failure() {
    let initial = CanonicalError::resource_exhausted(QuotaFailure::new(vec![
        QuotaViolation::new("requests", "Rate limit exceeded"),
    ]));
    let problem = Problem::from_error(initial);
    let reconstructed = CanonicalError::try_from(problem).unwrap();
    let ctx_json = match &reconstructed {
        CanonicalError::ResourceExhausted { ctx, .. } => to_value(&ctx.to_json()),
        _ => panic!("expected ResourceExhausted"),
    };
    let violations = ctx_json["violations"].as_array().unwrap();
    assert_eq!(violations.len(), 1);
    assert_eq!(violations[0]["subject"], "requests");
}

#[test]
fn roundtrip_preserves_precondition_failure() {
    let initial = CanonicalError::failed_precondition(PreconditionFailure::new(vec![
        PreconditionViolation::new("STATE", "tenant.users", "Remove all active users"),
    ]));
    let problem = Problem::from_error(initial);
    let reconstructed = CanonicalError::try_from(problem).unwrap();
    let ctx_json = match &reconstructed {
        CanonicalError::FailedPrecondition { ctx, .. } => to_value(&ctx.to_json()),
        _ => panic!("expected FailedPrecondition"),
    };
    let violations = ctx_json["violations"].as_array().unwrap();
    assert_eq!(violations.len(), 1);
    assert_eq!(violations[0]["subject"], "tenant.users");
}

#[test]
fn roundtrip_with_resource_type_set() {
    let initial = CanonicalError::not_found(
        ResourceInfo::new("gts.cf.core.users.user.v1", "user-123"),
    )
    .with_resource_type("gts.cf.core.users.user.v1");
    let problem = Problem::from_error(initial);
    let reconstructed = CanonicalError::try_from(problem).unwrap();
    assert_eq!(
        reconstructed.resource_type(),
        Some("gts.cf.core.users.user.v1")
    );
}

#[test]
fn roundtrip_without_resource_type() {
    // Internal uses DebugInfo — no resource_type field in the context struct
    let initial = CanonicalError::internal(DebugInfo::new("invariant violated"));
    assert_eq!(initial.resource_type(), None);
    let problem = Problem::from_error(initial);
    let reconstructed = CanonicalError::try_from(problem).unwrap();
    assert_eq!(reconstructed.resource_type(), None);
}

#[test]
fn roundtrip_debug_info_preserved_via_from_error_debug() {
    let initial = CanonicalError::not_found(
        ResourceInfo::new("gts.cf.core.users.user.v1", "user-123"),
    )
    .with_debug_info(
        DebugInfo::new("SELECT * FROM users WHERE id = $1 returned 0 rows")
            .with_stack(vec!["repo.rs:42".into()]),
    );
    let problem = Problem::from_error_debug(initial);
    let reconstructed = CanonicalError::try_from(problem).unwrap();
    let debug = reconstructed.debug_info().expect("debug_info should be present");
    assert_eq!(debug.detail, "SELECT * FROM users WHERE id = $1 returned 0 rows");
    assert_eq!(debug.stack_entries, vec!["repo.rs:42"]);
}

#[test]
fn roundtrip_debug_info_stripped_via_from_error() {
    let initial = CanonicalError::not_found(
        ResourceInfo::new("gts.cf.core.users.user.v1", "user-123"),
    )
    .with_debug_info(DebugInfo::new("SQL query details"));
    // Production mode strips debug info
    let problem = Problem::from_error(initial);
    let reconstructed = CanonicalError::try_from(problem).unwrap();
    assert!(reconstructed.debug_info().is_none(), "debug_info should be stripped in production mode");
}

#[test]
fn try_from_malformed_type_uri() {
    let problem = Problem {
        problem_type: "not-a-gts-uri".to_string(),
        title: "Unknown".to_string(),
        status: 500,
        detail: "test".to_string(),
        instance: None,
        trace_id: None,
        context: Json::Object(vec![]),
        debug: None,
    };
    let err = CanonicalError::try_from(problem).unwrap_err();
    assert!(matches!(err, ProblemConversionError::InvalidType(_)));
}

#[test]
fn try_from_unknown_category() {
    let problem = Problem {
        problem_type: "gts.cf.core.errors.err.v1~cf.core.errors.nonexistent.v1~".to_string(),
        title: "Unknown".to_string(),
        status: 500,
        detail: "test".to_string(),
        instance: None,
        trace_id: None,
        context: Json::Object(vec![]),
        debug: None,
    };
    let err = CanonicalError::try_from(problem).unwrap_err();
    match err {
        ProblemConversionError::UnknownCategory(c) => assert_eq!(c, "nonexistent"),
        other => panic!("expected UnknownCategory, got: {other:?}"),
    }
}

#[test]
fn try_from_wrong_context_shape() {
    let problem = Problem {
        problem_type: "gts.cf.core.errors.err.v1~cf.core.errors.not_found.v1~".to_string(),
        title: "Not Found".to_string(),
        status: 404,
        detail: "Resource not found".to_string(),
        instance: None,
        trace_id: None,
        context: Json::Object(vec![("unexpected".to_string(), Json::Str("shape".to_string()))]),
        debug: None,
    };
    let err = CanonicalError::try_from(problem).unwrap_err();
    assert!(matches!(err, ProblemConversionError::ContextDeserializationFailed { .. }));
}

#[test]
fn sdk_consumer_pattern_json_to_canonical_error() {
    let json = r#"{
        "type": "gts.cf.core.errors.err.v1~cf.core.errors.not_found.v1~",
        "title": "Not Found",
        "status": 404,
        "detail": "Resource not found",
        "context": {
            "resource_type": "gts.cf.core.users.user.v1",
            "resource_name": "user-123",
            "description": "Resource not found"
        }
    }"#;

    // Step 1: JSON → Problem
    let problem: Problem = Problem::from_json(&parse_json(json)).unwrap();
    assert_eq!(problem.status, 404);

    // Step 2: Problem → CanonicalError
    let err = CanonicalError::try_from(problem).unwrap();
    assert_eq!(err.gts_type(), "gts.cf.core.errors.err.v1~cf.core.errors.not_found.v1~");
    assert_eq!(err.message(), "Resource not found");
    assert_eq!(err.status_code(), 404);
    assert_eq!(err.resource_type(), Some("gts.cf.core.users.user.v1"));

    // Step 3: SDK consumer matches on status_code
    match err.status_code() {
        404 => {} // not_found — expected
        403 => panic!("should not be permission_denied"),
        _ => panic!("unexpected status"),
    }
}

#[test]
fn problem_deserialize_roundtrip() {
    let initial_err = CanonicalError::not_found(
        ResourceInfo::new("gts.cf.core.users.user.v1", "user-123"),
    );
    let initial_problem = Problem::from_error(initial_err);
    let json = serde_json::to_string(&to_value(&initial_problem.to_json())).unwrap();
    let deserialized: Problem = Problem::from_json(&parse_json(&json)).unwrap();
    assert_eq!(initial_problem.problem_type, deserialized.problem_type);
    assert_eq!(initial_problem.title, deserialized.title);
    assert_eq!(initial_problem.status, deserialized.status);
    assert_eq!(initial_problem.detail, deserialized.detail);
    assert_eq!(to_value(&initial_problem.context), to_value(&deserialized.context));
    assert_eq!(initial_problem.instance, deserialized.instance);
    assert_eq!(initial_problem.trace_id, deserialized.trace_id);
}

#[test]
fn problem_deserialize_missing_optional_fields() {
    let json = r#"{
        "type": "gts.cf.core.errors.err.v1~cf.core.errors.internal.v1~",
        "title": "Internal",
        "status": 500,
        "detail": "An internal error occurred",
        "context": {"detail": "test", "stack_entries": []}
    }"#;
    let problem: Problem = Problem::from_json(&parse_json(json)).unwrap();
    assert!(problem.instance.is_none());
    assert!(problem.trace_id.is_none());
    assert!(problem.debug.is_none());
}
