use canonical_errors::{
    resource_error, CanonicalError, DebugInfo, ErrorInfo, FieldViolation, Json,
    PreconditionFailure, PreconditionViolation, Problem, QuotaFailure, QuotaViolation,
    RequestInfo, ResourceInfo, RetryInfo, Validation,
};
use serde_json::Value;

fn to_value(j: &Json) -> Value {
    match j {
        Json::Null => Value::Null,
        Json::Bool(b) => Value::Bool(*b),
        Json::UInt(n) => Value::from(*n),
        Json::NegInt(n) => Value::from(*n),
        Json::Decimal(s) => serde_json::from_str(s).unwrap(),
        Json::Str(s) => Value::String(s.clone()),
        Json::Array(items) => Value::Array(items.iter().map(to_value).collect()),
        Json::Object(members) => {
            let mut m = serde_json::Map::new();
            for (k, v) in members {
                m.insert(k.clone(), to_value(v));
            }
            Value::Object(m)
        }
    }
}

fn problem_json(problem: &Problem) -> Value {
    to_value(&problem.to_json())
}

fn expected(text: &str) -> Value {
    serde_json::from_str(text).unwrap()
}

#[test]
fn showcase_not_found() {
    let user_resource_error = resource_error("gts.cf.core.users.user.v1");

    let err = user_resource_error.not_found("user-123");
    let problem = Problem::from(err);
    let json = problem_json(&problem);

    assert_eq!(
        json,
        expected(
            r#"{
            "type": "gts.cf.core.errors.err.v1~cf.core.errors.not_found.v1~",
            "title": "Not Found",
            "status": 404,
            "detail": "Resource not found",
            "context": {
                "resource_type": "gts.cf.core.users.user.v1",
                "resource_name": "user-123",
                "description": "Resource not found"
            }
        }"#,
        )
    );
}

#[test]
fn showcase_already_exists() {
    let user_resource_error = resource_error("gts.cf.core.users.user.v1");

    let err = user_resource_error.already_exists("alice@example.com");
    let problem = Problem::from(err);
    let json = problem_json(&problem);

    assert_eq!(
        json,
        expected(
            r#"{
            "type": "gts.cf.core.errors.err.v1~cf.core.errors.already_exists.v1~",
            "title": "Already Exists",
            "status": 409,
            "detail": "Resource already exists",
            "context": {
                "resource_type": "gts.cf.core.users.user.v1",
                "resource_name": "alice@example.com",
                "description": "Resource already exists"
            }
        }"#,
        )
    );
}

#[test]
fn showcase_data_loss() {
    let file_resource_error = resource_error("gts.cf.core.files.file.v1");

    let err = file_resource_error.data_loss("01JFILE-ABC");
    let problem = Problem::from(err);
    let json = problem_json(&problem);

    assert_eq!(
        json,
        expected(
            r#"{
            "type": "gts.cf.core.errors.err.v1~cf.core.errors.data_loss.v1~",
            "title": "Data Loss",
            "status": 500,
            "detail": "Data loss detected",
            "context": {
                "resource_type": "gts.cf.core.files.file.v1",
                "resource_name": "01JFILE-ABC",
                "description": "Data loss detected"
            }
        }"#,
        )
    );
}

#[test]
fn showcase_invalid_argument() {
    let user_resource_error = resource_error("gts.cf.core.users.user.v1");

    // --- Simulated user input ---
    let email = "not-an-email";
    let age: u8 = 12;

    // --- Anticipated user code: validate fields, collect violations ---
    let mut violations = Vec::new();

    if !email.contains('@') {
        violations.push(FieldViolation::new(
            "email",
            "must be a valid email address",
            "INVALID_FORMAT",
        ));
    }
    if age < 18 {
        violations.push(FieldViolation::new(
            "age",
            "must be at least 18",
            "OUT_OF_RANGE",
        ));
    }

    assert!(!violations.is_empty());
    let err = user_resource_error.invalid_argument(Validation::fields(violations));

    // --- Wire format ---
    let problem = Problem::from(err);
    let json = problem_json(&problem);

    assert_eq!(
        json,
        expected(
            r#"{
            "type": "gts.cf.core.errors.err.v1~cf.core.errors.invalid_argument.v1~",
            "title": "Invalid Argument",
            "status": 400,
            "detail": "Request validation failed",
            "context": {
                "resource_type": "gts.cf.core.users.user.v1",
                "field_violations": [
                    {
                        "field": "email",
                        "description": "must be a valid email address",
                        "reason": "INVALID_FORMAT"
                    },
                    {
                        "field": "age",
                        "description": "must be at least 18",
                        "reason": "OUT_OF_RANGE"
                    }
                ]
            }
        }"#,
        )
    );
}

#[test]
fn showcase_out_of_range() {
    let user_resource_error = resource_error("gts.cf.core.users.user.v1");

    let err = user_resource_error.out_of_range(Validation::constraint(
        "Page 50 is beyond the last page (12)",
    ));
    let problem = Problem::from(err);
    let json = problem_json(&problem);

    assert_eq!(
        json,
        expected(
            r#"{
            "type": "gts.cf.core.errors.err.v1~cf.core.errors.out_of_range.v1~",
            "title": "Out of Range",
            "status": 400,
            "detail": "Page 50 is beyond the last page (12)",
            "context": {
                "resource_type": "gts.cf.core.users.user.v1",
                "constraint": "Page 50 is beyond the last page (12)"
            }
        }"#,
        )
    );
}

#[test]
fn showcase_permission_denied() {
    let tenant_resource_error = resource_error("gts.cf.core.tenants.tenant.v1");

    let err = tenant_resource_error.permission_denied(ErrorInfo::new(
        "CROSS_TENANT_ACCESS",
        "auth.cyberfabric.io",
    ));
    let problem = Problem::from(err);
    let json = problem_json(&problem);

    assert_eq!(
        json,
        expected(
            r#"{
            "type": "gts.cf.core.errors.err.v1~cf.core.errors.permission_denied.v1~",
            "title": "Permission Denied",
            "status": 403,
            "detail": "You do not have permission to perform this operation",
            "context": {
                "resource_type": "gts.cf.core.tenants.tenant.v1",
                "reason": "CROSS_TENANT_ACCESS",
                "domain": "auth.cyberfabric.io",
                "metadata": {}
            }
        }"#,
        )
    );
}

#[test]
fn showcase_aborted() {
    let upstream_resource_error = resource_error("gts.cf.oagw.upstreams.upstream.v1");

    let err = upstream_resource_error.aborted(
        ErrorInfo::new("OPTIMISTIC_LOCK_FAILURE", "cf.oagw")
            .with_metadata("expected_version", "3")
            .with_metadata("actual_version", "5"),
    );
    let problem = Problem::from(err);
    let json = problem_json(&problem);

    assert_eq!(
        json,
        expected(
            r#"{
            "type": "gts.cf.core.errors.err.v1~cf.core.errors.aborted.v1~",
            "title": "Aborted",
            "status": 409,
            "detail": "Operation aborted due to concurrency conflict",
            "context": {
                "resource_type": "gts.cf.oagw.upstreams.upstream.v1",
                "reason": "OPTIMISTIC_LOCK_FAILURE",
                "domain": "cf.oagw",
                "metadata": {
                    "expected_version": "3",
                    "actual_version": "5"
                }
            }
        }"#,
        )
    );
}

#[test]
fn showcase_unimplemented() {
    let upstream_resource_error = resource_error("gts.cf.oagw.upstreams.upstream.v1");

    let err = upstream_resource_error.unimplemented(ErrorInfo::new("GRPC_ROUTING", "cf.oagw"));
    let problem = Problem::from(err);
    let json = problem_json(&problem);

    assert_eq!(
        json,
        expected(
            r#"{
            "type": "gts.cf.core.errors.err.v1~cf.core.errors.unimplemented.v1~",
            "title": "Unimplemented",
            "status": 501,
            "detail": "This operation is not implemented",
            "context": {
                "resource_type": "gts.cf.oagw.upstreams.upstream.v1",
                "reason": "GRPC_ROUTING",
                "domain": "cf.oagw",
                "metadata": {}
            }
        }"#,
        )
    );
}

#[test]
fn showcase_failed_precondition() {
    let tenant_resource_error = resource_error("gts.cf.core.tenants.tenant.v1");

    let err = tenant_resource_error.failed_precondition(PreconditionFailure::new(vec![
        PreconditionViolation::new(
            "STATE",
            "tenant.users",
            "Tenant must have zero active users before deletion",
        ),
    ]));
    let problem = Problem::from(err);
    let json = problem_json(&problem);

    assert_eq!(
        json,
        expected(
            r#"{
            "type": "gts.cf.core.errors.err.v1~cf.core.errors.failed_precondition.v1~",
            "title": "Failed Precondition",
            "status": 400,
            "detail": "Operation precondition not met",
            "context": {
                "resource_type": "gts.cf.core.tenants.tenant.v1",
                "violations": [
                    {
                        "type": "STATE",
                        "subject": "tenant.users",
                        "description": "Tenant must have zero active users before deletion"
                    }
                ]
            }
        }"#,
        )
    );
}

#[test]
fn showcase_internal() {
    let tenant_resource_error = resource_error("gts.cf.core.tenants.tenant.v1");

    let err = tenant_resource_error.internal(DebugInfo::new(
        "An internal error occurred. Please retry later.",
    ));
    let problem = Problem::from(err);
    let json = problem_json(&problem);

    assert_eq!(
        json,
        expected(
            r#"{
            "type": "gts.cf.core.errors.err.v1~cf.core.errors.internal.v1~",
            "title": "Internal",
            "status": 500,
            "detail": "An internal error occurred. Please retry later.",
            "context": {
                "resource_type": "gts.cf.core.tenants.tenant.v1",
                "detail": "An internal error occurred. Please retry later.",
                "stack_entries": []
            }
        }"#,
        )
    );
}

#[test]
fn showcase_deadline_exceeded() {
    let user_resource_error = resource_error("gts.cf.core.users.user.v1");

    let err = user_resource_error.deadline_exceeded(RequestInfo::new("01JREQ-ABC"));
    let problem = Problem::from(err);
    let json = problem_json(&problem);

    assert_eq!(
        json,
        expected(
            r#"{
            "type": "gts.cf.core.errors.err.v1~cf.core.errors.deadline_exceeded.v1~",
            "title": "Deadline Exceeded",
            "status": 504,
            "detail": "Operation did not complete within the allowed time",
            "context": {
                "resource_type": "gts.cf.core.users.user.v1",
                "request_id": "01JREQ-ABC"
            }
        }"#,
        )
    );
}

#[test]
fn showcase_cancelled() {
    let upstream_resource_error = resource_error("gts.cf.oagw.upstreams.upstream.v1");

    let err = upstream_resource_error.cancelled(RequestInfo::new("01JREQ-DEF"));
    let problem = Problem::from(err);
    let json = problem_json(&problem);

    assert_eq!(
        json,
        expected(
            r#"{
            "type": "gts.cf.core.errors.err.v1~cf.core.errors.cancelled.v1~",
            "title": "Cancelled",
            "status": 499,
            "detail": "Operation cancelled by the client",
            "context": {
                "resource_type": "gts.cf.oagw.upstreams.upstream.v1",
                "request_id": "01JREQ-DEF"
            }
        }"#,
        )
    );
}

#[test]
fn showcase_unauthenticated() {
    let err = CanonicalError::unauthenticated(
        ErrorInfo::new("TOKEN_EXPIRED", "auth.cyberfabric.io")
            .with_metadata("expires_at", "2026-02-25T10:00:00Z"),
    );
    let problem = Problem::from(err);
    let json = problem_json(&problem);

    assert_eq!(
        json,
        expected(
            r#"{
            "type": "gts.cf.core.errors.err.v1~cf.core.errors.unauthenticated.v1~",
            "title": "Unauthenticated",
            "status": 401,
            "detail": "Authentication required",
            "context": {
                "reason": "TOKEN_EXPIRED",
                "domain": "auth.cyberfabric.io",
                "metadata": {
                    "expires_at": "2026-02-25T10:00:00Z"
                }
            }
        }"#,
        )
    );
}

#[test]
fn showcase_resource_exhausted() {
    let err = CanonicalError::resource_exhausted(QuotaFailure::new(vec![QuotaViolation::new(
        "requests_per_minute",
        "Limit of 100 requests per minute exceeded",
    )]));
    let problem = Problem::from(err);
    let json = problem_json(&problem);

    assert_eq!(
        json,
        expected(
            r#"{
            "type": "gts.cf.core.errors.err.v1~cf.core.errors.resource_exhausted.v1~",
            "title": "Resource Exhausted",
            "status": 429,
            "detail": "Quota exceeded",
            "context": {
                "violations": [
                    {
                        "subject": "requests_per_minute",
                        "description": "Limit of 100 requests per minute exceeded"
                    }
                ]
            }
        }"#,
        )
    );
}

#[test]
fn showcase_unavailable() {
    let err = CanonicalError::service_unavailable(RetryInfo::after_seconds(30));

    let problem = Problem::from(err);
    let json = problem_json(&problem);

    assert_eq!(
        json,
        expected(
            r#"{
            "type": "gts.cf.core.errors.err.v1~cf.core.errors.service_unavailable.v1~",
            "title": "Unavailable",
            "status": 503,
            "detail": "Service temporarily unavailable",
            "context": {
                "retry_after_seconds": 30
            }
        }"#,
        )
    );
}

#[test]
fn showcase_unknown() {
    let err = CanonicalError::unknown("Unexpected response from payment provider");
    let problem = Problem::from(err);
    let json = problem_json(&problem);

    assert_eq!(
        json,
        expected(
            r#"{
            "type": "gts.cf.core.errors.err.v1~cf.core.errors.unknown.v1~",
            "title": "Unknown",
            "status": 500,
            "detail": "Unexpected response from payment provider",
            "context": {
                "detail": "Unexpected response from payment provider",
                "stack_entries": []
            }
        }"#,
        )
    );
}

#[test]
fn showcase_not_found_with_debug_info() {
    let user_resource_error = resource_error("gts.cf.core.users.user.v1");

    let err = user_resource_error.not_found("user-123").with_debug_info(
        DebugInfo::new("SELECT * FROM users WHERE id = $1 returned 0 rows")
            .with_stack(vec![
                "cf_users::repo::find_by_id (src/repo.rs:42)".into(),
            ]),
    );

    // Debug mode — includes top-level "debug" key
    let debug_problem = Problem::from_error_debug(err.clone());
    let debug_json = problem_json(&debug_problem);

    assert_eq!(
        debug_json,
        expected(
            r#"{
            "type": "gts.cf.core.errors.err.v1~cf.core.errors.not_found.v1~",
            "title": "Not Found",
            "status": 404,
            "detail": "Resource not found",
            "context": {
                "resource_type": "gts.cf.core.users.user.v1",
                "resource_name": "user-123",
                "description": "Resource not found"
            },
            "debug": {
                "detail": "SELECT * FROM users WHERE id = $1 returned 0 rows",
                "stack_entries": [
                    "cf_users::repo::find_by_id (src/repo.rs:42)"
                ]
            }
        }"#,
        )
    );

    // Production mode — no "debug" key, identical to Problem::from(err)
    let prod_problem = Problem::from_error(err);
    let prod_json = problem_json(&prod_problem);

    assert_eq!(
        prod_json,
        expected(
            r#"{
            "type": "gts.cf.core.errors.err.v1~cf.core.errors.not_found.v1~",
            "title": "Not Found",
            "status": 404,
            "detail": "Resource not found",
            "context": {
                "resource_type": "gts.cf.core.users.user.v1",
                "resource_name": "user-123",
                "description": "Resource not found"
            }
        }"#,
        )
    );
}

#[test]
fn problem_json_excludes_none_fields() {
    let err = CanonicalError::service_unavailable(RetryInfo::after_seconds(30));
    let problem = Problem::from(err);
    let json = problem_json(&problem);
    assert!(json.get("trace_id").is_none());
}

#[test]
fn validation_field_violations_serialization() {
    let v = Validation::fields(vec![FieldViolation::new(
        "email",
        "must be valid",
        "INVALID_FORMAT",
    )]);
    let json = to_value(&v.to_json());
    assert!(json["field_violations"].is_array());
    assert_eq!(json["field_violations"][0]["field"], "email");
}

#[test]
fn validation_format_serialization() {
    let v = Validation::format("bad json");
    let json = to_value(&v.to_json());
    assert_eq!(json["format"], "bad json");
}

#[test]
fn validation_constraint_serialization() {
    let v = Validation::constraint("too many items");
    let json = to_value(&v.to_json());
    assert_eq!(json["constraint"], "too many items");
}

#[test]
fn problem_json_includes_resource_type_when_set() {
    let test_user_resource_error = resource_error("gts.cf.core.users.user.v1");

    let err = test_user_resource_error.not_found("user-123");
    let problem = Problem::from(err);
    let json = problem_json(&problem);
    assert_eq!(
        json["context"]["resource_type"],
        "gts.cf.core.users.user.v1"
    );
}

#[test]
fn problem_json_excludes_resource_type_when_none() {
    let err = CanonicalError::unknown("some error");
    let problem = Problem::from(err);
    let json = problem_json(&problem);
    assert!(json["context"].get("resource_type").is_none());
}

#[test]
fn problem_from_error_debug_true_includes_debug_key() {
    let err =
        CanonicalError::not_found(ResourceInfo::new("gts.cf.core.users.user.v1", "user-123"))
            .with_debug_info(DebugInfo::new("query returned 0 rows"));
    let problem = Problem::from_error_debug(err);
    let json = problem_json(&problem);
    let debug = json.get("debug").expect("debug key should be present");
    assert_eq!(debug["detail"], "query returned 0 rows");
}

#[test]
fn problem_from_error_debug_false_omits_debug_key() {
    let err =
        CanonicalError::not_found(ResourceInfo::new("gts.cf.core.users.user.v1", "user-123"))
            .with_debug_info(DebugInfo::new("query returned 0 rows"));
    let problem = Problem::from_error(err);
    let json = problem_json(&problem);
    assert!(json.get("debug").is_none(), "debug key should be absent");
}

#[test]
fn problem_from_backward_compat_omits_debug_key() {
    let err =
        CanonicalError::not_found(ResourceInfo::new("gts.cf.core.users.user.v1", "user-123"))
            .with_debug_info(DebugInfo::new("query returned 0 rows"));
    let problem = Problem::from(err);
    let json = problem_json(&problem);
    assert!(json.get("debug").is_none(), "From impl should not include debug");
}

#[test]
fn problem_from_error_false_is_byte_identical_to_from() {
    let err1 =
        CanonicalError::not_found(ResourceInfo::new("gts.cf.core.users.user.v1", "user-123"))
            .with_debug_info(DebugInfo::new("query returned 0 rows"));
    let err2 = err1.clone();
    let json_from = serde_json::to_string(&problem_json(&Problem::from(err1))).unwrap();
    let json_from_error = serde_json::to_string(&problem_json(&Problem::from_error(err2))).unwrap();
    assert_eq!(json_from, json_from_error, "from_error(err) should be byte-identical to From::from(err)");
}

#[test]
fn problem_from_error_no_debug_info_debug_true_omits_debug_key() {
    let err =
        CanonicalError::not_found(ResourceInfo::new("gts.cf.core.users.user.v1", "user-123"));
    let problem = Problem::from_error_debug(err);
    let json = problem_json(&problem);
    assert!(json.get("debug").is_none(), "no debug_info means no debug key regardless of flag");
}

#[test]
fn schema_validation() {
    let schema = to_value(&Validation::gts_schema_with_refs());
    assert_eq!(
        schema,
        expected(
            r#"{
            "$id": "gts://gts.cf.core.errors.validation.v1~",
            "$schema": "http://json-schema.org/draft-07/schema#",
            "oneOf": [
                {
                    "type": "object",
                    "properties": {
                        "field_violations": {
                            "type": "array",
                            "items": {
                                "$ref": "gts://gts.cf.core.errors.field_violation.v1~"
                            }
                        }
                    },
                    "required": ["field_violations"]
                },
                {
                    "type": "object",
                    "properties": {
                        "format": {
                            "type": "string"
                        }
                    },
                    "required": ["format"]
                },
                {
                    "type": "object",
                    "properties": {
                        "constraint": {
                            "type": "string"
                        }
                    },
                    "required": ["constraint"]
                }
            ]
        }"#,
        )
    );
}

#[test]
fn schema_canonical_error() {
    let schema = to_value(&CanonicalError::gts_schema_with_refs());

    let variant = |name: &str, ctx_ref: &str| {
        expected(&format!(
            r#"{{
                "type": "object",
                "properties": {{
                    "category": {{ "const": "{name}" }},
                    "message": {{ "type": "string" }},
                    "resource_type": {{ "type": "string" }},
                    "context": {{ "$ref": "{ctx_ref}" }}
                }},
                "required": ["category", "message", "context"]
            }}"#
        ))
    };

    let mut whole = serde_json::Map::new();
    whole.insert(
        "$id".to_string(),
        Value::String("gts://gts.cf.core.errors.canonical_error.v1~".to_string()),
    );
    whole.insert(
        "$schema".to_string(),
        Value::String("http://json-schema.org/draft-07/schema#".to_string()),
    );
    whole.insert(
        "oneOf".to_string(),
        Value::Array(vec![
            variant("cancelled", "gts://gts.cf.core.errors.request_info.v1~"),
            variant("unknown", "gts://gts.cf.core.errors.debug_info.v1~"),
            variant("invalid_argument", "gts://gts.cf.core.errors.validation.v1~"),
            variant("deadline_exceeded", "gts://gts.cf.core.errors.request_info.v1~"),
            variant("not_found", "gts://gts.cf.core.errors.resource_info.v1~"),
            variant("already_exists", "gts://gts.cf.core.errors.resource_info.v1~"),
            variant("permission_denied", "gts://gts.cf.core.errors.error_info.v1~"),
            variant("resource_exhausted", "gts://gts.cf.core.errors.quota_failure.v1~"),
            variant("failed_precondition", "gts://gts.cf.core.errors.precondition_failure.v1~"),
            variant("aborted", "gts://gts.cf.core.errors.error_info.v1~"),
            variant("out_of_range", "gts://gts.cf.core.errors.validation.v1~"),
            variant("unimplemented", "gts://gts.cf.core.errors.error_info.v1~"),
            variant("internal", "gts://gts.cf.core.errors.debug_info.v1~"),
            variant("unavailable", "gts://gts.cf.core.errors.retry_info.v1~"),
            variant("data_loss", "gts://gts.cf.core.errors.resource_info.v1~"),
            variant("unauthenticated", "gts://gts.cf.core.errors.error_info.v1~"),
        ]),
    );
    assert_eq!(schema, Value::Object(whole));
}
