use canonical_errors::{
    parse_category, resource_error, CanonicalError, DebugInfo, ErrorInfo, FieldViolation, Json,
    Payload, PreconditionFailure, PreconditionViolation, Problem, ProblemConversionError,
    QuotaFailure, QuotaViolation, RequestInfo, ResourceInfo, RetryInfo, RetryInfoV1, ShapeError,
    ShapeErrorKind, Validation,
};

fn fault<T>(r: Result<T, ShapeError>) -> (ShapeErrorKind, String) {
    match r {
        Ok(_) => panic!("expected a shape error"),
        Err(e) => (e.kind, e.field),
    }
}

fn s(text: &str) -> Json {
    Json::Str(text.to_string())
}

fn obj(members: Vec<(&str, Json)>) -> Json {
    Json::Object(members.into_iter().map(|(k, v)| (k.to_string(), v)).collect())
}

fn member<'a>(j: &'a Json, key: &str) -> Option<&'a Json> {
    match j {
        Json::Object(ms) => ms.iter().find(|(k, _)| k == key).map(|(_, v)| v),
        _ => None,
    }
}

fn problem_with(problem_type: &str, context: Json, debug: Option<Json>) -> Problem {
    Problem {
        problem_type: problem_type.to_string(),
        title: "T".to_string(),
        status: 500,
        detail: "d".to_string(),
        instance: None,
        trace_id: None,
        context,
        debug,
    }
}

fn all_categories() -> Vec<CanonicalError> {
    vec![
        CanonicalError::cancelled(RequestInfo::new("req-1")),
        CanonicalError::unknown("unknown error"),
        CanonicalError::invalid_argument(Validation::fields(vec![FieldViolation::new(
            "email", "is required", "REQUIRED",
        )])),
        CanonicalError::deadline_exceeded(RequestInfo::new("req-2")),
        CanonicalError::not_found(ResourceInfo::new("t", "n")),
        CanonicalError::already_exists(ResourceInfo::new("t", "n")),
        CanonicalError::permission_denied(ErrorInfo::new("R", "D").with_metadata("k", "v")),
        CanonicalError::resource_exhausted(QuotaFailure::new(vec![QuotaViolation::new("s", "d")])),
        CanonicalError::failed_precondition(PreconditionFailure::new(vec![
            PreconditionViolation::new("STATE", "s", "d"),
        ])),
        CanonicalError::aborted(ErrorInfo::new("R", "D")),
        CanonicalError::out_of_range(Validation::constraint("x")),
        CanonicalError::unimplemented(ErrorInfo::new("R", "D")),
        CanonicalError::internal(DebugInfo::new("bug")),
        CanonicalError::service_unavailable(RetryInfo::after_seconds(10)),
        CanonicalError::data_loss(ResourceInfo::new("t", "n")),
        CanonicalError::unauthenticated(ErrorInfo::new("R", "D")),
    ]
}

#[test]
fn every_category_round_trips_with_tag_and_debug() {
    for err in all_categories() {
        let tagged = err
            .with_resource_type("X")
            .with_debug_info(DebugInfo::new("why").with_stack(vec!["a".to_string()]));
        let back = CanonicalError::try_from(Problem::from_error_debug(tagged.clone())).unwrap();
        assert_eq!(back.gts_type(), tagged.gts_type());
        assert_eq!(back.status_code(), tagged.status_code());
        assert_eq!(back.message(), tagged.message());
        assert_eq!(back.resource_type(), Some("X"));
        let d = back.debug_info().unwrap();
        assert_eq!(d.detail, "why");
        assert_eq!(d.stack_entries, vec!["a"]);
        let prod = CanonicalError::try_from(Problem::from_error(tagged)).unwrap();
        assert!(prod.debug_info().is_none());
    }
}

#[test]
fn debug_document_is_production_document_plus_debug_member() {
    let err = CanonicalError::internal(DebugInfo::new("bug"))
        .with_debug_info(DebugInfo::new("trace").with_stack(vec!["f.rs:1".to_string()]));
    let production = Problem::from_error(err.clone()).to_json();
    let debug = Problem::from_error_debug(err).to_json();
    assert!(member(&production, "debug").is_none());
    let (Json::Object(p), Json::Object(d)) = (&production, &debug) else {
        panic!("documents are objects")
    };
    assert_eq!(d.len(), p.len() + 1);
    assert_eq!(&d[..p.len()], &p[..]);
    assert_eq!(d[p.len()].0, "debug");
    assert_eq!(
        d[p.len()].1,
        obj(vec![("detail", s("trace")), ("stack_entries", Json::Array(vec![s("f.rs:1")]))])
    );
}

#[test]
fn tag_is_injected_and_overwrites_own_field() {
    let err = CanonicalError::not_found(ResourceInfo::new("own", "n")).with_resource_type("X");
    let problem = Problem::from(err);
    assert_eq!(member(&problem.context, "resource_type"), Some(&s("X")));
    let Json::Object(ms) = &problem.context else { panic!("context is an object") };
    assert_eq!(ms.iter().filter(|(k, _)| k == "resource_type").count(), 1);

    let untagged = Problem::from(CanonicalError::unknown("e"));
    assert!(member(&untagged.context, "resource_type").is_none());
    let appended = Problem::from(CanonicalError::unknown("e").with_resource_type("Y"));
    assert_eq!(member(&appended.context, "resource_type"), Some(&s("Y")));
}

#[test]
fn categories_have_distinct_uris_and_table_statuses() {
    let expected: Vec<(&str, u16, &str)> = vec![
        ("cancelled", 499, "Cancelled"),
        ("unknown", 500, "Unknown"),
        ("invalid_argument", 400, "Invalid Argument"),
        ("deadline_exceeded", 504, "Deadline Exceeded"),
        ("not_found", 404, "Not Found"),
        ("already_exists", 409, "Already Exists"),
        ("permission_denied", 403, "Permission Denied"),
        ("resource_exhausted", 429, "Resource Exhausted"),
        ("failed_precondition", 400, "Failed Precondition"),
        ("aborted", 409, "Aborted"),
        ("out_of_range", 400, "Out of Range"),
        ("unimplemented", 501, "Unimplemented"),
        ("internal", 500, "Internal"),
        ("service_unavailable", 503, "Unavailable"),
        ("data_loss", 500, "Data Loss"),
        ("unauthenticated", 401, "Unauthenticated"),
    ];
    let errors = all_categories();
    let mut uris: Vec<&str> = Vec::new();
    for (err, (name, status, title)) in errors.iter().zip(expected.iter()) {
        assert_eq!(err.gts_type(), format!("gts.cf.core.errors.err.v1~cf.core.errors.{name}.v1~"));
        assert_eq!(parse_category(err.gts_type()).unwrap(), *name);
        assert_eq!(err.status_code(), *status);
        assert_eq!(err.title(), *title);
        uris.push(err.gts_type());
    }
    let mut sorted = uris.clone();
    sorted.sort();
    sorted.dedup();
    assert_eq!(sorted.len(), 16);
}

#[test]
fn malformed_inputs_are_rejected_with_their_kind() {
    match CanonicalError::try_from(problem_with("not-a-uri", obj(vec![]), None)) {
        Err(ProblemConversionError::InvalidType(t)) => assert_eq!(t, "not-a-uri"),
        other => panic!("expected InvalidType, got {other:?}"),
    }
    match CanonicalError::try_from(problem_with(
        "gts.cf.core.errors.err.v1~cf.core.errors.nonexistent.v1~",
        obj(vec![]),
        None,
    )) {
        Err(ProblemConversionError::UnknownCategory(c)) => assert_eq!(c, "nonexistent"),
        other => panic!("expected UnknownCategory, got {other:?}"),
    }
    match CanonicalError::try_from(problem_with(
        "gts.cf.core.errors.err.v1~cf.core.errors.not_found.v1~",
        obj(vec![("unexpected", s("shape"))]),
        None,
    )) {
        Err(ProblemConversionError::ContextDeserializationFailed { category, payload, source }) => {
            assert_eq!(category, "not_found");
            assert_eq!(payload, Payload::Context);
            assert_eq!(source.kind, ShapeErrorKind::MissingField);
            assert_eq!(source.field, "resource_type");
        }
        other => panic!("expected ContextDeserializationFailed, got {other:?}"),
    }
}

#[test]
fn malformed_debug_payload_is_reported_under_the_category() {
    let problem = problem_with(
        "gts.cf.core.errors.err.v1~cf.core.errors.internal.v1~",
        obj(vec![("detail", s("x")), ("stack_entries", Json::Array(vec![]))]),
        Some(obj(vec![("detail", Json::UInt(3))])),
    );
    match CanonicalError::try_from(problem) {
        Err(ProblemConversionError::ContextDeserializationFailed { category, payload, source }) => {
            assert_eq!(category, "internal");
            assert_eq!(payload, Payload::Debug);
            assert_eq!(source.kind, ShapeErrorKind::InvalidField);
            assert_eq!(source.field, "detail");
        }
        other => panic!("expected a debug failure, got {other:?}"),
    }
}

#[test]
fn type_uri_edges() {
    assert_eq!(parse_category("gts.cf.core.errors.err.v1~cf.core.errors..v1~").unwrap(), "");
    assert!(matches!(
        parse_category("gts.cf.core.errors.err.v1~cf.core.errors.v1~"),
        Err(ProblemConversionError::InvalidType(_))
    ));
    assert!(matches!(
        parse_category("gts.cf.core.errors.err.v1~cf.core.errors.not_found.v2~"),
        Err(ProblemConversionError::InvalidType(_))
    ));
    assert!(matches!(parse_category(""), Err(ProblemConversionError::InvalidType(_))));
    match CanonicalError::try_from(problem_with(
        "gts.cf.core.errors.err.v1~cf.core.errors..v1~",
        obj(vec![]),
        None,
    )) {
        Err(ProblemConversionError::UnknownCategory(c)) => assert_eq!(c, ""),
        other => panic!("expected UnknownCategory, got {other:?}"),
    }
}

#[test]
fn generated_not_found_equals_manual_construction() {
    let generated = resource_error("R").not_found("n");
    let manual = CanonicalError::not_found(ResourceInfo::new("R", "n")).with_resource_type("R");
    assert_eq!(generated.gts_type(), manual.gts_type());
    assert_eq!(generated.message(), manual.message());
    assert_eq!(generated.resource_type(), manual.resource_type());
    assert_eq!(generated.context_json(), manual.context_json());
    assert!(generated.debug_info().is_none() && manual.debug_info().is_none());
}

#[test]
fn generated_constructors_tag_every_category() {
    let g = resource_error("R");
    let errors = vec![
        g.cancelled(RequestInfo::new("r")),
        g.unknown("u"),
        g.invalid_argument(Validation::format("f")),
        g.deadline_exceeded(RequestInfo::new("r")),
        g.not_found("n"),
        g.already_exists("n"),
        g.permission_denied(ErrorInfo::new("a", "b")),
        g.resource_exhausted(QuotaFailure::new(vec![])),
        g.failed_precondition(PreconditionFailure::new(vec![])),
        g.aborted(ErrorInfo::new("a", "b")),
        g.out_of_range(Validation::fields(vec![])),
        g.unimplemented(ErrorInfo::new("a", "b")),
        g.internal(DebugInfo::new("i")),
        g.service_unavailable(RetryInfo::after_seconds(1)),
        g.data_loss("n"),
        g.unauthenticated(ErrorInfo::new("a", "b")),
    ];
    for (e, plain) in errors.iter().zip(all_categories().iter()) {
        assert_eq!(e.resource_type(), Some("R"));
        assert_eq!(e.gts_type(), plain.gts_type());
    }
    assert_eq!(errors[5].message(), "Resource already exists");
    assert_eq!(errors[14].message(), "Data loss detected");
    assert_eq!(errors[10].message(), "Value out of range");
    assert_eq!(errors[2].message(), "f");
}

#[test]
fn metadata_keeps_keys_distinct() {
    let info = ErrorInfo::new("R", "D")
        .with_metadata("a", "1")
        .with_metadata("b", "2")
        .with_metadata("a", "3");
    assert_eq!(
        info.metadata,
        vec![("a".to_string(), "3".to_string()), ("b".to_string(), "2".to_string())]
    );
    let read = ErrorInfo::from_json(&obj(vec![
        ("reason", s("R")),
        ("domain", s("D")),
        ("metadata", obj(vec![("k", s("1")), ("j", s("2")), ("k", s("3"))])),
    ]))
    .unwrap();
    assert_eq!(
        read.metadata,
        vec![("k".to_string(), "3".to_string()), ("j".to_string(), "2".to_string())]
    );
    assert_eq!(
        fault(ErrorInfo::from_json(&obj(vec![
            ("reason", s("R")),
            ("domain", s("D")),
            ("metadata", obj(vec![("k", Json::UInt(1))])),
        ]))),
        (ShapeErrorKind::InvalidField, "metadata".to_string())
    );
    assert_eq!(
        fault(ErrorInfo::from_json(&obj(vec![("domain", s("D"))]))),
        (ShapeErrorKind::MissingField, "reason".to_string())
    );
}

#[test]
fn validation_shapes_are_tried_in_order() {
    let both = obj(vec![("constraint", s("c")), ("format", s("f"))]);
    assert!(matches!(Validation::from_json(&both), Ok(Validation::Format { format }) if format == "f"));
    let bad_list = obj(vec![("field_violations", s("no")), ("constraint", s("c"))]);
    assert!(matches!(
        Validation::from_json(&bad_list),
        Ok(Validation::Constraint { constraint }) if constraint == "c"
    ));
    assert_eq!(
        fault(Validation::from_json(&obj(vec![]))),
        (ShapeErrorKind::NoMatchingShape, String::new())
    );
    let err = CanonicalError::invalid_argument(Validation::format("bad json"));
    assert_eq!(err.message(), "bad json");
    let err = CanonicalError::out_of_range(Validation::fields(vec![]));
    assert_eq!(err.message(), "Value out of range");
}

#[test]
fn context_readers_check_types() {
    assert_eq!(RetryInfoV1::from_json(&obj(vec![("retry_after_seconds", Json::UInt(7))])).unwrap().retry_after_seconds, 7);
    let invalid = |f: &str| (ShapeErrorKind::InvalidField, f.to_string());
    let missing = |f: &str| (ShapeErrorKind::MissingField, f.to_string());
    assert_eq!(fault(RetryInfo::from_json(&obj(vec![("retry_after_seconds", Json::NegInt(-1))]))), invalid("retry_after_seconds"));
    assert_eq!(fault(RetryInfo::from_json(&obj(vec![("retry_after_seconds", s("7"))]))), invalid("retry_after_seconds"));
    assert_eq!(fault(RetryInfo::from_json(&obj(vec![]))), missing("retry_after_seconds"));
    assert_eq!(fault(RequestInfo::from_json(&s("req"))), (ShapeErrorKind::NotAnObject, String::new()));
    assert_eq!(fault(DebugInfo::from_json(&obj(vec![("detail", s("d"))]))), missing("stack_entries"));
    assert_eq!(fault(DebugInfo::from_json(&obj(vec![("detail", s("d")), ("stack_entries", Json::Array(vec![Json::Null]))]))), invalid("stack_entries"));
    assert_eq!(fault(QuotaFailure::from_json(&obj(vec![("violations", Json::Array(vec![obj(vec![("subject", s("s"))])]))]))), invalid("violations"));
    assert_eq!(fault(ResourceInfo::from_json(&obj(vec![("resource_type", s("t")), ("resource_name", Json::Null)]))), invalid("resource_name"));
    let pv = PreconditionViolation::from_json(&obj(vec![("type", s("T")), ("subject", s("S")), ("description", s("D")), ("extra", Json::Null)])).unwrap();
    assert_eq!(pv.precondition_type, "T");
}

#[test]
fn problem_documents_read_optional_fields() {
    let doc = |extra: Vec<(&str, Json)>| {
        let mut ms = vec![
            ("type", s("t")),
            ("title", s("T")),
            ("status", Json::UInt(404)),
            ("detail", s("d")),
            ("context", obj(vec![])),
        ];
        ms.extend(extra);
        obj(ms)
    };
    let p = Problem::from_json(&doc(vec![("instance", Json::Null), ("trace_id", s("tr"))])).unwrap();
    assert_eq!(p.instance, None);
    assert_eq!(p.trace_id, Some("tr".to_string()));
    assert!(p.debug.is_none());
    assert!(Problem::from_json(&doc(vec![("trace_id", Json::UInt(1))])).is_none());
    assert!(Problem::from_json(&obj(vec![("type", s("t")), ("title", s("T")), ("status", Json::UInt(70000)), ("detail", s("d")), ("context", Json::Null)])).is_none());
    assert!(Problem::from_json(&obj(vec![("type", s("t")), ("title", s("T")), ("status", Json::UInt(1)), ("detail", s("d"))])).is_none());
    let with_debug = Problem::from_json(&doc(vec![("debug", obj(vec![]))])).unwrap();
    assert_eq!(with_debug.debug, Some(obj(vec![])));
    let written = p.to_json();
    assert_eq!(member(&written, "instance"), None);
    assert_eq!(member(&written, "trace_id"), Some(&s("tr")));
}

#[test]
fn conversion_errors_read_as_text() {
    assert_eq!(
        ProblemConversionError::InvalidType("x".to_string()).to_string(),
        "invalid GTS type URI: x"
    );
    assert_eq!(
        ProblemConversionError::UnknownCategory("y".to_string()).to_string(),
        "unknown canonical error category: y"
    );
    assert_eq!(
        ProblemConversionError::ContextDeserializationFailed {
            category: "not_found".to_string(),
            payload: Payload::Context,
            source: ShapeError {
                kind: ShapeErrorKind::MissingField,
                field: "resource_type".to_string(),
            },
        }
        .to_string(),
        "failed to deserialize context for not_found: missing field `resource_type`"
    );
    assert_eq!(
        ProblemConversionError::ContextDeserializationFailed {
            category: "internal".to_string(),
            payload: Payload::Debug,
            source: ShapeError { kind: ShapeErrorKind::NotAnObject, field: String::new() },
        }
        .to_string(),
        "failed to deserialize context for internal: expected an object"
    );
    assert_eq!(
        CanonicalError::service_unavailable(RetryInfo::after_seconds(1)).to_string(),
        "unavailable: Service temporarily unavailable"
    );
}

#[test]
fn written_document_reads_back() {
    let mut problem = Problem::from_error_debug(
        CanonicalError::aborted(ErrorInfo::new("LOCK", "d").with_metadata("v", "3"))
            .with_resource_type("R")
            .with_debug_info(DebugInfo::new("why")),
    );
    problem.instance = Some("/things/1".to_string());
    let back = Problem::from_json(&problem.to_json()).unwrap();
    assert_eq!(back.problem_type, problem.problem_type);
    assert_eq!(back.title, problem.title);
    assert_eq!(back.status, 409);
    assert_eq!(back.detail, problem.detail);
    assert_eq!(back.instance, Some("/things/1".to_string()));
    assert_eq!(back.trace_id, None);
    assert_eq!(back.context, problem.context);
    assert_eq!(back.debug, problem.debug);

    problem.debug = Some(Json::Null);
    let back = Problem::from_json(&problem.to_json()).unwrap();
    assert_eq!(back.debug, None);
}

#[test]
fn steps_fail_in_order_uri_category_context_debug() {
    let bad_debug = Some(Json::Null);
    match CanonicalError::try_from(problem_with(
        "gts.cf.core.errors.err.v1~cf.core.errors.nonexistent.v1~",
        obj(vec![]),
        bad_debug,
    )) {
        Err(ProblemConversionError::UnknownCategory(c)) => assert_eq!(c, "nonexistent"),
        other => panic!("expected UnknownCategory, got {other:?}"),
    }
    match CanonicalError::try_from(problem_with(
        "gts.cf.core.errors.err.v1~cf.core.errors.cancelled.v1~",
        obj(vec![]),
        Some(Json::Null),
    )) {
        Err(ProblemConversionError::ContextDeserializationFailed { category, payload, source }) => {
            assert_eq!(category, "cancelled");
            assert_eq!(payload, Payload::Context);
            assert_eq!(source.field, "request_id");
        }
        other => panic!("expected a context failure, got {other:?}"),
    }
    match CanonicalError::try_from(problem_with(
        "gts.cf.core.errors.err.v1~cf.core.errors.cancelled.v1~",
        obj(vec![("request_id", s("r"))]),
        Some(Json::Null),
    )) {
        Err(ProblemConversionError::ContextDeserializationFailed { payload, source, .. }) => {
            assert_eq!(payload, Payload::Debug);
            assert_eq!(source.kind, ShapeErrorKind::NotAnObject);
        }
        other => panic!("expected a debug failure, got {other:?}"),
    }
}

#[test]
fn default_conversion_is_available_through_into() {
    let err = CanonicalError::not_found(ResourceInfo::new("t", "n"));
    let via_into: Problem = err.clone().into();
    let via_from_error = Problem::from_error(err);
    assert_eq!(via_into.to_json(), via_from_error.to_json());
}
