//! A canonical error taxonomy: sixteen error categories, each bound to a
//! context type, and a lossless two-way mapping between those errors and the
//! JSON problem documents that carry them over the wire.

pub mod category;
pub mod context;
pub mod error;
pub mod json;
pub mod laws;
pub mod problem;
pub mod resource;
pub mod schema;

pub use category::Category;
pub use context::{
    ShapeError, ShapeErrorKind,
    DebugInfo, DebugInfoV1, ErrorInfo, ErrorInfoV1, FieldViolation, FieldViolationV1,
    PreconditionFailure, PreconditionFailureV1, PreconditionViolation, PreconditionViolationV1,
    QuotaFailure, QuotaFailureV1, QuotaViolation, QuotaViolationV1, RequestInfo, RequestInfoV1,
    ResourceInfo, ResourceInfoV1, RetryInfo, RetryInfoV1, Validation,
};
pub use error::CanonicalError;
pub use json::Json;
pub use problem::{parse_category, Payload, Problem, ProblemConversionError};
pub use resource::{resource_error, ResourceErrors};
