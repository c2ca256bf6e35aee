use vstd::prelude::*;
use vstd::string::StringExecFns;

use crate::category::Category;
use crate::context::{
    DebugInfo, DebugInfoV1, ErrorInfo, ErrorInfoV1, PreconditionFailure, PreconditionFailureV1,
    QuotaFailure, QuotaFailureV1, RequestInfo, RequestInfoV1, ResourceInfo, ResourceInfoV1,
    RetryInfo, RetryInfoV1, Validation,
};
use crate::json::{text, Json, JsonModel};

verus! {

/// The message an error built from a validation context starts with: the
/// format or constraint text, or `generic` for a list of field violations.
pub open spec fn validation_message(v: Validation, generic: Seq<char>) -> Seq<char> {
    match v {
        Validation::FieldViolations { .. } => generic,
        Validation::Format { format } => format@,
        Validation::Constraint { constraint } => constraint@,
    }
}

fn message_for(v: &Validation, generic: &str) -> (r: String)
    ensures
        r@ == validation_message(*v, generic@),
{
    match v {
        Validation::FieldViolations { .. } => text(generic),
        Validation::Format { format } => format.clone(),
        Validation::Constraint { constraint } => constraint.clone(),
    }
}

/// A canonical error: one of sixteen categories, each with the context type
/// bound to it, a message, an optional resource-type tag and optional debug
/// detail.
#[derive(Debug, Clone)]
pub enum CanonicalError {
    Cancelled {
        ctx: RequestInfo,
        message: String,
        resource_type: Option<String>,
        debug_info: Option<DebugInfo>,
    },
    Unknown {
        ctx: DebugInfo,
        message: String,
        resource_type: Option<String>,
        debug_info: Option<DebugInfo>,
    },
    InvalidArgument {
        ctx: Validation,
        message: String,
        resource_type: Option<String>,
        debug_info: Option<DebugInfo>,
    },
    DeadlineExceeded {
        ctx: RequestInfo,
        message: String,
        resource_type: Option<String>,
        debug_info: Option<DebugInfo>,
    },
    NotFound {
        ctx: ResourceInfo,
        message: String,
        resource_type: Option<String>,
        debug_info: Option<DebugInfo>,
    },
    AlreadyExists {
        ctx: ResourceInfo,
        message: String,
        resource_type: Option<String>,
        debug_info: Option<DebugInfo>,
    },
    PermissionDenied {
        ctx: ErrorInfo,
        message: String,
        resource_type: Option<String>,
        debug_info: Option<DebugInfo>,
    },
    ResourceExhausted {
        ctx: QuotaFailure,
        message: String,
        resource_type: Option<String>,
        debug_info: Option<DebugInfo>,
    },
    FailedPrecondition {
        ctx: PreconditionFailure,
        message: String,
        resource_type: Option<String>,
        debug_info: Option<DebugInfo>,
    },
    Aborted {
        ctx: ErrorInfo,
        message: String,
        resource_type: Option<String>,
        debug_info: Option<DebugInfo>,
    },
    OutOfRange {
        ctx: Validation,
        message: String,
        resource_type: Option<String>,
        debug_info: Option<DebugInfo>,
    },
    Unimplemented {
        ctx: ErrorInfo,
        message: String,
        resource_type: Option<String>,
        debug_info: Option<DebugInfo>,
    },
    Internal {
        ctx: DebugInfo,
        message: String,
        resource_type: Option<String>,
        debug_info: Option<DebugInfo>,
    },
    ServiceUnavailable {
        ctx: RetryInfo,
        message: String,
        resource_type: Option<String>,
        debug_info: Option<DebugInfo>,
    },
    DataLoss {
        ctx: ResourceInfo,
        message: String,
        resource_type: Option<String>,
        debug_info: Option<DebugInfo>,
    },
    Unauthenticated {
        ctx: ErrorInfo,
        message: String,
        resource_type: Option<String>,
        debug_info: Option<DebugInfo>,
    },
}

impl CanonicalError {
    /// The identifier of the canonical error's schema.
    pub const SCHEMA_ID: &'static str = "gts.cf.core.errors.canonical_error.v1~";

    pub open spec fn spec_category(&self) -> Category {
        match self {
            CanonicalError::Cancelled { .. } => Category::Cancelled,
            CanonicalError::Unknown { .. } => Category::Unknown,
            CanonicalError::InvalidArgument { .. } => Category::InvalidArgument,
            CanonicalError::DeadlineExceeded { .. } => Category::DeadlineExceeded,
            CanonicalError::NotFound { .. } => Category::NotFound,
            CanonicalError::AlreadyExists { .. } => Category::AlreadyExists,
            CanonicalError::PermissionDenied { .. } => Category::PermissionDenied,
            CanonicalError::ResourceExhausted { .. } => Category::ResourceExhausted,
            CanonicalError::FailedPrecondition { .. } => Category::FailedPrecondition,
            CanonicalError::Aborted { .. } => Category::Aborted,
            CanonicalError::OutOfRange { .. } => Category::OutOfRange,
            CanonicalError::Unimplemented { .. } => Category::Unimplemented,
            CanonicalError::Internal { .. } => Category::Internal,
            CanonicalError::ServiceUnavailable { .. } => Category::ServiceUnavailable,
            CanonicalError::DataLoss { .. } => Category::DataLoss,
            CanonicalError::Unauthenticated { .. } => Category::Unauthenticated,
        }
    }

    pub open spec fn spec_message(&self) -> Seq<char> {
        match self {
            CanonicalError::Cancelled { message, .. } => message@,
            CanonicalError::Unknown { message, .. } => message@,
            CanonicalError::InvalidArgument { message, .. } => message@,
            CanonicalError::DeadlineExceeded { message, .. } => message@,
            CanonicalError::NotFound { message, .. } => message@,
            CanonicalError::AlreadyExists { message, .. } => message@,
            CanonicalError::PermissionDenied { message, .. } => message@,
            CanonicalError::ResourceExhausted { message, .. } => message@,
            CanonicalError::FailedPrecondition { message, .. } => message@,
            CanonicalError::Aborted { message, .. } => message@,
            CanonicalError::OutOfRange { message, .. } => message@,
            CanonicalError::Unimplemented { message, .. } => message@,
            CanonicalError::Internal { message, .. } => message@,
            CanonicalError::ServiceUnavailable { message, .. } => message@,
            CanonicalError::DataLoss { message, .. } => message@,
            CanonicalError::Unauthenticated { message, .. } => message@,
        }
    }

    pub open spec fn spec_resource_type(&self) -> Option<Seq<char>> {
        let rt = match self {
            CanonicalError::Cancelled { resource_type, .. } => resource_type,
            CanonicalError::Unknown { resource_type, .. } => resource_type,
            CanonicalError::InvalidArgument { resource_type, .. } => resource_type,
            CanonicalError::DeadlineExceeded { resource_type, .. } => resource_type,
            CanonicalError::NotFound { resource_type, .. } => resource_type,
            CanonicalError::AlreadyExists { resource_type, .. } => resource_type,
            CanonicalError::PermissionDenied { resource_type, .. } => resource_type,
            CanonicalError::ResourceExhausted { resource_type, .. } => resource_type,
            CanonicalError::FailedPrecondition { resource_type, .. } => resource_type,
            CanonicalError::Aborted { resource_type, .. } => resource_type,
            CanonicalError::OutOfRange { resource_type, .. } => resource_type,
            CanonicalError::Unimplemented { resource_type, .. } => resource_type,
            CanonicalError::Internal { resource_type, .. } => resource_type,
            CanonicalError::ServiceUnavailable { resource_type, .. } => resource_type,
            CanonicalError::DataLoss { resource_type, .. } => resource_type,
            CanonicalError::Unauthenticated { resource_type, .. } => resource_type,
        };
        match rt {
            Some(s) => Some(s@),
            None => None,
        }
    }

    pub open spec fn spec_debug_info(&self) -> Option<DebugInfo> {
        match self {
            CanonicalError::Cancelled { debug_info, .. } => *debug_info,
            CanonicalError::Unknown { debug_info, .. } => *debug_info,
            CanonicalError::InvalidArgument { debug_info, .. } => *debug_info,
            CanonicalError::DeadlineExceeded { debug_info, .. } => *debug_info,
            CanonicalError::NotFound { debug_info, .. } => *debug_info,
            CanonicalError::AlreadyExists { debug_info, .. } => *debug_info,
            CanonicalError::PermissionDenied { debug_info, .. } => *debug_info,
            CanonicalError::ResourceExhausted { debug_info, .. } => *debug_info,
            CanonicalError::FailedPrecondition { debug_info, .. } => *debug_info,
            CanonicalError::Aborted { debug_info, .. } => *debug_info,
            CanonicalError::OutOfRange { debug_info, .. } => *debug_info,
            CanonicalError::Unimplemented { debug_info, .. } => *debug_info,
            CanonicalError::Internal { debug_info, .. } => *debug_info,
            CanonicalError::ServiceUnavailable { debug_info, .. } => *debug_info,
            CanonicalError::DataLoss { debug_info, .. } => *debug_info,
            CanonicalError::Unauthenticated { debug_info, .. } => *debug_info,
        }
    }

    /// The wire form of the error's context.
    pub open spec fn spec_context(&self) -> JsonModel {
        match self {
            CanonicalError::Cancelled { ctx, .. } => ctx.encoded(),
            CanonicalError::Unknown { ctx, .. } => ctx.encoded(),
            CanonicalError::InvalidArgument { ctx, .. } => ctx.encoded(),
            CanonicalError::DeadlineExceeded { ctx, .. } => ctx.encoded(),
            CanonicalError::NotFound { ctx, .. } => ctx.encoded(),
            CanonicalError::AlreadyExists { ctx, .. } => ctx.encoded(),
            CanonicalError::PermissionDenied { ctx, .. } => ctx.encoded(),
            CanonicalError::ResourceExhausted { ctx, .. } => ctx.encoded(),
            CanonicalError::FailedPrecondition { ctx, .. } => ctx.encoded(),
            CanonicalError::Aborted { ctx, .. } => ctx.encoded(),
            CanonicalError::OutOfRange { ctx, .. } => ctx.encoded(),
            CanonicalError::Unimplemented { ctx, .. } => ctx.encoded(),
            CanonicalError::Internal { ctx, .. } => ctx.encoded(),
            CanonicalError::ServiceUnavailable { ctx, .. } => ctx.encoded(),
            CanonicalError::DataLoss { ctx, .. } => ctx.encoded(),
            CanonicalError::Unauthenticated { ctx, .. } => ctx.encoded(),
        }
    }

    /// Whether `self` holds the context that `m` reads as.
    pub open spec fn context_decoded_from(&self, m: JsonModel) -> bool {
        match self {
            CanonicalError::Cancelled { ctx, .. } => ctx.decoded_from(m),
            CanonicalError::Unknown { ctx, .. } => ctx.decoded_from(m),
            CanonicalError::InvalidArgument { ctx, .. } => ctx.decoded_from(m),
            CanonicalError::DeadlineExceeded { ctx, .. } => ctx.decoded_from(m),
            CanonicalError::NotFound { ctx, .. } => ctx.decoded_from(m),
            CanonicalError::AlreadyExists { ctx, .. } => ctx.decoded_from(m),
            CanonicalError::PermissionDenied { ctx, .. } => ctx.decoded_from(m),
            CanonicalError::ResourceExhausted { ctx, .. } => ctx.decoded_from(m),
            CanonicalError::FailedPrecondition { ctx, .. } => ctx.decoded_from(m),
            CanonicalError::Aborted { ctx, .. } => ctx.decoded_from(m),
            CanonicalError::OutOfRange { ctx, .. } => ctx.decoded_from(m),
            CanonicalError::Unimplemented { ctx, .. } => ctx.decoded_from(m),
            CanonicalError::Internal { ctx, .. } => ctx.decoded_from(m),
            CanonicalError::ServiceUnavailable { ctx, .. } => ctx.decoded_from(m),
            CanonicalError::DataLoss { ctx, .. } => ctx.decoded_from(m),
            CanonicalError::Unauthenticated { ctx, .. } => ctx.decoded_from(m),
        }
    }

    /// Whether `other` is of the same category as `self` with an equal context.
    pub open spec fn same_context(&self, other: &Self) -> bool {
        match (self, other) {
            (CanonicalError::Cancelled { ctx: a, .. }, CanonicalError::Cancelled { ctx: b, .. }) => a == b,
            (CanonicalError::Unknown { ctx: a, .. }, CanonicalError::Unknown { ctx: b, .. }) => a == b,
            (CanonicalError::InvalidArgument { ctx: a, .. }, CanonicalError::InvalidArgument { ctx: b, .. }) => a == b,
            (CanonicalError::DeadlineExceeded { ctx: a, .. }, CanonicalError::DeadlineExceeded { ctx: b, .. }) => a == b,
            (CanonicalError::NotFound { ctx: a, .. }, CanonicalError::NotFound { ctx: b, .. }) => a == b,
            (CanonicalError::AlreadyExists { ctx: a, .. }, CanonicalError::AlreadyExists { ctx: b, .. }) => a == b,
            (CanonicalError::PermissionDenied { ctx: a, .. }, CanonicalError::PermissionDenied { ctx: b, .. }) => a == b,
            (CanonicalError::ResourceExhausted { ctx: a, .. }, CanonicalError::ResourceExhausted { ctx: b, .. }) => a == b,
            (CanonicalError::FailedPrecondition { ctx: a, .. }, CanonicalError::FailedPrecondition { ctx: b, .. }) => a == b,
            (CanonicalError::Aborted { ctx: a, .. }, CanonicalError::Aborted { ctx: b, .. }) => a == b,
            (CanonicalError::OutOfRange { ctx: a, .. }, CanonicalError::OutOfRange { ctx: b, .. }) => a == b,
            (CanonicalError::Unimplemented { ctx: a, .. }, CanonicalError::Unimplemented { ctx: b, .. }) => a == b,
            (CanonicalError::Internal { ctx: a, .. }, CanonicalError::Internal { ctx: b, .. }) => a == b,
            (CanonicalError::ServiceUnavailable { ctx: a, .. }, CanonicalError::ServiceUnavailable { ctx: b, .. }) => a == b,
            (CanonicalError::DataLoss { ctx: a, .. }, CanonicalError::DataLoss { ctx: b, .. }) => a == b,
            (CanonicalError::Unauthenticated { ctx: a, .. }, CanonicalError::Unauthenticated { ctx: b, .. }) => a == b,
            _ => false,
        }
    }

    /// Whether `self` is a fresh error of category `c` with message `m`:
    /// no resource-type tag and no debug detail.
    pub open spec fn fresh(&self, c: Category, m: Seq<char>) -> bool {
        &&& self.spec_category() == c
        &&& self.spec_message() == m
        &&& self.spec_resource_type() is None
        &&& self.spec_debug_info() is None
    }
}

/// Whether the context type bound to `c` can be read from `m`.
pub open spec fn context_decodable(c: Category, m: JsonModel) -> bool {
    match c {
        Category::Cancelled => RequestInfoV1::decodable(m),
        Category::Unknown => DebugInfoV1::decodable(m),
        Category::InvalidArgument => Validation::decodable(m),
        Category::DeadlineExceeded => RequestInfoV1::decodable(m),
        Category::NotFound => ResourceInfoV1::decodable(m),
        Category::AlreadyExists => ResourceInfoV1::decodable(m),
        Category::PermissionDenied => ErrorInfoV1::decodable(m),
        Category::ResourceExhausted => QuotaFailureV1::decodable(m),
        Category::FailedPrecondition => PreconditionFailureV1::decodable(m),
        Category::Aborted => ErrorInfoV1::decodable(m),
        Category::OutOfRange => Validation::decodable(m),
        Category::Unimplemented => ErrorInfoV1::decodable(m),
        Category::Internal => DebugInfoV1::decodable(m),
        Category::ServiceUnavailable => RetryInfoV1::decodable(m),
        Category::DataLoss => ResourceInfoV1::decodable(m),
        Category::Unauthenticated => ErrorInfoV1::decodable(m),
    }
}

impl CanonicalError {
    pub fn cancelled(ctx: RequestInfo) -> (r: Self)
        ensures
            r.fresh(Category::Cancelled, "Operation cancelled by the client"@),
            r matches CanonicalError::Cancelled { ctx: c, .. } && c == ctx,
    {
        CanonicalError::Cancelled {
            ctx,
            message: text("Operation cancelled by the client"),
            resource_type: None,
            debug_info: None,
        }
    }

    /// An error of unknown cause; `detail` is both its message and its context.
    pub fn unknown(detail: &str) -> (r: Self)
        ensures
            r.fresh(Category::Unknown, detail@),
            r matches CanonicalError::Unknown { ctx, .. } && ctx.detail@ == detail@
                && ctx.stack_entries@.len() == 0,
    {
        let message = text(detail);
        CanonicalError::Unknown {
            ctx: DebugInfoV1::new(detail),
            message,
            resource_type: None,
            debug_info: None,
        }
    }

    pub fn invalid_argument(ctx: Validation) -> (r: Self)
        ensures
            r.fresh(Category::InvalidArgument, validation_message(ctx, "Request validation failed"@)),
            r matches CanonicalError::InvalidArgument { ctx: c, .. } && c == ctx,
    {
        let message = message_for(&ctx, "Request validation failed");
        CanonicalError::InvalidArgument { ctx, message, resource_type: None, debug_info: None }
    }

    pub fn deadline_exceeded(ctx: RequestInfo) -> (r: Self)
        ensures
            r.fresh(Category::DeadlineExceeded, "Operation did not complete within the allowed time"@),
            r matches CanonicalError::DeadlineExceeded { ctx: c, .. } && c == ctx,
    {
        CanonicalError::DeadlineExceeded {
            ctx,
            message: text("Operation did not complete within the allowed time"),
            resource_type: None,
            debug_info: None,
        }
    }

    pub fn not_found(ctx: ResourceInfo) -> (r: Self)
        ensures
            r.fresh(Category::NotFound, "Resource not found"@),
            r matches CanonicalError::NotFound { ctx: c, .. } && c == ctx,
    {
        CanonicalError::NotFound {
            ctx,
            message: text("Resource not found"),
            resource_type: None,
            debug_info: None,
        }
    }

    /// An error whose message is the description carried by `ctx`.
    pub fn already_exists(ctx: ResourceInfo) -> (r: Self)
        ensures
            r.fresh(Category::AlreadyExists, ctx.description@),
            r matches CanonicalError::AlreadyExists { ctx: c, .. } && c == ctx,
    {
        let message = ctx.description.clone();
        CanonicalError::AlreadyExists { ctx, message, resource_type: None, debug_info: None }
    }

    pub fn permission_denied(ctx: ErrorInfo) -> (r: Self)
        ensures
            r.fresh(Category::PermissionDenied, "You do not have permission to perform this operation"@),
            r matches CanonicalError::PermissionDenied { ctx: c, .. } && c == ctx,
    {
        CanonicalError::PermissionDenied {
            ctx,
            message: text("You do not have permission to perform this operation"),
            resource_type: None,
            debug_info: None,
        }
    }

    pub fn resource_exhausted(ctx: QuotaFailure) -> (r: Self)
        ensures
            r.fresh(Category::ResourceExhausted, "Quota exceeded"@),
            r matches CanonicalError::ResourceExhausted { ctx: c, .. } && c == ctx,
    {
        CanonicalError::ResourceExhausted {
            ctx,
            message: text("Quota exceeded"),
            resource_type: None,
            debug_info: None,
        }
    }

    pub fn failed_precondition(ctx: PreconditionFailure) -> (r: Self)
        ensures
            r.fresh(Category::FailedPrecondition, "Operation precondition not met"@),
            r matches CanonicalError::FailedPrecondition { ctx: c, .. } && c == ctx,
    {
        CanonicalError::FailedPrecondition {
            ctx,
            message: text("Operation precondition not met"),
            resource_type: None,
            debug_info: None,
        }
    }

    pub fn aborted(ctx: ErrorInfo) -> (r: Self)
        ensures
            r.fresh(Category::Aborted, "Operation aborted due to concurrency conflict"@),
            r matches CanonicalError::Aborted { ctx: c, .. } && c == ctx,
    {
        CanonicalError::Aborted {
            ctx,
            message: text("Operation aborted due to concurrency conflict"),
            resource_type: None,
            debug_info: None,
        }
    }

    pub fn out_of_range(ctx: Validation) -> (r: Self)
        ensures
            r.fresh(Category::OutOfRange, validation_message(ctx, "Value out of range"@)),
            r matches CanonicalError::OutOfRange { ctx: c, .. } && c == ctx,
    {
        let message = message_for(&ctx, "Value out of range");
        CanonicalError::OutOfRange { ctx, message, resource_type: None, debug_info: None }
    }

    pub fn unimplemented(ctx: ErrorInfo) -> (r: Self)
        ensures
            r.fresh(Category::Unimplemented, "This operation is not implemented"@),
            r matches CanonicalError::Unimplemented { ctx: c, .. } && c == ctx,
    {
        CanonicalError::Unimplemented {
            ctx,
            message: text("This operation is not implemented"),
            resource_type: None,
            debug_info: None,
        }
    }

    pub fn internal(ctx: DebugInfo) -> (r: Self)
        ensures
            r.fresh(Category::Internal, "An internal error occurred. Please retry later."@),
            r matches CanonicalError::Internal { ctx: c, .. } && c == ctx,
    {
        CanonicalError::Internal {
            ctx,
            message: text("An internal error occurred. Please retry later."),
            resource_type: None,
            debug_info: None,
        }
    }

    pub fn service_unavailable(ctx: RetryInfo) -> (r: Self)
        ensures
            r.fresh(Category::ServiceUnavailable, "Service temporarily unavailable"@),
            r matches CanonicalError::ServiceUnavailable { ctx: c, .. } && c == ctx,
    {
        CanonicalError::ServiceUnavailable {
            ctx,
            message: text("Service temporarily unavailable"),
            resource_type: None,
            debug_info: None,
        }
    }

    /// An error whose message is the description carried by `ctx`.
    pub fn data_loss(ctx: ResourceInfo) -> (r: Self)
        ensures
            r.fresh(Category::DataLoss, ctx.description@),
            r matches CanonicalError::DataLoss { ctx: c, .. } && c == ctx,
    {
        let message = ctx.description.clone();
        CanonicalError::DataLoss { ctx, message, resource_type: None, debug_info: None }
    }

    pub fn unauthenticated(ctx: ErrorInfo) -> (r: Self)
        ensures
            r.fresh(Category::Unauthenticated, "Authentication required"@),
            r matches CanonicalError::Unauthenticated { ctx: c, .. } && c == ctx,
    {
        CanonicalError::Unauthenticated {
            ctx,
            message: text("Authentication required"),
            resource_type: None,
            debug_info: None,
        }
    }

    /// The same error with another message.
    pub fn with_message(self, msg: &str) -> (r: Self)
        ensures
            r.same_context(&self),
            r.spec_category() == self.spec_category(),
            r.spec_message() == msg@,
            r.spec_resource_type() == self.spec_resource_type(),
            r.spec_debug_info() == self.spec_debug_info(),
    {
        let v = text(msg);
        match self {
            CanonicalError::Cancelled { ctx, resource_type, debug_info, .. } => CanonicalError::Cancelled {
                message: v,
                ctx, resource_type, debug_info,
            },
            CanonicalError::Unknown { ctx, resource_type, debug_info, .. } => CanonicalError::Unknown {
                message: v,
                ctx, resource_type, debug_info,
            },
            CanonicalError::InvalidArgument { ctx, resource_type, debug_info, .. } => CanonicalError::InvalidArgument {
                message: v,
                ctx, resource_type, debug_info,
            },
            CanonicalError::DeadlineExceeded { ctx, resource_type, debug_info, .. } => CanonicalError::DeadlineExceeded {
                message: v,
                ctx, resource_type, debug_info,
            },
            CanonicalError::NotFound { ctx, resource_type, debug_info, .. } => CanonicalError::NotFound {
                message: v,
                ctx, resource_type, debug_info,
            },
            CanonicalError::AlreadyExists { ctx, resource_type, debug_info, .. } => CanonicalError::AlreadyExists {
                message: v,
                ctx, resource_type, debug_info,
            },
            CanonicalError::PermissionDenied { ctx, resource_type, debug_info, .. } => CanonicalError::PermissionDenied {
                message: v,
                ctx, resource_type, debug_info,
            },
            CanonicalError::ResourceExhausted { ctx, resource_type, debug_info, .. } => CanonicalError::ResourceExhausted {
                message: v,
                ctx, resource_type, debug_info,
            },
            CanonicalError::FailedPrecondition { ctx, resource_type, debug_info, .. } => CanonicalError::FailedPrecondition {
                message: v,
                ctx, resource_type, debug_info,
            },
            CanonicalError::Aborted { ctx, resource_type, debug_info, .. } => CanonicalError::Aborted {
                message: v,
                ctx, resource_type, debug_info,
            },
            CanonicalError::OutOfRange { ctx, resource_type, debug_info, .. } => CanonicalError::OutOfRange {
                message: v,
                ctx, resource_type, debug_info,
            },
            CanonicalError::Unimplemented { ctx, resource_type, debug_info, .. } => CanonicalError::Unimplemented {
                message: v,
                ctx, resource_type, debug_info,
            },
            CanonicalError::Internal { ctx, resource_type, debug_info, .. } => CanonicalError::Internal {
                message: v,
                ctx, resource_type, debug_info,
            },
            CanonicalError::ServiceUnavailable { ctx, resource_type, debug_info, .. } => CanonicalError::ServiceUnavailable {
                message: v,
                ctx, resource_type, debug_info,
            },
            CanonicalError::DataLoss { ctx, resource_type, debug_info, .. } => CanonicalError::DataLoss {
                message: v,
                ctx, resource_type, debug_info,
            },
            CanonicalError::Unauthenticated { ctx, resource_type, debug_info, .. } => CanonicalError::Unauthenticated {
                message: v,
                ctx, resource_type, debug_info,
            },
        }
    }

    /// The same error tagged with a resource type.
    pub fn with_resource_type(self, rt: &str) -> (r: Self)
        ensures
            r.same_context(&self),
            r.spec_category() == self.spec_category(),
            r.spec_message() == self.spec_message(),
            r.spec_resource_type() == Some(rt@),
            r.spec_debug_info() == self.spec_debug_info(),
    {
        let v = Some(text(rt));
        match self {
            CanonicalError::Cancelled { ctx, message, debug_info, .. } => CanonicalError::Cancelled {
                resource_type: v,
                ctx, message, debug_info,
            },
            CanonicalError::Unknown { ctx, message, debug_info, .. } => CanonicalError::Unknown {
                resource_type: v,
                ctx, message, debug_info,
            },
            CanonicalError::InvalidArgument { ctx, message, debug_info, .. } => CanonicalError::InvalidArgument {
                resource_type: v,
                ctx, message, debug_info,
            },
            CanonicalError::DeadlineExceeded { ctx, message, debug_info, .. } => CanonicalError::DeadlineExceeded {
                resource_type: v,
                ctx, message, debug_info,
            },
            CanonicalError::NotFound { ctx, message, debug_info, .. } => CanonicalError::NotFound {
                resource_type: v,
                ctx, message, debug_info,
            },
            CanonicalError::AlreadyExists { ctx, message, debug_info, .. } => CanonicalError::AlreadyExists {
                resource_type: v,
                ctx, message, debug_info,
            },
            CanonicalError::PermissionDenied { ctx, message, debug_info, .. } => CanonicalError::PermissionDenied {
                resource_type: v,
                ctx, message, debug_info,
            },
            CanonicalError::ResourceExhausted { ctx, message, debug_info, .. } => CanonicalError::ResourceExhausted {
                resource_type: v,
                ctx, message, debug_info,
            },
            CanonicalError::FailedPrecondition { ctx, message, debug_info, .. } => CanonicalError::FailedPrecondition {
                resource_type: v,
                ctx, message, debug_info,
            },
            CanonicalError::Aborted { ctx, message, debug_info, .. } => CanonicalError::Aborted {
                resource_type: v,
                ctx, message, debug_info,
            },
            CanonicalError::OutOfRange { ctx, message, debug_info, .. } => CanonicalError::OutOfRange {
                resource_type: v,
                ctx, message, debug_info,
            },
            CanonicalError::Unimplemented { ctx, message, debug_info, .. } => CanonicalError::Unimplemented {
                resource_type: v,
                ctx, message, debug_info,
            },
            CanonicalError::Internal { ctx, message, debug_info, .. } => CanonicalError::Internal {
                resource_type: v,
                ctx, message, debug_info,
            },
            CanonicalError::ServiceUnavailable { ctx, message, debug_info, .. } => CanonicalError::ServiceUnavailable {
                resource_type: v,
                ctx, message, debug_info,
            },
            CanonicalError::DataLoss { ctx, message, debug_info, .. } => CanonicalError::DataLoss {
                resource_type: v,
                ctx, message, debug_info,
            },
            CanonicalError::Unauthenticated { ctx, message, debug_info, .. } => CanonicalError::Unauthenticated {
                resource_type: v,
                ctx, message, debug_info,
            },
        }
    }

    /// The same error carrying debug detail.
    pub fn with_debug_info(self, info: DebugInfo) -> (r: Self)
        ensures
            r.same_context(&self),
            r.spec_category() == self.spec_category(),
            r.spec_message() == self.spec_message(),
            r.spec_resource_type() == self.spec_resource_type(),
            r.spec_debug_info() == Some(info),
    {
        let v = Some(info);
        match self {
            CanonicalError::Cancelled { ctx, message, resource_type, .. } => CanonicalError::Cancelled {
                debug_info: v,
                ctx, message, resource_type,
            },
            CanonicalError::Unknown { ctx, message, resource_type, .. } => CanonicalError::Unknown {
                debug_info: v,
                ctx, message, resource_type,
            },
            CanonicalError::InvalidArgument { ctx, message, resource_type, .. } => CanonicalError::InvalidArgument {
                debug_info: v,
                ctx, message, resource_type,
            },
            CanonicalError::DeadlineExceeded { ctx, message, resource_type, .. } => CanonicalError::DeadlineExceeded {
                debug_info: v,
                ctx, message, resource_type,
            },
            CanonicalError::NotFound { ctx, message, resource_type, .. } => CanonicalError::NotFound {
                debug_info: v,
                ctx, message, resource_type,
            },
            CanonicalError::AlreadyExists { ctx, message, resource_type, .. } => CanonicalError::AlreadyExists {
                debug_info: v,
                ctx, message, resource_type,
            },
            CanonicalError::PermissionDenied { ctx, message, resource_type, .. } => CanonicalError::PermissionDenied {
                debug_info: v,
                ctx, message, resource_type,
            },
            CanonicalError::ResourceExhausted { ctx, message, resource_type, .. } => CanonicalError::ResourceExhausted {
                debug_info: v,
                ctx, message, resource_type,
            },
            CanonicalError::FailedPrecondition { ctx, message, resource_type, .. } => CanonicalError::FailedPrecondition {
                debug_info: v,
                ctx, message, resource_type,
            },
            CanonicalError::Aborted { ctx, message, resource_type, .. } => CanonicalError::Aborted {
                debug_info: v,
                ctx, message, resource_type,
            },
            CanonicalError::OutOfRange { ctx, message, resource_type, .. } => CanonicalError::OutOfRange {
                debug_info: v,
                ctx, message, resource_type,
            },
            CanonicalError::Unimplemented { ctx, message, resource_type, .. } => CanonicalError::Unimplemented {
                debug_info: v,
                ctx, message, resource_type,
            },
            CanonicalError::Internal { ctx, message, resource_type, .. } => CanonicalError::Internal {
                debug_info: v,
                ctx, message, resource_type,
            },
            CanonicalError::ServiceUnavailable { ctx, message, resource_type, .. } => CanonicalError::ServiceUnavailable {
                debug_info: v,
                ctx, message, resource_type,
            },
            CanonicalError::DataLoss { ctx, message, resource_type, .. } => CanonicalError::DataLoss {
                debug_info: v,
                ctx, message, resource_type,
            },
            CanonicalError::Unauthenticated { ctx, message, resource_type, .. } => CanonicalError::Unauthenticated {
                debug_info: v,
                ctx, message, resource_type,
            },
        }
    }

    pub fn message(&self) -> (r: &str)
        ensures
            r@ == self.spec_message(),
    {
        match self {
            CanonicalError::Cancelled { message, .. } => message.as_str(),
            CanonicalError::Unknown { message, .. } => message.as_str(),
            CanonicalError::InvalidArgument { message, .. } => message.as_str(),
            CanonicalError::DeadlineExceeded { message, .. } => message.as_str(),
            CanonicalError::NotFound { message, .. } => message.as_str(),
            CanonicalError::AlreadyExists { message, .. } => message.as_str(),
            CanonicalError::PermissionDenied { message, .. } => message.as_str(),
            CanonicalError::ResourceExhausted { message, .. } => message.as_str(),
            CanonicalError::FailedPrecondition { message, .. } => message.as_str(),
            CanonicalError::Aborted { message, .. } => message.as_str(),
            CanonicalError::OutOfRange { message, .. } => message.as_str(),
            CanonicalError::Unimplemented { message, .. } => message.as_str(),
            CanonicalError::Internal { message, .. } => message.as_str(),
            CanonicalError::ServiceUnavailable { message, .. } => message.as_str(),
            CanonicalError::DataLoss { message, .. } => message.as_str(),
            CanonicalError::Unauthenticated { message, .. } => message.as_str(),
        }
    }

    pub fn resource_type(&self) -> (r: Option<&str>)
        ensures
            match r {
                Some(s) => self.spec_resource_type() == Some(s@),
                None => self.spec_resource_type() is None,
            },
    {
        let rt = match self {
            CanonicalError::Cancelled { resource_type, .. } => resource_type,
            CanonicalError::Unknown { resource_type, .. } => resource_type,
            CanonicalError::InvalidArgument { resource_type, .. } => resource_type,
            CanonicalError::DeadlineExceeded { resource_type, .. } => resource_type,
            CanonicalError::NotFound { resource_type, .. } => resource_type,
            CanonicalError::AlreadyExists { resource_type, .. } => resource_type,
            CanonicalError::PermissionDenied { resource_type, .. } => resource_type,
            CanonicalError::ResourceExhausted { resource_type, .. } => resource_type,
            CanonicalError::FailedPrecondition { resource_type, .. } => resource_type,
            CanonicalError::Aborted { resource_type, .. } => resource_type,
            CanonicalError::OutOfRange { resource_type, .. } => resource_type,
            CanonicalError::Unimplemented { resource_type, .. } => resource_type,
            CanonicalError::Internal { resource_type, .. } => resource_type,
            CanonicalError::ServiceUnavailable { resource_type, .. } => resource_type,
            CanonicalError::DataLoss { resource_type, .. } => resource_type,
            CanonicalError::Unauthenticated { resource_type, .. } => resource_type,
        };
        match rt {
            Some(s) => Some(s.as_str()),
            None => None,
        }
    }

    pub fn debug_info(&self) -> (r: Option<&DebugInfo>)
        ensures
            match r {
                Some(d) => self.spec_debug_info() == Some(*d),
                None => self.spec_debug_info() is None,
            },
    {
        match self {
            CanonicalError::Cancelled { debug_info, .. } => debug_info.as_ref(),
            CanonicalError::Unknown { debug_info, .. } => debug_info.as_ref(),
            CanonicalError::InvalidArgument { debug_info, .. } => debug_info.as_ref(),
            CanonicalError::DeadlineExceeded { debug_info, .. } => debug_info.as_ref(),
            CanonicalError::NotFound { debug_info, .. } => debug_info.as_ref(),
            CanonicalError::AlreadyExists { debug_info, .. } => debug_info.as_ref(),
            CanonicalError::PermissionDenied { debug_info, .. } => debug_info.as_ref(),
            CanonicalError::ResourceExhausted { debug_info, .. } => debug_info.as_ref(),
            CanonicalError::FailedPrecondition { debug_info, .. } => debug_info.as_ref(),
            CanonicalError::Aborted { debug_info, .. } => debug_info.as_ref(),
            CanonicalError::OutOfRange { debug_info, .. } => debug_info.as_ref(),
            CanonicalError::Unimplemented { debug_info, .. } => debug_info.as_ref(),
            CanonicalError::Internal { debug_info, .. } => debug_info.as_ref(),
            CanonicalError::ServiceUnavailable { debug_info, .. } => debug_info.as_ref(),
            CanonicalError::DataLoss { debug_info, .. } => debug_info.as_ref(),
            CanonicalError::Unauthenticated { debug_info, .. } => debug_info.as_ref(),
        }
    }

    pub fn category(&self) -> (r: Category)
        ensures
            r == self.spec_category(),
    {
        match self {
            CanonicalError::Cancelled { .. } => Category::Cancelled,
            CanonicalError::Unknown { .. } => Category::Unknown,
            CanonicalError::InvalidArgument { .. } => Category::InvalidArgument,
            CanonicalError::DeadlineExceeded { .. } => Category::DeadlineExceeded,
            CanonicalError::NotFound { .. } => Category::NotFound,
            CanonicalError::AlreadyExists { .. } => Category::AlreadyExists,
            CanonicalError::PermissionDenied { .. } => Category::PermissionDenied,
            CanonicalError::ResourceExhausted { .. } => Category::ResourceExhausted,
            CanonicalError::FailedPrecondition { .. } => Category::FailedPrecondition,
            CanonicalError::Aborted { .. } => Category::Aborted,
            CanonicalError::OutOfRange { .. } => Category::OutOfRange,
            CanonicalError::Unimplemented { .. } => Category::Unimplemented,
            CanonicalError::Internal { .. } => Category::Internal,
            CanonicalError::ServiceUnavailable { .. } => Category::ServiceUnavailable,
            CanonicalError::DataLoss { .. } => Category::DataLoss,
            CanonicalError::Unauthenticated { .. } => Category::Unauthenticated,
        }
    }

    /// The error's type URI.
    pub fn gts_type(&self) -> (r: &'static str)
        ensures
            r@ == self.spec_category().spec_type_uri(),
    {
        self.category().type_uri()
    }

    pub fn status_code(&self) -> (r: u16)
        ensures
            r == self.spec_category().spec_status(),
    {
        self.category().status_code()
    }

    pub fn title(&self) -> (r: &'static str)
        ensures
            r@ == self.spec_category().spec_title(),
    {
        self.category().title()
    }

    /// The name under which the error's category is shown.
    pub fn category_name(&self) -> (r: &'static str)
        ensures
            r@ == self.spec_category().spec_display_name(),
    {
        self.category().display_name()
    }

    /// The error as people read it: `<category>: <message>`.
    pub fn to_string(&self) -> (r: String)
        ensures
            r@ == self.spec_category().spec_display_name() + ": "@ + self.spec_message(),
    {
        let mut s = text(self.category_name());
        s.append(": ");
        s.append(self.message());
        s
    }

    pub fn context_json(&self) -> (r: Json)
        ensures
            r@ == self.spec_context(),
    {
        match self {
            CanonicalError::Cancelled { ctx, .. } => ctx.to_json(),
            CanonicalError::Unknown { ctx, .. } => ctx.to_json(),
            CanonicalError::InvalidArgument { ctx, .. } => ctx.to_json(),
            CanonicalError::DeadlineExceeded { ctx, .. } => ctx.to_json(),
            CanonicalError::NotFound { ctx, .. } => ctx.to_json(),
            CanonicalError::AlreadyExists { ctx, .. } => ctx.to_json(),
            CanonicalError::PermissionDenied { ctx, .. } => ctx.to_json(),
            CanonicalError::ResourceExhausted { ctx, .. } => ctx.to_json(),
            CanonicalError::FailedPrecondition { ctx, .. } => ctx.to_json(),
            CanonicalError::Aborted { ctx, .. } => ctx.to_json(),
            CanonicalError::OutOfRange { ctx, .. } => ctx.to_json(),
            CanonicalError::Unimplemented { ctx, .. } => ctx.to_json(),
            CanonicalError::Internal { ctx, .. } => ctx.to_json(),
            CanonicalError::ServiceUnavailable { ctx, .. } => ctx.to_json(),
            CanonicalError::DataLoss { ctx, .. } => ctx.to_json(),
            CanonicalError::Unauthenticated { ctx, .. } => ctx.to_json(),
        }
    }

}

} // verus!
