use vstd::prelude::*;

use crate::category::Category;
use crate::context::{
    DebugInfo, ErrorInfo, PreconditionFailure, QuotaFailure, RequestInfo, ResourceInfoV1,
    RetryInfo, Validation,
};
use crate::error::{validation_message, CanonicalError};
use crate::json::text;

verus! {

impl CanonicalError {
    /// Whether `self` is an error of category `c` with message `m`, tagged
    /// with resource type `tag` and without debug detail.
    pub open spec fn tagged_as(&self, c: Category, m: Seq<char>, tag: Seq<char>) -> bool {
        &&& self.spec_category() == c
        &&& self.spec_message() == m
        &&& self.spec_resource_type() == Some(tag)
        &&& self.spec_debug_info() is None
    }
}

/// A family of error constructors bound to one resource type: each builds the
/// error that the plain constructor builds and tags it with that type.
#[derive(Debug, Clone)]
pub struct ResourceErrors {
    pub resource_type: String,
}

/// The constructors bound to `resource_type`.
pub fn resource_error(resource_type: &str) -> (r: ResourceErrors)
    ensures
        r.resource_type@ == resource_type@,
{
    ResourceErrors { resource_type: text(resource_type) }
}

impl ResourceErrors {
    pub fn cancelled(&self, ctx: RequestInfo) -> (r: CanonicalError)
        ensures
            r.tagged_as(Category::Cancelled, "Operation cancelled by the client"@, self.resource_type@),
            r matches CanonicalError::Cancelled { ctx: c, .. } && c == ctx,
    {
        CanonicalError::cancelled(ctx).with_resource_type(self.resource_type.as_str())
    }

    pub fn unknown(&self, detail: &str) -> (r: CanonicalError)
        ensures
            r.tagged_as(Category::Unknown, detail@, self.resource_type@),
            r matches CanonicalError::Unknown { ctx, .. } && ctx.detail@ == detail@
                && ctx.stack_entries@.len() == 0,
    {
        CanonicalError::unknown(detail).with_resource_type(self.resource_type.as_str())
    }

    pub fn invalid_argument(&self, ctx: Validation) -> (r: CanonicalError)
        ensures
            r.tagged_as(Category::InvalidArgument, validation_message(ctx, "Request validation failed"@), self.resource_type@),
            r matches CanonicalError::InvalidArgument { ctx: c, .. } && c == ctx,
    {
        CanonicalError::invalid_argument(ctx).with_resource_type(self.resource_type.as_str())
    }

    pub fn deadline_exceeded(&self, ctx: RequestInfo) -> (r: CanonicalError)
        ensures
            r.tagged_as(Category::DeadlineExceeded, "Operation did not complete within the allowed time"@, self.resource_type@),
            r matches CanonicalError::DeadlineExceeded { ctx: c, .. } && c == ctx,
    {
        CanonicalError::deadline_exceeded(ctx).with_resource_type(self.resource_type.as_str())
    }

    /// A `not_found` error for the resource named `resource_name` of the bound type.
    pub fn not_found(&self, resource_name: &str) -> (r: CanonicalError)
        ensures
            r.tagged_as(Category::NotFound, "Resource not found"@, self.resource_type@),
            r matches CanonicalError::NotFound { ctx, .. } && ctx.resource_type@ == self.resource_type@
                && ctx.resource_name@ == resource_name@ && ctx.description@ == "Resource not found"@,
    {
        CanonicalError::not_found(
            ResourceInfoV1::new(self.resource_type.as_str(), resource_name),
        ).with_resource_type(self.resource_type.as_str())
    }

    /// A `already_exists` error for the resource named `resource_name` of the bound type.
    pub fn already_exists(&self, resource_name: &str) -> (r: CanonicalError)
        ensures
            r.tagged_as(Category::AlreadyExists, "Resource already exists"@, self.resource_type@),
            r matches CanonicalError::AlreadyExists { ctx, .. } && ctx.resource_type@ == self.resource_type@
                && ctx.resource_name@ == resource_name@ && ctx.description@ == "Resource already exists"@,
    {
        CanonicalError::already_exists(
            ResourceInfoV1::new(self.resource_type.as_str(), resource_name).with_description("Resource already exists"),
        ).with_resource_type(self.resource_type.as_str())
    }

    pub fn permission_denied(&self, ctx: ErrorInfo) -> (r: CanonicalError)
        ensures
            r.tagged_as(Category::PermissionDenied, "You do not have permission to perform this operation"@, self.resource_type@),
            r matches CanonicalError::PermissionDenied { ctx: c, .. } && c == ctx,
    {
        CanonicalError::permission_denied(ctx).with_resource_type(self.resource_type.as_str())
    }

    pub fn resource_exhausted(&self, ctx: QuotaFailure) -> (r: CanonicalError)
        ensures
            r.tagged_as(Category::ResourceExhausted, "Quota exceeded"@, self.resource_type@),
            r matches CanonicalError::ResourceExhausted { ctx: c, .. } && c == ctx,
    {
        CanonicalError::resource_exhausted(ctx).with_resource_type(self.resource_type.as_str())
    }

    pub fn failed_precondition(&self, ctx: PreconditionFailure) -> (r: CanonicalError)
        ensures
            r.tagged_as(Category::FailedPrecondition, "Operation precondition not met"@, self.resource_type@),
            r matches CanonicalError::FailedPrecondition { ctx: c, .. } && c == ctx,
    {
        CanonicalError::failed_precondition(ctx).with_resource_type(self.resource_type.as_str())
    }

    pub fn aborted(&self, ctx: ErrorInfo) -> (r: CanonicalError)
        ensures
            r.tagged_as(Category::Aborted, "Operation aborted due to concurrency conflict"@, self.resource_type@),
            r matches CanonicalError::Aborted { ctx: c, .. } && c == ctx,
    {
        CanonicalError::aborted(ctx).with_resource_type(self.resource_type.as_str())
    }

    pub fn out_of_range(&self, ctx: Validation) -> (r: CanonicalError)
        ensures
            r.tagged_as(Category::OutOfRange, validation_message(ctx, "Value out of range"@), self.resource_type@),
            r matches CanonicalError::OutOfRange { ctx: c, .. } && c == ctx,
    {
        CanonicalError::out_of_range(ctx).with_resource_type(self.resource_type.as_str())
    }

    pub fn unimplemented(&self, ctx: ErrorInfo) -> (r: CanonicalError)
        ensures
            r.tagged_as(Category::Unimplemented, "This operation is not implemented"@, self.resource_type@),
            r matches CanonicalError::Unimplemented { ctx: c, .. } && c == ctx,
    {
        CanonicalError::unimplemented(ctx).with_resource_type(self.resource_type.as_str())
    }

    pub fn internal(&self, ctx: DebugInfo) -> (r: CanonicalError)
        ensures
            r.tagged_as(Category::Internal, "An internal error occurred. Please retry later."@, self.resource_type@),
            r matches CanonicalError::Internal { ctx: c, .. } && c == ctx,
    {
        CanonicalError::internal(ctx).with_resource_type(self.resource_type.as_str())
    }

    pub fn service_unavailable(&self, ctx: RetryInfo) -> (r: CanonicalError)
        ensures
            r.tagged_as(Category::ServiceUnavailable, "Service temporarily unavailable"@, self.resource_type@),
            r matches CanonicalError::ServiceUnavailable { ctx: c, .. } && c == ctx,
    {
        CanonicalError::service_unavailable(ctx).with_resource_type(self.resource_type.as_str())
    }

    /// A `data_loss` error for the resource named `resource_name` of the bound type.
    pub fn data_loss(&self, resource_name: &str) -> (r: CanonicalError)
        ensures
            r.tagged_as(Category::DataLoss, "Data loss detected"@, self.resource_type@),
            r matches CanonicalError::DataLoss { ctx, .. } && ctx.resource_type@ == self.resource_type@
                && ctx.resource_name@ == resource_name@ && ctx.description@ == "Data loss detected"@,
    {
        CanonicalError::data_loss(
            ResourceInfoV1::new(self.resource_type.as_str(), resource_name).with_description("Data loss detected"),
        ).with_resource_type(self.resource_type.as_str())
    }

    pub fn unauthenticated(&self, ctx: ErrorInfo) -> (r: CanonicalError)
        ensures
            r.tagged_as(Category::Unauthenticated, "Authentication required"@, self.resource_type@),
            r matches CanonicalError::Unauthenticated { ctx: c, .. } && c == ctx,
    {
        CanonicalError::unauthenticated(ctx).with_resource_type(self.resource_type.as_str())
    }

}

} // verus!
