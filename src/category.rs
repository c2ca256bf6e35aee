use vstd::prelude::*;

use crate::json::text;

verus! {

/// The fixed text before the category name in a type URI.
pub open spec fn type_prefix() -> Seq<char> {
    "gts.cf.core.errors.err.v1~cf.core.errors."@
}

/// The fixed text after the category name in a type URI.
pub open spec fn type_suffix() -> Seq<char> {
    ".v1~"@
}

/// Whether `t` is a type URI: the prefix, then a name, then the suffix.
pub open spec fn well_formed_type(t: Seq<char>) -> bool {
    &&& t.len() >= type_prefix().len() + type_suffix().len()
    &&& t.subrange(0, type_prefix().len() as int) == type_prefix()
    &&& t.subrange(t.len() - type_suffix().len(), t.len() as int) == type_suffix()
}

/// The name between the prefix and the suffix of a type URI.
pub open spec fn uri_category_name(t: Seq<char>) -> Seq<char> {
    t.subrange(type_prefix().len() as int, t.len() - type_suffix().len())
}

/// The sixteen canonical error categories.
#[derive(Debug, Clone, Copy, PartialEq, Eq, Structural)]
pub enum Category {
    Cancelled,
    Unknown,
    InvalidArgument,
    DeadlineExceeded,
    NotFound,
    AlreadyExists,
    PermissionDenied,
    ResourceExhausted,
    FailedPrecondition,
    Aborted,
    OutOfRange,
    Unimplemented,
    Internal,
    ServiceUnavailable,
    DataLoss,
    Unauthenticated,
}

impl Category {
    /// The category's name as it stands in its type URI.
    pub open spec fn spec_name(self) -> Seq<char> {
        match self {
            Category::Cancelled => "cancelled"@,
            Category::Unknown => "unknown"@,
            Category::InvalidArgument => "invalid_argument"@,
            Category::DeadlineExceeded => "deadline_exceeded"@,
            Category::NotFound => "not_found"@,
            Category::AlreadyExists => "already_exists"@,
            Category::PermissionDenied => "permission_denied"@,
            Category::ResourceExhausted => "resource_exhausted"@,
            Category::FailedPrecondition => "failed_precondition"@,
            Category::Aborted => "aborted"@,
            Category::OutOfRange => "out_of_range"@,
            Category::Unimplemented => "unimplemented"@,
            Category::Internal => "internal"@,
            Category::ServiceUnavailable => "service_unavailable"@,
            Category::DataLoss => "data_loss"@,
            Category::Unauthenticated => "unauthenticated"@,
        }
    }

    pub open spec fn spec_status(self) -> u16 {
        match self {
            Category::Cancelled => 499,
            Category::Unknown => 500,
            Category::InvalidArgument => 400,
            Category::DeadlineExceeded => 504,
            Category::NotFound => 404,
            Category::AlreadyExists => 409,
            Category::PermissionDenied => 403,
            Category::ResourceExhausted => 429,
            Category::FailedPrecondition => 400,
            Category::Aborted => 409,
            Category::OutOfRange => 400,
            Category::Unimplemented => 501,
            Category::Internal => 500,
            Category::ServiceUnavailable => 503,
            Category::DataLoss => 500,
            Category::Unauthenticated => 401,
        }
    }

    pub open spec fn spec_title(self) -> Seq<char> {
        match self {
            Category::Cancelled => "Cancelled"@,
            Category::Unknown => "Unknown"@,
            Category::InvalidArgument => "Invalid Argument"@,
            Category::DeadlineExceeded => "Deadline Exceeded"@,
            Category::NotFound => "Not Found"@,
            Category::AlreadyExists => "Already Exists"@,
            Category::PermissionDenied => "Permission Denied"@,
            Category::ResourceExhausted => "Resource Exhausted"@,
            Category::FailedPrecondition => "Failed Precondition"@,
            Category::Aborted => "Aborted"@,
            Category::OutOfRange => "Out of Range"@,
            Category::Unimplemented => "Unimplemented"@,
            Category::Internal => "Internal"@,
            Category::ServiceUnavailable => "Unavailable"@,
            Category::DataLoss => "Data Loss"@,
            Category::Unauthenticated => "Unauthenticated"@,
        }
    }

    /// The category's type URI.
    pub open spec fn spec_type_uri(self) -> Seq<char> {
        type_prefix() + self.spec_name() + type_suffix()
    }

    /// The name under which the category is shown to people; it differs from
    /// the URI name only for `service_unavailable`, shown as `unavailable`.
    pub open spec fn spec_display_name(self) -> Seq<char> {
        match self {
            Category::ServiceUnavailable => "unavailable"@,
            _ => self.spec_name(),
        }
    }

    pub fn name(self) -> (r: &'static str)
        ensures
            r@ == self.spec_name(),
    {
        match self {
            Category::Cancelled => "cancelled",
            Category::Unknown => "unknown",
            Category::InvalidArgument => "invalid_argument",
            Category::DeadlineExceeded => "deadline_exceeded",
            Category::NotFound => "not_found",
            Category::AlreadyExists => "already_exists",
            Category::PermissionDenied => "permission_denied",
            Category::ResourceExhausted => "resource_exhausted",
            Category::FailedPrecondition => "failed_precondition",
            Category::Aborted => "aborted",
            Category::OutOfRange => "out_of_range",
            Category::Unimplemented => "unimplemented",
            Category::Internal => "internal",
            Category::ServiceUnavailable => "service_unavailable",
            Category::DataLoss => "data_loss",
            Category::Unauthenticated => "unauthenticated",
        }
    }

    pub fn display_name(self) -> (r: &'static str)
        ensures
            r@ == self.spec_display_name(),
    {
        match self {
            Category::ServiceUnavailable => "unavailable",
            _ => self.name(),
        }
    }

    pub fn status_code(self) -> (r: u16)
        ensures
            r == self.spec_status(),
    {
        match self {
            Category::Cancelled => 499,
            Category::Unknown => 500,
            Category::InvalidArgument => 400,
            Category::DeadlineExceeded => 504,
            Category::NotFound => 404,
            Category::AlreadyExists => 409,
            Category::PermissionDenied => 403,
            Category::ResourceExhausted => 429,
            Category::FailedPrecondition => 400,
            Category::Aborted => 409,
            Category::OutOfRange => 400,
            Category::Unimplemented => 501,
            Category::Internal => 500,
            Category::ServiceUnavailable => 503,
            Category::DataLoss => 500,
            Category::Unauthenticated => 401,
        }
    }

    pub fn title(self) -> (r: &'static str)
        ensures
            r@ == self.spec_title(),
    {
        match self {
            Category::Cancelled => "Cancelled",
            Category::Unknown => "Unknown",
            Category::InvalidArgument => "Invalid Argument",
            Category::DeadlineExceeded => "Deadline Exceeded",
            Category::NotFound => "Not Found",
            Category::AlreadyExists => "Already Exists",
            Category::PermissionDenied => "Permission Denied",
            Category::ResourceExhausted => "Resource Exhausted",
            Category::FailedPrecondition => "Failed Precondition",
            Category::Aborted => "Aborted",
            Category::OutOfRange => "Out of Range",
            Category::Unimplemented => "Unimplemented",
            Category::Internal => "Internal",
            Category::ServiceUnavailable => "Unavailable",
            Category::DataLoss => "Data Loss",
            Category::Unauthenticated => "Unauthenticated",
        }
    }

    /// The category's type URI, `prefix + name + suffix`.
    pub fn type_uri(self) -> (r: &'static str)
        ensures
            r@ == self.spec_type_uri(),
    {
        proof {
            reveal_strlit("gts.cf.core.errors.err.v1~cf.core.errors.");
            reveal_strlit(".v1~");
        }
        match self {
            Category::Cancelled => {
                proof {
                    reveal_strlit("cancelled");
                    reveal_strlit("gts.cf.core.errors.err.v1~cf.core.errors.cancelled.v1~");
                    assert("gts.cf.core.errors.err.v1~cf.core.errors.cancelled.v1~"@ =~= type_prefix() + "cancelled"@ + type_suffix());
                }
                "gts.cf.core.errors.err.v1~cf.core.errors.cancelled.v1~"
            },
            Category::Unknown => {
                proof {
                    reveal_strlit("unknown");
                    reveal_strlit("gts.cf.core.errors.err.v1~cf.core.errors.unknown.v1~");
                    assert("gts.cf.core.errors.err.v1~cf.core.errors.unknown.v1~"@ =~= type_prefix() + "unknown"@ + type_suffix());
                }
                "gts.cf.core.errors.err.v1~cf.core.errors.unknown.v1~"
            },
            Category::InvalidArgument => {
                proof {
                    reveal_strlit("invalid_argument");
                    reveal_strlit("gts.cf.core.errors.err.v1~cf.core.errors.invalid_argument.v1~");
                    assert("gts.cf.core.errors.err.v1~cf.core.errors.invalid_argument.v1~"@ =~= type_prefix() + "invalid_argument"@ + type_suffix());
                }
                "gts.cf.core.errors.err.v1~cf.core.errors.invalid_argument.v1~"
            },
            Category::DeadlineExceeded => {
                proof {
                    reveal_strlit("deadline_exceeded");
                    reveal_strlit("gts.cf.core.errors.err.v1~cf.core.errors.deadline_exceeded.v1~");
                    assert("gts.cf.core.errors.err.v1~cf.core.errors.deadline_exceeded.v1~"@ =~= type_prefix() + "deadline_exceeded"@ + type_suffix());
                }
                "gts.cf.core.errors.err.v1~cf.core.errors.deadline_exceeded.v1~"
            },
            Category::NotFound => {
                proof {
                    reveal_strlit("not_found");
                    reveal_strlit("gts.cf.core.errors.err.v1~cf.core.errors.not_found.v1~");
                    assert("gts.cf.core.errors.err.v1~cf.core.errors.not_found.v1~"@ =~= type_prefix() + "not_found"@ + type_suffix());
                }
                "gts.cf.core.errors.err.v1~cf.core.errors.not_found.v1~"
            },
            Category::AlreadyExists => {
                proof {
                    reveal_strlit("already_exists");
                    reveal_strlit("gts.cf.core.errors.err.v1~cf.core.errors.already_exists.v1~");
                    assert("gts.cf.core.errors.err.v1~cf.core.errors.already_exists.v1~"@ =~= type_prefix() + "already_exists"@ + type_suffix());
                }
                "gts.cf.core.errors.err.v1~cf.core.errors.already_exists.v1~"
            },
            Category::PermissionDenied => {
                proof {
                    reveal_strlit("permission_denied");
                    reveal_strlit("gts.cf.core.errors.err.v1~cf.core.errors.permission_denied.v1~");
                    assert("gts.cf.core.errors.err.v1~cf.core.errors.permission_denied.v1~"@ =~= type_prefix() + "permission_denied"@ + type_suffix());
                }
                "gts.cf.core.errors.err.v1~cf.core.errors.permission_denied.v1~"
            },
            Category::ResourceExhausted => {
                proof {
                    reveal_strlit("resource_exhausted");
                    reveal_strlit("gts.cf.core.errors.err.v1~cf.core.errors.resource_exhausted.v1~");
                    assert("gts.cf.core.errors.err.v1~cf.core.errors.resource_exhausted.v1~"@ =~= type_prefix() + "resource_exhausted"@ + type_suffix());
                }
                "gts.cf.core.errors.err.v1~cf.core.errors.resource_exhausted.v1~"
            },
            Category::FailedPrecondition => {
                proof {
                    reveal_strlit("failed_precondition");
                    reveal_strlit("gts.cf.core.errors.err.v1~cf.core.errors.failed_precondition.v1~");
                    assert("gts.cf.core.errors.err.v1~cf.core.errors.failed_precondition.v1~"@ =~= type_prefix() + "failed_precondition"@ + type_suffix());
                }
                "gts.cf.core.errors.err.v1~cf.core.errors.failed_precondition.v1~"
            },
            Category::Aborted => {
                proof {
                    reveal_strlit("aborted");
                    reveal_strlit("gts.cf.core.errors.err.v1~cf.core.errors.aborted.v1~");
                    assert("gts.cf.core.errors.err.v1~cf.core.errors.aborted.v1~"@ =~= type_prefix() + "aborted"@ + type_suffix());
                }
                "gts.cf.core.errors.err.v1~cf.core.errors.aborted.v1~"
            },
            Category::OutOfRange => {
                proof {
                    reveal_strlit("out_of_range");
                    reveal_strlit("gts.cf.core.errors.err.v1~cf.core.errors.out_of_range.v1~");
                    assert("gts.cf.core.errors.err.v1~cf.core.errors.out_of_range.v1~"@ =~= type_prefix() + "out_of_range"@ + type_suffix());
                }
                "gts.cf.core.errors.err.v1~cf.core.errors.out_of_range.v1~"
            },
            Category::Unimplemented => {
                proof {
                    reveal_strlit("unimplemented");
                    reveal_strlit("gts.cf.core.errors.err.v1~cf.core.errors.unimplemented.v1~");
                    assert("gts.cf.core.errors.err.v1~cf.core.errors.unimplemented.v1~"@ =~= type_prefix() + "unimplemented"@ + type_suffix());
                }
                "gts.cf.core.errors.err.v1~cf.core.errors.unimplemented.v1~"
            },
            Category::Internal => {
                proof {
                    reveal_strlit("internal");
                    reveal_strlit("gts.cf.core.errors.err.v1~cf.core.errors.internal.v1~");
                    assert("gts.cf.core.errors.err.v1~cf.core.errors.internal.v1~"@ =~= type_prefix() + "internal"@ + type_suffix());
                }
                "gts.cf.core.errors.err.v1~cf.core.errors.internal.v1~"
            },
            Category::ServiceUnavailable => {
                proof {
                    reveal_strlit("service_unavailable");
                    reveal_strlit("gts.cf.core.errors.err.v1~cf.core.errors.service_unavailable.v1~");
                    assert("gts.cf.core.errors.err.v1~cf.core.errors.service_unavailable.v1~"@ =~= type_prefix() + "service_unavailable"@ + type_suffix());
                }
                "gts.cf.core.errors.err.v1~cf.core.errors.service_unavailable.v1~"
            },
            Category::DataLoss => {
                proof {
                    reveal_strlit("data_loss");
                    reveal_strlit("gts.cf.core.errors.err.v1~cf.core.errors.data_loss.v1~");
                    assert("gts.cf.core.errors.err.v1~cf.core.errors.data_loss.v1~"@ =~= type_prefix() + "data_loss"@ + type_suffix());
                }
                "gts.cf.core.errors.err.v1~cf.core.errors.data_loss.v1~"
            },
            Category::Unauthenticated => {
                proof {
                    reveal_strlit("unauthenticated");
                    reveal_strlit("gts.cf.core.errors.err.v1~cf.core.errors.unauthenticated.v1~");
                    assert("gts.cf.core.errors.err.v1~cf.core.errors.unauthenticated.v1~"@ =~= type_prefix() + "unauthenticated"@ + type_suffix());
                }
                "gts.cf.core.errors.err.v1~cf.core.errors.unauthenticated.v1~"
            },
        }
    }
}

/// The category whose URI name is `name`, if any.
pub open spec fn category_named(name: Seq<char>) -> Option<Category> {
    if name == "cancelled"@ {
        Some(Category::Cancelled)
    } else if name == "unknown"@ {
        Some(Category::Unknown)
    } else if name == "invalid_argument"@ {
        Some(Category::InvalidArgument)
    } else if name == "deadline_exceeded"@ {
        Some(Category::DeadlineExceeded)
    } else if name == "not_found"@ {
        Some(Category::NotFound)
    } else if name == "already_exists"@ {
        Some(Category::AlreadyExists)
    } else if name == "permission_denied"@ {
        Some(Category::PermissionDenied)
    } else if name == "resource_exhausted"@ {
        Some(Category::ResourceExhausted)
    } else if name == "failed_precondition"@ {
        Some(Category::FailedPrecondition)
    } else if name == "aborted"@ {
        Some(Category::Aborted)
    } else if name == "out_of_range"@ {
        Some(Category::OutOfRange)
    } else if name == "unimplemented"@ {
        Some(Category::Unimplemented)
    } else if name == "internal"@ {
        Some(Category::Internal)
    } else if name == "service_unavailable"@ {
        Some(Category::ServiceUnavailable)
    } else if name == "data_loss"@ {
        Some(Category::DataLoss)
    } else if name == "unauthenticated"@ {
        Some(Category::Unauthenticated)
    } else {
        None
    }
}

/// The category whose URI name is `name`, if any.
pub fn category_from_name(name: &String) -> (r: Option<Category>)
    ensures
        r == category_named(name@),
{
    if *name == text("cancelled") {
        return Some(Category::Cancelled);
    }
    if *name == text("unknown") {
        return Some(Category::Unknown);
    }
    if *name == text("invalid_argument") {
        return Some(Category::InvalidArgument);
    }
    if *name == text("deadline_exceeded") {
        return Some(Category::DeadlineExceeded);
    }
    if *name == text("not_found") {
        return Some(Category::NotFound);
    }
    if *name == text("already_exists") {
        return Some(Category::AlreadyExists);
    }
    if *name == text("permission_denied") {
        return Some(Category::PermissionDenied);
    }
    if *name == text("resource_exhausted") {
        return Some(Category::ResourceExhausted);
    }
    if *name == text("failed_precondition") {
        return Some(Category::FailedPrecondition);
    }
    if *name == text("aborted") {
        return Some(Category::Aborted);
    }
    if *name == text("out_of_range") {
        return Some(Category::OutOfRange);
    }
    if *name == text("unimplemented") {
        return Some(Category::Unimplemented);
    }
    if *name == text("internal") {
        return Some(Category::Internal);
    }
    if *name == text("service_unavailable") {
        return Some(Category::ServiceUnavailable);
    }
    if *name == text("data_loss") {
        return Some(Category::DataLoss);
    }
    if *name == text("unauthenticated") {
        return Some(Category::Unauthenticated);
    }
    None
}

/// Each category's URI name finds that category back.
pub proof fn lemma_category_named(c: Category)
    ensures
        category_named(c.spec_name()) == Some(c),
{
    reveal_strlit("cancelled");
    reveal_strlit("unknown");
    reveal_strlit("invalid_argument");
    reveal_strlit("deadline_exceeded");
    reveal_strlit("not_found");
    reveal_strlit("already_exists");
    reveal_strlit("permission_denied");
    reveal_strlit("resource_exhausted");
    reveal_strlit("failed_precondition");
    reveal_strlit("aborted");
    reveal_strlit("out_of_range");
    reveal_strlit("unimplemented");
    reveal_strlit("internal");
    reveal_strlit("service_unavailable");
    reveal_strlit("data_loss");
    reveal_strlit("unauthenticated");
    match c {
        Category::Cancelled => {
        },
        Category::Unknown => {
            assert("cancelled"@.len() != "unknown"@.len());
        },
        Category::InvalidArgument => {
            assert("cancelled"@.len() != "invalid_argument"@.len());
            assert("unknown"@.len() != "invalid_argument"@.len());
        },
        Category::DeadlineExceeded => {
            assert("cancelled"@.len() != "deadline_exceeded"@.len());
            assert("unknown"@.len() != "deadline_exceeded"@.len());
            assert("invalid_argument"@.len() != "deadline_exceeded"@.len());
        },
        Category::NotFound => {
            assert("cancelled"@[0] != "not_found"@[0]);
            assert("unknown"@.len() != "not_found"@.len());
            assert("invalid_argument"@.len() != "not_found"@.len());
            assert("deadline_exceeded"@.len() != "not_found"@.len());
        },
        Category::AlreadyExists => {
            assert("cancelled"@.len() != "already_exists"@.len());
            assert("unknown"@.len() != "already_exists"@.len());
            assert("invalid_argument"@.len() != "already_exists"@.len());
            assert("deadline_exceeded"@.len() != "already_exists"@.len());
            assert("not_found"@.len() != "already_exists"@.len());
        },
        Category::PermissionDenied => {
            assert("cancelled"@.len() != "permission_denied"@.len());
            assert("unknown"@.len() != "permission_denied"@.len());
            assert("invalid_argument"@.len() != "permission_denied"@.len());
            assert("deadline_exceeded"@[0] != "permission_denied"@[0]);
            assert("not_found"@.len() != "permission_denied"@.len());
            assert("already_exists"@.len() != "permission_denied"@.len());
        },
        Category::ResourceExhausted => {
            assert("cancelled"@.len() != "resource_exhausted"@.len());
            assert("unknown"@.len() != "resource_exhausted"@.len());
            assert("invalid_argument"@.len() != "resource_exhausted"@.len());
            assert("deadline_exceeded"@.len() != "resource_exhausted"@.len());
            assert("not_found"@.len() != "resource_exhausted"@.len());
            assert("already_exists"@.len() != "resource_exhausted"@.len());
            assert("permission_denied"@.len() != "resource_exhausted"@.len());
        },
        Category::FailedPrecondition => {
            assert("cancelled"@.len() != "failed_precondition"@.len());
            assert("unknown"@.len() != "failed_precondition"@.len());
            assert("invalid_argument"@.len() != "failed_precondition"@.len());
            assert("deadline_exceeded"@.len() != "failed_precondition"@.len());
            assert("not_found"@.len() != "failed_precondition"@.len());
            assert("already_exists"@.len() != "failed_precondition"@.len());
            assert("permission_denied"@.len() != "failed_precondition"@.len());
            assert("resource_exhausted"@.len() != "failed_precondition"@.len());
        },
        Category::Aborted => {
            assert("cancelled"@.len() != "aborted"@.len());
            assert("unknown"@[0] != "aborted"@[0]);
            assert("invalid_argument"@.len() != "aborted"@.len());
            assert("deadline_exceeded"@.len() != "aborted"@.len());
            assert("not_found"@.len() != "aborted"@.len());
            assert("already_exists"@.len() != "aborted"@.len());
            assert("permission_denied"@.len() != "aborted"@.len());
            assert("resource_exhausted"@.len() != "aborted"@.len());
            assert("failed_precondition"@.len() != "aborted"@.len());
        },
        Category::OutOfRange => {
            assert("cancelled"@.len() != "out_of_range"@.len());
            assert("unknown"@.len() != "out_of_range"@.len());
            assert("invalid_argument"@.len() != "out_of_range"@.len());
            assert("deadline_exceeded"@.len() != "out_of_range"@.len());
            assert("not_found"@.len() != "out_of_range"@.len());
            assert("already_exists"@.len() != "out_of_range"@.len());
            assert("permission_denied"@.len() != "out_of_range"@.len());
            assert("resource_exhausted"@.len() != "out_of_range"@.len());
            assert("failed_precondition"@.len() != "out_of_range"@.len());
            assert("aborted"@.len() != "out_of_range"@.len());
        },
        Category::Unimplemented => {
            assert("cancelled"@.len() != "unimplemented"@.len());
            assert("unknown"@.len() != "unimplemented"@.len());
            assert("invalid_argument"@.len() != "unimplemented"@.len());
            assert("deadline_exceeded"@.len() != "unimplemented"@.len());
            assert("not_found"@.len() != "unimplemented"@.len());
            assert("already_exists"@.len() != "unimplemented"@.len());
            assert("permission_denied"@.len() != "unimplemented"@.len());
            assert("resource_exhausted"@.len() != "unimplemented"@.len());
            assert("failed_precondition"@.len() != "unimplemented"@.len());
            assert("aborted"@.len() != "unimplemented"@.len());
            assert("out_of_range"@.len() != "unimplemented"@.len());
        },
        Category::Internal => {
            assert("cancelled"@.len() != "internal"@.len());
            assert("unknown"@.len() != "internal"@.len());
            assert("invalid_argument"@.len() != "internal"@.len());
            assert("deadline_exceeded"@.len() != "internal"@.len());
            assert("not_found"@.len() != "internal"@.len());
            assert("already_exists"@.len() != "internal"@.len());
            assert("permission_denied"@.len() != "internal"@.len());
            assert("resource_exhausted"@.len() != "internal"@.len());
            assert("failed_precondition"@.len() != "internal"@.len());
            assert("aborted"@.len() != "internal"@.len());
            assert("out_of_range"@.len() != "internal"@.len());
            assert("unimplemented"@.len() != "internal"@.len());
        },
        Category::ServiceUnavailable => {
            assert("cancelled"@.len() != "service_unavailable"@.len());
            assert("unknown"@.len() != "service_unavailable"@.len());
            assert("invalid_argument"@.len() != "service_unavailable"@.len());
            assert("deadline_exceeded"@.len() != "service_unavailable"@.len());
            assert("not_found"@.len() != "service_unavailable"@.len());
            assert("already_exists"@.len() != "service_unavailable"@.len());
            assert("permission_denied"@.len() != "service_unavailable"@.len());
            assert("resource_exhausted"@.len() != "service_unavailable"@.len());
            assert("failed_precondition"@[0] != "service_unavailable"@[0]);
            assert("aborted"@.len() != "service_unavailable"@.len());
            assert("out_of_range"@.len() != "service_unavailable"@.len());
            assert("unimplemented"@.len() != "service_unavailable"@.len());
            assert("internal"@.len() != "service_unavailable"@.len());
        },
        Category::DataLoss => {
            assert("cancelled"@[0] != "data_loss"@[0]);
            assert("unknown"@.len() != "data_loss"@.len());
            assert("invalid_argument"@.len() != "data_loss"@.len());
            assert("deadline_exceeded"@.len() != "data_loss"@.len());
            assert("not_found"@[0] != "data_loss"@[0]);
            assert("already_exists"@.len() != "data_loss"@.len());
            assert("permission_denied"@.len() != "data_loss"@.len());
            assert("resource_exhausted"@.len() != "data_loss"@.len());
            assert("failed_precondition"@.len() != "data_loss"@.len());
            assert("aborted"@.len() != "data_loss"@.len());
            assert("out_of_range"@.len() != "data_loss"@.len());
            assert("unimplemented"@.len() != "data_loss"@.len());
            assert("internal"@.len() != "data_loss"@.len());
            assert("service_unavailable"@.len() != "data_loss"@.len());
        },
        Category::Unauthenticated => {
            assert("cancelled"@.len() != "unauthenticated"@.len());
            assert("unknown"@.len() != "unauthenticated"@.len());
            assert("invalid_argument"@.len() != "unauthenticated"@.len());
            assert("deadline_exceeded"@.len() != "unauthenticated"@.len());
            assert("not_found"@.len() != "unauthenticated"@.len());
            assert("already_exists"@.len() != "unauthenticated"@.len());
            assert("permission_denied"@.len() != "unauthenticated"@.len());
            assert("resource_exhausted"@.len() != "unauthenticated"@.len());
            assert("failed_precondition"@.len() != "unauthenticated"@.len());
            assert("aborted"@.len() != "unauthenticated"@.len());
            assert("out_of_range"@.len() != "unauthenticated"@.len());
            assert("unimplemented"@.len() != "unauthenticated"@.len());
            assert("internal"@.len() != "unauthenticated"@.len());
            assert("service_unavailable"@.len() != "unauthenticated"@.len());
            assert("data_loss"@.len() != "unauthenticated"@.len());
        },
    }
}

/// A category's type URI is well formed and holds the category's name.
pub proof fn lemma_type_uri_parses(c: Category)
    ensures
        well_formed_type(c.spec_type_uri()),
        uri_category_name(c.spec_type_uri()) == c.spec_name(),
{
    let u = c.spec_type_uri();
    let p = type_prefix();
    let s = type_suffix();
    assert(u.subrange(0, p.len() as int) =~= p);
    assert(u.subrange(u.len() - s.len(), u.len() as int) =~= s);
    assert(uri_category_name(u) =~= c.spec_name());
}

/// The registry is exhaustive and unambiguous: distinct categories have
/// distinct URI names and so distinct type URIs, and every type URI of the
/// registry parses back to its own category.
pub proof fn lemma_registry_unambiguous(a: Category, b: Category)
    ensures
        a != b ==> a.spec_name() != b.spec_name(),
        a != b ==> a.spec_type_uri() != b.spec_type_uri(),
        well_formed_type(a.spec_type_uri()),
        category_named(uri_category_name(a.spec_type_uri())) == Some(a),
{
    lemma_type_uri_parses(a);
    lemma_type_uri_parses(b);
    lemma_category_named(a);
    lemma_category_named(b);
}

} // verus!
