use vstd::prelude::*;

use crate::category::{lemma_registry_unambiguous, Category};
use crate::context::{
    lemma_tagged_agrees, resource_type_key, tagged, ResourceInfoV1,
};
use crate::error::CanonicalError;
use crate::json::{lemma_lookup_absent, lemma_lookup_at, lemma_lookup_with_member, lookup, str_field, JsonModel};
use crate::problem::{
    converts_to, wire_members, Problem, ProblemConversionError,
};

verus! {

/// Whether two errors cannot be told apart: same category, message,
/// resource-type tag, debug detail and context.
pub open spec fn observably_equal(a: CanonicalError, b: CanonicalError) -> bool {
    &&& a.spec_category() == b.spec_category()
    &&& a.spec_message() == b.spec_message()
    &&& a.spec_resource_type() == b.spec_resource_type()
    &&& a.spec_debug_info() == b.spec_debug_info()
    &&& a.spec_context() == b.spec_context()
}

/// Whether the context type of category `c` is the resource identity, which
/// has a `resource_type` field of its own.
pub open spec fn has_resource_context(c: Category) -> bool {
    c == Category::NotFound || c == Category::AlreadyExists || c == Category::DataLoss
}

/// Every error's context, tagged or not, reads back as its category's context
/// type; an untagged context other than a resource identity has no
/// `resource_type` member.
proof fn lemma_context_reads_back(e: CanonicalError, tag: Seq<char>)
    ensures
        crate::error::context_decodable(e.spec_category(), e.spec_context()),
        crate::error::context_decodable(e.spec_category(), tagged(e.spec_context(), tag)),
        e.spec_context() is Object,
        !has_resource_context(e.spec_category()) ==> lookup(e.spec_context(), resource_type_key())
            is None,
{
    match e {
        CanonicalError::Cancelled { ctx, .. } => ctx.lemma_decode_encoded(tag),
        CanonicalError::Unknown { ctx, .. } => ctx.lemma_decode_encoded(tag),
        CanonicalError::InvalidArgument { ctx, .. } => ctx.lemma_decode_encoded(tag),
        CanonicalError::DeadlineExceeded { ctx, .. } => ctx.lemma_decode_encoded(tag),
        CanonicalError::NotFound { ctx, .. } => ctx.lemma_decode_encoded(tag),
        CanonicalError::AlreadyExists { ctx, .. } => ctx.lemma_decode_encoded(tag),
        CanonicalError::PermissionDenied { ctx, .. } => ctx.lemma_decode_encoded(tag),
        CanonicalError::ResourceExhausted { ctx, .. } => ctx.lemma_decode_encoded(tag),
        CanonicalError::FailedPrecondition { ctx, .. } => ctx.lemma_decode_encoded(tag),
        CanonicalError::Aborted { ctx, .. } => ctx.lemma_decode_encoded(tag),
        CanonicalError::OutOfRange { ctx, .. } => ctx.lemma_decode_encoded(tag),
        CanonicalError::Unimplemented { ctx, .. } => ctx.lemma_decode_encoded(tag),
        CanonicalError::Internal { ctx, .. } => ctx.lemma_decode_encoded(tag),
        CanonicalError::ServiceUnavailable { ctx, .. } => ctx.lemma_decode_encoded(tag),
        CanonicalError::DataLoss { ctx, .. } => ctx.lemma_decode_encoded(tag),
        CanonicalError::Unauthenticated { ctx, .. } => ctx.lemma_decode_encoded(tag),
    }
}

/// Round trip: converting an error to a problem document and back, in either
/// mode, succeeds and keeps the category (hence the status code and the type
/// URI) and the message. In production mode no debug detail comes back; in
/// debug mode it comes back exactly when the error had some.
pub proof fn lemma_round_trip(
    e: CanonicalError,
    include_debug: bool,
    p: Problem,
    r: Result<CanonicalError, ProblemConversionError>,
)
    requires
        p.describes(e, include_debug),
        converts_to(p, r),
    ensures
        r matches Ok(back) && back.spec_category() == e.spec_category()
            && back.spec_category().spec_status() == e.spec_category().spec_status()
            && back.spec_message() == e.spec_message() && (if include_debug {
            back.spec_debug_info() is Some == e.spec_debug_info() is Some
        } else {
            back.spec_debug_info() is None
        }),
{
    let c = e.spec_category();
    lemma_registry_unambiguous(c, c);
    let tag = match e.spec_resource_type() {
        Some(t) => t,
        None => Seq::empty(),
    };
    lemma_context_reads_back(e, tag);
    if include_debug {
        match e.spec_debug_info() {
            Some(d) => {
                d.lemma_decode_encoded(Seq::empty());
            },
            None => {},
        }
    }
}

/// Debug redaction: the production document has no `debug` member; the debug
/// document is the production document with the error's debug payload, if it
/// has one, appended under `debug`, and is otherwise identical.
pub proof fn lemma_debug_redaction(e: CanonicalError, production: Problem, debug: Problem)
    requires
        production.describes(e, false),
        debug.describes(e, true),
    ensures
        lookup(JsonModel::Object(wire_members(production)), "debug"@) is None,
        match e.spec_debug_info() {
            Some(d) => wire_members(debug) == wire_members(production).push(("debug"@, d.encoded()))
                && lookup(JsonModel::Object(wire_members(debug)), "debug"@) == Some(d.encoded()),
            None => wire_members(debug) == wire_members(production),
        },
{
    reveal_strlit("type");
    reveal_strlit("title");
    reveal_strlit("status");
    reveal_strlit("detail");
    reveal_strlit("context");
    reveal_strlit("debug");
    let ms = wire_members(production);
    assert("debug"@ != "type"@ && "debug"@ != "title"@ && "debug"@ != "status"@ && "debug"@
        != "detail"@ && "debug"@ != "context"@) by {
        assert("debug"@.len() != "type"@.len());
        assert("debug"@[0] != "title"@[0]);
        assert("debug"@.len() != "status"@.len());
        assert("debug"@.len() != "detail"@.len());
        assert("debug"@.len() != "context"@.len());
    }
    lemma_lookup_absent(ms, "debug"@);
    match e.spec_debug_info() {
        Some(d) => {
            let ds = wire_members(debug);
            assert(ds =~= ms.push(("debug"@, d.encoded())));
            lemma_lookup_at(ds, ds.len() - 1);
        },
        None => {
            assert(wire_members(debug) =~= ms);
        },
    }
}

/// The conversion is a function of the error and the mode: two documents
/// built from one error in one mode are the same on the wire. In particular
/// the default conversion and `from_error` agree.
pub proof fn lemma_conversion_deterministic(
    e: CanonicalError,
    include_debug: bool,
    first: Problem,
    second: Problem,
)
    requires
        first.describes(e, include_debug),
        second.describes(e, include_debug),
    ensures
        wire_members(first) == wire_members(second),
{
    assert(wire_members(first) =~= wire_members(second));
}

/// Resource-type injection: a tagged error's document carries the tag as a
/// string under `resource_type` in its context; an untagged error's document
/// has no such member, unless its context is a resource identity, which has a
/// `resource_type` field of its own.
pub proof fn lemma_resource_type_injection(e: CanonicalError, include_debug: bool, p: Problem)
    requires
        p.describes(e, include_debug),
    ensures
        e.spec_resource_type() matches Some(t) ==> str_field(p.context@, "resource_type"@) == Some(t),
        e.spec_resource_type() is None && !has_resource_context(e.spec_category()) ==> lookup(
            p.context@,
            "resource_type"@,
        ) is None,
{
    lemma_context_reads_back(e, Seq::empty());
    match e.spec_resource_type() {
        Some(t) => {
            lemma_lookup_with_member(
                e.spec_context(),
                resource_type_key(),
                JsonModel::Str(t),
                resource_type_key(),
            );
        },
        None => {},
    }
}

/// Generator equivalence: the bound constructor `not_found(name)` gives an
/// error that cannot be told apart from building the resource identity by
/// hand, calling `not_found` on it and tagging the result with the bound type.
/// The premises are what the bound constructor, `ResourceInfo::new`,
/// `CanonicalError::not_found` and `with_resource_type` promise.
pub proof fn lemma_generated_not_found(
    tag: Seq<char>,
    name: Seq<char>,
    generated: CanonicalError,
    info: ResourceInfoV1,
    built: CanonicalError,
    manual: CanonicalError,
)
    requires
        generated.tagged_as(Category::NotFound, "Resource not found"@, tag),
        generated matches CanonicalError::NotFound { ctx, .. } && ctx.resource_type@ == tag
            && ctx.resource_name@ == name && ctx.description@ == "Resource not found"@,
        info.resource_type@ == tag,
        info.resource_name@ == name,
        info.description@ == "Resource not found"@,
        built.fresh(Category::NotFound, "Resource not found"@),
        built matches CanonicalError::NotFound { ctx, .. } && ctx == info,
        manual.same_context(&built),
        manual.spec_category() == built.spec_category(),
        manual.spec_message() == built.spec_message(),
        manual.spec_resource_type() == Some(tag),
        manual.spec_debug_info() == built.spec_debug_info(),
    ensures
        observably_equal(generated, manual),
{
}

/// A problem document written as JSON reads back as the same document. The
/// one exception is a debug payload that is JSON null: it is written as
/// `"debug": null`, which reads back as no debug payload.
pub proof fn lemma_wire_round_trip(p: Problem)
    requires
        !(p.debug matches Some(d) && d@ == JsonModel::Null),
    ensures
        Problem::readable(JsonModel::Object(wire_members(p))),
        p.read_from(JsonModel::Object(wire_members(p))),
{
    reveal_strlit("type");
    reveal_strlit("title");
    reveal_strlit("status");
    reveal_strlit("detail");
    reveal_strlit("instance");
    reveal_strlit("trace_id");
    reveal_strlit("context");
    reveal_strlit("debug");
    assert("type"@.len() != "title"@.len());
    assert("type"@.len() != "status"@.len());
    assert("type"@.len() != "detail"@.len());
    assert("type"@.len() != "instance"@.len());
    assert("type"@.len() != "trace_id"@.len());
    assert("type"@.len() != "context"@.len());
    assert("type"@.len() != "debug"@.len());
    assert("title"@.len() != "status"@.len());
    assert("title"@.len() != "detail"@.len());
    assert("title"@.len() != "instance"@.len());
    assert("title"@.len() != "trace_id"@.len());
    assert("title"@.len() != "context"@.len());
    assert("title"@[0] != "debug"@[0]);
    assert("status"@[0] != "detail"@[0]);
    assert("status"@.len() != "instance"@.len());
    assert("status"@.len() != "trace_id"@.len());
    assert("status"@.len() != "context"@.len());
    assert("status"@.len() != "debug"@.len());
    assert("detail"@.len() != "instance"@.len());
    assert("detail"@.len() != "trace_id"@.len());
    assert("detail"@.len() != "context"@.len());
    assert("detail"@.len() != "debug"@.len());
    assert("instance"@[0] != "trace_id"@[0]);
    assert("instance"@.len() != "context"@.len());
    assert("instance"@.len() != "debug"@.len());
    assert("trace_id"@.len() != "context"@.len());
    assert("trace_id"@.len() != "debug"@.len());
    assert("context"@.len() != "debug"@.len());
    let ms = wire_members(p);
    let head = seq![
        ("type"@, JsonModel::Str(p.problem_type@)),
        ("title"@, JsonModel::Str(p.title@)),
        ("status"@, JsonModel::UInt(p.status as nat)),
        ("detail"@, JsonModel::Str(p.detail@)),
    ];
    let optional = match (p.instance, p.trace_id) {
        (Some(i), Some(t)) => seq![("instance"@, JsonModel::Str(i@)), ("trace_id"@, JsonModel::Str(t@))],
        (Some(i), None) => seq![("instance"@, JsonModel::Str(i@))],
        (None, Some(t)) => seq![("trace_id"@, JsonModel::Str(t@))],
        (None, None) => Seq::empty(),
    };
    let tail = match p.debug {
        Some(d) => seq![("context"@, p.context@), ("debug"@, d@)],
        None => seq![("context"@, p.context@)],
    };
    assert(ms =~= head + optional + tail);
    let n: int = 4 + optional.len() as int;
    assert forall|i: int| 0 <= i < ms.len() implies #[trigger] lookup(JsonModel::Object(ms), ms[i].0)
        == Some(ms[i].1) by {
        lemma_lookup_at(ms, i);
    }
    assert(ms[0].0 == "type"@);
    assert(ms[1].0 == "title"@);
    assert(ms[2].0 == "status"@);
    assert(ms[3].0 == "detail"@);
    assert(ms[n].0 == "context"@);
    if p.instance is Some {
        assert(ms[4].0 == "instance"@);
    } else {
        lemma_lookup_absent(ms, "instance"@);
    }
    if p.trace_id is Some {
        assert(ms[n - 1].0 == "trace_id"@);
    } else {
        lemma_lookup_absent(ms, "trace_id"@);
    }
    if p.debug is Some {
        assert(ms[n + 1].0 == "debug"@);
    } else {
        lemma_lookup_absent(ms, "debug"@);
    }
}

/// Whether an error's context is well formed: error information, where the
/// context is one, has distinct metadata keys.
pub open spec fn context_wf(e: CanonicalError) -> bool {
    match e {
        CanonicalError::PermissionDenied { ctx, .. } => ctx.wf(),
        CanonicalError::Aborted { ctx, .. } => ctx.wf(),
        CanonicalError::Unimplemented { ctx, .. } => ctx.wf(),
        CanonicalError::Unauthenticated { ctx, .. } => ctx.wf(),
        _ => true,
    }
}

/// Round trip of the context: the error read back from an error's document
/// holds the same context, field for field. This needs a well-formed context
/// (metadata with a repeated key reads back with the key once), and a
/// resource identity must not be tagged (the tag overwrites its own
/// `resource_type` field on the wire).
pub proof fn lemma_context_round_trip(
    e: CanonicalError,
    include_debug: bool,
    p: Problem,
    r: Result<CanonicalError, ProblemConversionError>,
)
    requires
        p.describes(e, include_debug),
        converts_to(p, r),
        context_wf(e),
        e.spec_resource_type() is None || !has_resource_context(e.spec_category()),
    ensures
        r matches Ok(back) && back.spec_context() == e.spec_context(),
{
    lemma_round_trip(e, include_debug, p, r);
    let back = r->Ok_0;
    let m = p.context@;
    lemma_context_reads_back(e, Seq::empty());
    let tag = match e.spec_resource_type() {
        Some(t) => t,
        None => Seq::empty(),
    };
    lemma_tagged_agrees(e.spec_context(), tag);
    match (e, back) {
        (CanonicalError::Cancelled { ctx: a, .. }, CanonicalError::Cancelled { ctx: b, .. }) => {
            a.lemma_read_back(&b, m);
        },
        (CanonicalError::Unknown { ctx: a, .. }, CanonicalError::Unknown { ctx: b, .. }) => {
            a.lemma_read_back(&b, m);
        },
        (CanonicalError::InvalidArgument { ctx: a, .. }, CanonicalError::InvalidArgument { ctx: b, .. }) => {
            a.lemma_read_back(&b, m);
        },
        (CanonicalError::DeadlineExceeded { ctx: a, .. }, CanonicalError::DeadlineExceeded { ctx: b, .. }) => {
            a.lemma_read_back(&b, m);
        },
        (CanonicalError::NotFound { ctx: a, .. }, CanonicalError::NotFound { ctx: b, .. }) => {
            a.lemma_read_back(&b, m);
        },
        (CanonicalError::AlreadyExists { ctx: a, .. }, CanonicalError::AlreadyExists { ctx: b, .. }) => {
            a.lemma_read_back(&b, m);
        },
        (CanonicalError::PermissionDenied { ctx: a, .. }, CanonicalError::PermissionDenied { ctx: b, .. }) => {
            a.lemma_read_back(&b, m);
        },
        (CanonicalError::ResourceExhausted { ctx: a, .. }, CanonicalError::ResourceExhausted { ctx: b, .. }) => {
            a.lemma_read_back(&b, m);
        },
        (CanonicalError::FailedPrecondition { ctx: a, .. }, CanonicalError::FailedPrecondition { ctx: b, .. }) => {
            a.lemma_read_back(&b, m);
        },
        (CanonicalError::Aborted { ctx: a, .. }, CanonicalError::Aborted { ctx: b, .. }) => {
            a.lemma_read_back(&b, m);
        },
        (CanonicalError::OutOfRange { ctx: a, .. }, CanonicalError::OutOfRange { ctx: b, .. }) => {
            a.lemma_read_back(&b, m);
        },
        (CanonicalError::Unimplemented { ctx: a, .. }, CanonicalError::Unimplemented { ctx: b, .. }) => {
            a.lemma_read_back(&b, m);
        },
        (CanonicalError::Internal { ctx: a, .. }, CanonicalError::Internal { ctx: b, .. }) => {
            a.lemma_read_back(&b, m);
        },
        (CanonicalError::ServiceUnavailable { ctx: a, .. }, CanonicalError::ServiceUnavailable { ctx: b, .. }) => {
            a.lemma_read_back(&b, m);
        },
        (CanonicalError::DataLoss { ctx: a, .. }, CanonicalError::DataLoss { ctx: b, .. }) => {
            a.lemma_read_back(&b, m);
        },
        (CanonicalError::Unauthenticated { ctx: a, .. }, CanonicalError::Unauthenticated { ctx: b, .. }) => {
            a.lemma_read_back(&b, m);
        },
        _ => {},
    }
}

} // verus!

