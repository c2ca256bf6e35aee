use vstd::prelude::*;
use vstd::string::StringExecFns;

use crate::category::{
    category_from_name, category_named, type_prefix, type_suffix, uri_category_name,
    well_formed_type, Category,
};
use crate::context::{
    failure_of, resource_type_key, tagged, DebugInfoV1, ShapeError, ShapeErrorKind, ErrorInfoV1, PreconditionFailureV1, QuotaFailureV1,
    RequestInfoV1, ResourceInfoV1, RetryInfoV1, Validation,
};
use crate::error::{context_decodable, CanonicalError};
use crate::json::{lookup, object, str_field, str_member, text, Json, JsonModel};

verus! {

/// Which payload of a problem document could not be read.
#[derive(Debug, Clone, Copy, PartialEq, Eq, Structural)]
pub enum Payload {
    Context,
    Debug,
}

/// Why a problem document could not be turned back into a canonical error.
#[derive(Debug, Clone)]
pub enum ProblemConversionError {
    /// The type URI lacks the fixed prefix or suffix.
    InvalidType(String),
    /// The name in the type URI is none of the sixteen categories.
    UnknownCategory(String),
    /// The context, or the debug payload, does not have the shape that the
    /// category needs; `payload` says which of the two, `source` what is wrong
    /// with it.
    ContextDeserializationFailed { category: String, payload: Payload, source: ShapeError },
}

impl ProblemConversionError {
    /// The error as people read it.
    pub fn to_string(&self) -> (r: String)
        ensures
            match self {
                ProblemConversionError::InvalidType(t) => r@ == "invalid GTS type URI: "@ + t@,
                ProblemConversionError::UnknownCategory(c) => r@
                    == "unknown canonical error category: "@ + c@,
                ProblemConversionError::ContextDeserializationFailed { category, source, .. } => r@
                    == "failed to deserialize context for "@ + category@ + ": "@ + source.spec_text(),
            },
    {
        match self {
            ProblemConversionError::InvalidType(t) => {
                let mut s = text("invalid GTS type URI: ");
                s.append(t.as_str());
                s
            },
            ProblemConversionError::UnknownCategory(c) => {
                let mut s = text("unknown canonical error category: ");
                s.append(c.as_str());
                s
            },
            ProblemConversionError::ContextDeserializationFailed { category, source, .. } => {
                let mut s = text("failed to deserialize context for ");
                s.append(category.as_str());
                s.append(": ");
                let cause = source.to_string();
                s.append(cause.as_str());
                s
            },
        }
    }
}

/// Reads the category name out of a type URI: what stands between the fixed
/// prefix and the fixed suffix.
pub fn parse_category(problem_type: &str) -> (r: Result<String, ProblemConversionError>)
    ensures
        if well_formed_type(problem_type@) {
            r matches Ok(name) && name@ == uri_category_name(problem_type@)
        } else {
            r matches Err(ProblemConversionError::InvalidType(t)) && t@ == problem_type@
        },
{
    let prefix = "gts.cf.core.errors.err.v1~cf.core.errors.";
    let suffix = ".v1~";
    let n = problem_type.unicode_len();
    let plen = prefix.unicode_len();
    let slen = suffix.unicode_len();
    proof {
        reveal_strlit("gts.cf.core.errors.err.v1~cf.core.errors.");
        reveal_strlit(".v1~");
    }
    if n < plen + slen {
        return Err(ProblemConversionError::InvalidType(text(problem_type)));
    }
    let mut i: usize = 0;
    while i < plen
        invariant
            i <= plen,
            plen == type_prefix().len(),
            prefix@ == type_prefix(),
            n == problem_type@.len(),
            n >= plen + slen,
            forall|k: int| 0 <= k < i ==> problem_type@[k] == type_prefix()[k],
        decreases plen - i,
    {
        if problem_type.get_char(i) != prefix.get_char(i) {
            assert(problem_type@.subrange(0, plen as int)[i as int] != type_prefix()[i as int]);
            return Err(ProblemConversionError::InvalidType(text(problem_type)));
        }
        i = i + 1;
    }
    assert(problem_type@.subrange(0, plen as int) =~= type_prefix());
    let start = n - slen;
    let mut k: usize = 0;
    while k < slen
        invariant
            k <= slen,
            slen == type_suffix().len(),
            suffix@ == type_suffix(),
            n == problem_type@.len(),
            start == n - slen,
            forall|q: int| 0 <= q < k ==> problem_type@[start + q] == type_suffix()[q],
        decreases slen - k,
    {
        if problem_type.get_char(start + k) != suffix.get_char(k) {
            assert(problem_type@.subrange(start as int, n as int)[k as int] != type_suffix()[k as int]);
            return Err(ProblemConversionError::InvalidType(text(problem_type)));
        }
        k = k + 1;
    }
    assert(problem_type@.subrange(start as int, n as int) =~= type_suffix());
    let middle = problem_type.substring_char(plen, start);
    Ok(text(middle))
}

/// The resource-type tag that a context carries, if it holds a string under
/// `resource_type`.
fn extract_resource_type(context: &Json) -> (r: Option<String>)
    ensures
        match str_field(context@, resource_type_key()) {
            Some(s) => r matches Some(t) && t@ == s,
            None => r is None,
        },
{
    context.get_str("resource_type")
}

/// The context as it goes on the wire: the error's context, with its
/// resource-type tag set under `resource_type` when it has one.
pub open spec fn context_on_wire(e: CanonicalError) -> JsonModel {
    match e.spec_resource_type() {
        Some(rt) => tagged(e.spec_context(), rt),
        None => e.spec_context(),
    }
}

/// The debug payload as it goes on the wire: only in debug mode, and only
/// when the error carries one.
pub open spec fn debug_on_wire(e: CanonicalError, include_debug: bool) -> Option<JsonModel> {
    if include_debug {
        match e.spec_debug_info() {
            Some(d) => Some(d.encoded()),
            None => None,
        }
    } else {
        None
    }
}

pub open spec fn opt_model(j: Option<Json>) -> Option<JsonModel> {
    match j {
        Some(v) => Some(v@),
        None => None,
    }
}

/// Whether a debug payload read from a document matches what the document held.
pub open spec fn debug_read(d: Option<DebugInfoV1>, j: Option<Json>) -> bool {
    match (d, j) {
        (None, None) => true,
        (Some(v), Some(w)) => v.decoded_from(w@),
        _ => false,
    }
}

/// Whether the debug payload of a document, if any, reads as debug detail.
pub open spec fn debug_readable(j: Option<Json>) -> bool {
    match j {
        Some(w) => DebugInfoV1::decodable(w@),
        None => true,
    }
}

/// Why the context type bound to `c` cannot be read from `m`.
pub open spec fn context_failure(c: Category, m: JsonModel) -> Option<(ShapeErrorKind, Seq<char>)> {
    match c {
        Category::Cancelled => RequestInfoV1::failure(m),
        Category::Unknown => DebugInfoV1::failure(m),
        Category::InvalidArgument => Validation::failure(m),
        Category::DeadlineExceeded => RequestInfoV1::failure(m),
        Category::NotFound => ResourceInfoV1::failure(m),
        Category::AlreadyExists => ResourceInfoV1::failure(m),
        Category::PermissionDenied => ErrorInfoV1::failure(m),
        Category::ResourceExhausted => QuotaFailureV1::failure(m),
        Category::FailedPrecondition => PreconditionFailureV1::failure(m),
        Category::Aborted => ErrorInfoV1::failure(m),
        Category::OutOfRange => Validation::failure(m),
        Category::Unimplemented => ErrorInfoV1::failure(m),
        Category::Internal => DebugInfoV1::failure(m),
        Category::ServiceUnavailable => RetryInfoV1::failure(m),
        Category::DataLoss => ResourceInfoV1::failure(m),
        Category::Unauthenticated => ErrorInfoV1::failure(m),
    }
}

/// What converting `p` back gives. The steps run in order and the first that
/// fails decides the error: the type URI is parsed, the category is looked up
/// by name, the context is read as the category's context type, and the debug
/// payload, if any, is read. When none fails, the result is an error of that
/// category with the document's message, the tag found in its context, its
/// context and its debug payload.
pub open spec fn converts_to(p: Problem, r: Result<CanonicalError, ProblemConversionError>) -> bool {
    let t = p.problem_type@;
    let name = uri_category_name(t);
    if !well_formed_type(t) {
        r matches Err(ProblemConversionError::InvalidType(s)) && s@ == t
    } else {
        match category_named(name) {
            None => r matches Err(ProblemConversionError::UnknownCategory(n)) && n@ == name,
            Some(c) => if !context_decodable(c, p.context@) {
                r matches Err(
                    ProblemConversionError::ContextDeserializationFailed { category, payload, source },
                ) && category@ == name && payload == Payload::Context && context_failure(
                    c,
                    p.context@,
                ) == Some(failure_of(source))
            } else if !debug_readable(p.debug) {
                r matches Err(
                    ProblemConversionError::ContextDeserializationFailed { category, payload, source },
                ) && category@ == name && payload == Payload::Debug && DebugInfoV1::failure(
                    p.debug->Some_0@,
                ) == Some(failure_of(source))
            } else {
                r matches Ok(e) && e.spec_category() == c && e.spec_message() == p.detail@
                    && e.spec_resource_type() == str_field(p.context@, resource_type_key())
                    && e.context_decoded_from(p.context@) && debug_read(e.spec_debug_info(), p.debug)
            },
        }
    }
}

fn context_failed(category: String, payload: Payload, source: ShapeError) -> (r:
    ProblemConversionError)
    ensures
        r == (ProblemConversionError::ContextDeserializationFailed { category, payload, source }),
{
    ProblemConversionError::ContextDeserializationFailed { category, payload, source }
}

/// Reads `context` as the context type bound to `category` and makes a fresh
/// error of that category from it.
fn read_context(
    category: Category,
    context: &Json,
    message: String,
    resource_type: Option<String>,
) -> (r: Result<CanonicalError, ShapeError>)
    ensures
        match r {
            Ok(e) => context_decodable(category, context@) && e.spec_category() == category
                && e.spec_message() == message@ && e.spec_resource_type() == (match resource_type {
                Some(t) => Some(t@),
                None => None,
            }) && e.context_decoded_from(context@) && e.spec_debug_info() is None,
            Err(s) => !context_decodable(category, context@) && context_failure(category, context@)
                == Some(failure_of(s)),
        },
{
    match category {
        Category::Cancelled => match RequestInfoV1::from_json(context) {
            Ok(ctx) => Ok(CanonicalError::Cancelled { ctx, message, resource_type, debug_info: None }),
            Err(s) => Err(s),
        },
        Category::Unknown => match DebugInfoV1::from_json(context) {
            Ok(ctx) => Ok(CanonicalError::Unknown { ctx, message, resource_type, debug_info: None }),
            Err(s) => Err(s),
        },
        Category::InvalidArgument => match Validation::from_json(context) {
            Ok(ctx) => Ok(CanonicalError::InvalidArgument { ctx, message, resource_type, debug_info: None }),
            Err(s) => Err(s),
        },
        Category::DeadlineExceeded => match RequestInfoV1::from_json(context) {
            Ok(ctx) => Ok(CanonicalError::DeadlineExceeded { ctx, message, resource_type, debug_info: None }),
            Err(s) => Err(s),
        },
        Category::NotFound => match ResourceInfoV1::from_json(context) {
            Ok(ctx) => Ok(CanonicalError::NotFound { ctx, message, resource_type, debug_info: None }),
            Err(s) => Err(s),
        },
        Category::AlreadyExists => match ResourceInfoV1::from_json(context) {
            Ok(ctx) => Ok(CanonicalError::AlreadyExists { ctx, message, resource_type, debug_info: None }),
            Err(s) => Err(s),
        },
        Category::PermissionDenied => match ErrorInfoV1::from_json(context) {
            Ok(ctx) => Ok(CanonicalError::PermissionDenied { ctx, message, resource_type, debug_info: None }),
            Err(s) => Err(s),
        },
        Category::ResourceExhausted => match QuotaFailureV1::from_json(context) {
            Ok(ctx) => Ok(CanonicalError::ResourceExhausted { ctx, message, resource_type, debug_info: None }),
            Err(s) => Err(s),
        },
        Category::FailedPrecondition => match PreconditionFailureV1::from_json(context) {
            Ok(ctx) => Ok(CanonicalError::FailedPrecondition { ctx, message, resource_type, debug_info: None }),
            Err(s) => Err(s),
        },
        Category::Aborted => match ErrorInfoV1::from_json(context) {
            Ok(ctx) => Ok(CanonicalError::Aborted { ctx, message, resource_type, debug_info: None }),
            Err(s) => Err(s),
        },
        Category::OutOfRange => match Validation::from_json(context) {
            Ok(ctx) => Ok(CanonicalError::OutOfRange { ctx, message, resource_type, debug_info: None }),
            Err(s) => Err(s),
        },
        Category::Unimplemented => match ErrorInfoV1::from_json(context) {
            Ok(ctx) => Ok(CanonicalError::Unimplemented { ctx, message, resource_type, debug_info: None }),
            Err(s) => Err(s),
        },
        Category::Internal => match DebugInfoV1::from_json(context) {
            Ok(ctx) => Ok(CanonicalError::Internal { ctx, message, resource_type, debug_info: None }),
            Err(s) => Err(s),
        },
        Category::ServiceUnavailable => match RetryInfoV1::from_json(context) {
            Ok(ctx) => Ok(CanonicalError::ServiceUnavailable { ctx, message, resource_type, debug_info: None }),
            Err(s) => Err(s),
        },
        Category::DataLoss => match ResourceInfoV1::from_json(context) {
            Ok(ctx) => Ok(CanonicalError::DataLoss { ctx, message, resource_type, debug_info: None }),
            Err(s) => Err(s),
        },
        Category::Unauthenticated => match ErrorInfoV1::from_json(context) {
            Ok(ctx) => Ok(CanonicalError::Unauthenticated { ctx, message, resource_type, debug_info: None }),
            Err(s) => Err(s),
        },
    }
}

/// Reads the debug payload of a document, if it has one.
fn read_debug(debug: &Option<Json>) -> (r: Result<Option<DebugInfoV1>, ShapeError>)
    ensures
        match r {
            Ok(d) => debug_readable(*debug) && debug_read(d, *debug),
            Err(e) => !debug_readable(*debug) && DebugInfoV1::failure(debug->Some_0@) == Some(
                failure_of(e),
            ),
        },
{
    match debug {
        Some(d) => match DebugInfoV1::from_json(d) {
            Ok(info) => Ok(Some(info)),
            Err(e) => Err(e),
        },
        None => Ok(None),
    }
}

/// A problem document: the flat form of a canonical error that crosses the wire.
#[derive(Debug)]
pub struct Problem {
    pub problem_type: String,
    pub title: String,
    pub status: u16,
    pub detail: String,
    pub instance: Option<String>,
    pub trace_id: Option<String>,
    pub context: Json,
    pub debug: Option<Json>,
}

impl Problem {
    /// Whether `self` is the document that `e` converts to.
    pub open spec fn describes(&self, e: CanonicalError, include_debug: bool) -> bool {
        &&& self.problem_type@ == e.spec_category().spec_type_uri()
        &&& self.title@ == e.spec_category().spec_title()
        &&& self.status == e.spec_category().spec_status()
        &&& self.detail@ == e.spec_message()
        &&& self.instance is None
        &&& self.trace_id is None
        &&& self.context@ == context_on_wire(e)
        &&& opt_model(self.debug) == debug_on_wire(e, include_debug)
    }

    /// Converts an error for production: the debug payload is always left out.
    pub fn from_error(err: CanonicalError) -> (r: Problem)
        ensures
            r.describes(err, false),
    {
        Self::build(err, false)
    }

    /// Converts an error for debugging: its debug payload, if any, goes under `debug`.
    pub fn from_error_debug(err: CanonicalError) -> (r: Problem)
        ensures
            r.describes(err, true),
    {
        Self::build(err, true)
    }

    fn build(err: CanonicalError, include_debug: bool) -> (r: Problem)
        ensures
            r.describes(err, include_debug),
    {
        let problem_type = text(err.gts_type());
        let title = text(err.title());
        let status = err.status_code();
        let detail = text(err.message());
        let mut context = err.context_json();
        match err.resource_type() {
            Some(rt) => {
                context.set(text("resource_type"), Json::Str(text(rt)));
            },
            None => {},
        }
        let debug = if include_debug {
            match err.debug_info() {
                Some(info) => Some(info.to_json()),
                None => None,
            }
        } else {
            None
        };
        Problem { problem_type, title, status, detail, instance: None, trace_id: None, context, debug }
    }
}

/// The default conversion, as `Problem::from_error`; it also gives `err.into()`.
impl From<CanonicalError> for Problem {
    fn from(err: CanonicalError) -> (r: Problem)
        ensures
            r.describes(err, false),
    {
        Problem::from_error(err)
    }
}

impl vstd::std_specs::convert::FromSpecImpl<CanonicalError> for Problem {
    open spec fn obeys_from_spec() -> bool {
        false
    }

    open spec fn from_spec(v: CanonicalError) -> Problem {
        arbitrary()
    }
}

impl CanonicalError {
    /// Converts a problem document back into a canonical error.
    ///
    /// The steps, each of which may fail, in order: the type URI is parsed;
    /// the category is looked up by name; the context is read as the
    /// category's context type; the debug payload, if any, is read. The
    /// resource-type tag is taken from the context's `resource_type` member
    /// when that is a string.
    pub fn try_from(problem: Problem) -> (r: Result<CanonicalError, ProblemConversionError>)
        ensures
            converts_to(problem, r),
    {
        let name = match parse_category(problem.problem_type.as_str()) {
            Ok(name) => name,
            Err(e) => return Err(e),
        };
        let category = match category_from_name(&name) {
            Some(c) => c,
            None => return Err(ProblemConversionError::UnknownCategory(name)),
        };
        let resource_type = extract_resource_type(&problem.context);
        let err = match read_context(category, &problem.context, problem.detail, resource_type) {
            Ok(err) => err,
            Err(source) => return Err(context_failed(name, Payload::Context, source)),
        };
        match read_debug(&problem.debug) {
            Ok(Some(info)) => Ok(err.with_debug_info(info)),
            Ok(None) => Ok(err),
            Err(source) => Err(context_failed(name, Payload::Debug, source)),
        }
    }
}

/// How an optional string member reads: absent or null is `None`, a string
/// is that string; anything else cannot be read (the outer `None`).
pub open spec fn opt_str_read(m: JsonModel, key: Seq<char>) -> Option<Option<Seq<char>>> {
    match lookup(m, key) {
        None => Some(None),
        Some(JsonModel::Null) => Some(None),
        Some(JsonModel::Str(s)) => Some(Some(s)),
        _ => None,
    }
}

/// How an optional member of any value reads: absent or null is `None`.
pub open spec fn opt_value_read(m: JsonModel, key: Seq<char>) -> Option<JsonModel> {
    match lookup(m, key) {
        None => None,
        Some(JsonModel::Null) => None,
        Some(v) => Some(v),
    }
}

pub open spec fn opt_str_model(s: Option<String>) -> Option<Seq<char>> {
    match s {
        Some(t) => Some(t@),
        None => None,
    }
}

/// The members of a problem document on the wire, in order; an absent
/// optional field has no member at all.
pub open spec fn wire_members(p: Problem) -> Seq<(Seq<char>, JsonModel)> {
    let base = seq![
        ("type"@, JsonModel::Str(p.problem_type@)),
        ("title"@, JsonModel::Str(p.title@)),
        ("status"@, JsonModel::UInt(p.status as nat)),
        ("detail"@, JsonModel::Str(p.detail@)),
    ];
    let with_instance = match p.instance {
        Some(s) => base.push(("instance"@, JsonModel::Str(s@))),
        None => base,
    };
    let with_trace = match p.trace_id {
        Some(s) => with_instance.push(("trace_id"@, JsonModel::Str(s@))),
        None => with_instance,
    };
    let with_context = with_trace.push(("context"@, p.context@));
    match p.debug {
        Some(d) => with_context.push(("debug"@, d@)),
        None => with_context,
    }
}

impl Problem {
    /// Whether `m` can be read as a problem document.
    pub open spec fn readable(m: JsonModel) -> bool {
        &&& str_field(m, "type"@) is Some
        &&& str_field(m, "title"@) is Some
        &&& lookup(m, "status"@) matches Some(JsonModel::UInt(n)) && n <= u16::MAX
        &&& str_field(m, "detail"@) is Some
        &&& opt_str_read(m, "instance"@) is Some
        &&& opt_str_read(m, "trace_id"@) is Some
        &&& lookup(m, "context"@) is Some
    }

    /// Whether `self` holds what the document `m` says.
    pub open spec fn read_from(&self, m: JsonModel) -> bool {
        &&& str_field(m, "type"@) == Some(self.problem_type@)
        &&& str_field(m, "title"@) == Some(self.title@)
        &&& lookup(m, "status"@) == Some(JsonModel::UInt(self.status as nat))
        &&& str_field(m, "detail"@) == Some(self.detail@)
        &&& opt_str_read(m, "instance"@) == Some(opt_str_model(self.instance))
        &&& opt_str_read(m, "trace_id"@) == Some(opt_str_model(self.trace_id))
        &&& lookup(m, "context"@) == Some(self.context@)
        &&& opt_model(self.debug) == opt_value_read(m, "debug"@)
    }

    /// The document as a JSON object.
    pub fn to_json(&self) -> (r: Json)
        ensures
            r@ == JsonModel::Object(wire_members(*self)),
    {
        let mut ms: Vec<(String, Json)> = Vec::new();
        ms.push(str_member("type", &self.problem_type));
        ms.push(str_member("title", &self.title));
        ms.push((text("status"), Json::UInt(self.status as u64)));
        ms.push(str_member("detail", &self.detail));
        match &self.instance {
            Some(s) => ms.push(str_member("instance", s)),
            None => {},
        }
        match &self.trace_id {
            Some(s) => ms.push(str_member("trace_id", s)),
            None => {},
        }
        ms.push((text("context"), self.context.deep_clone()));
        match &self.debug {
            Some(d) => ms.push((text("debug"), d.deep_clone())),
            None => {},
        }
        let r = object(ms);
        assert(r@->Object_0 =~= wire_members(*self));
        r
    }

    /// Reads a problem document from a JSON object.
    pub fn from_json(j: &Json) -> (r: Option<Problem>)
        ensures
            r is Some <==> Self::readable(j@),
            r matches Some(p) ==> p.read_from(j@),
    {
        let problem_type = match j.get_str("type") {
            Some(s) => s,
            None => return None,
        };
        let title = match j.get_str("title") {
            Some(s) => s,
            None => return None,
        };
        let status: u16 = match j.get_u64("status") {
            Some(n) => if n <= 65535 {
                n as u16
            } else {
                return None;
            },
            None => return None,
        };
        let detail = match j.get_str("detail") {
            Some(s) => s,
            None => return None,
        };
        let instance = match read_opt_str(j, "instance") {
            Some(v) => v,
            None => return None,
        };
        let trace_id = match read_opt_str(j, "trace_id") {
            Some(v) => v,
            None => return None,
        };
        let context = match j.get(&text("context")) {
            Some(c) => c.deep_clone(),
            None => return None,
        };
        let debug = match j.get(&text("debug")) {
            Some(Json::Null) => None,
            Some(d) => Some(d.deep_clone()),
            None => None,
        };
        Some(Problem { problem_type, title, status, detail, instance, trace_id, context, debug })
    }
}

/// Reads an optional string member, as `opt_str_read` says.
fn read_opt_str(j: &Json, key: &str) -> (r: Option<Option<String>>)
    ensures
        match opt_str_read(j@, key@) {
            Some(v) => r matches Some(w) && opt_str_model(w) == v,
            None => r is None,
        },
{
    match j.get(&text(key)) {
        None => Some(None),
        Some(Json::Null) => Some(None),
        Some(Json::Str(s)) => Some(Some(s.clone())),
        Some(_) => None,
    }
}

} // verus!
