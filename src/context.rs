use vstd::prelude::*;
use vstd::string::StringExecFns;

use crate::json::{
    array, lemma_first_index_at, lemma_lookup_absent, lemma_lookup_at, lemma_lookup_with_member, lookup,
    object, str_field, str_member, text, with_member, Json, JsonModel,
};

verus! {

/// The name of the member that carries an error's resource-type tag.
pub open spec fn resource_type_key() -> Seq<char> {
    "resource_type"@
}

/// An encoded context with the resource-type tag set in it.
pub open spec fn tagged(m: JsonModel, tag: Seq<char>) -> JsonModel {
    JsonModel::Object(with_member(m->Object_0, resource_type_key(), JsonModel::Str(tag)))
}

/// Whether `m` is an object with an array under `key`.
pub open spec fn has_array(m: JsonModel, key: Seq<char>) -> bool {
    lookup(m, key) matches Some(JsonModel::Array(_))
}

/// The items of the array under `key`.
pub open spec fn array_at(m: JsonModel, key: Seq<char>) -> Seq<JsonModel> {
    lookup(m, key)->Some_0->Array_0
}

/// A string member of an encoded object.
pub open spec fn str_pair(key: Seq<char>, value: Seq<char>) -> (Seq<char>, JsonModel) {
    (key, JsonModel::Str(value))
}

/// What kind of fault kept a value from being read.
#[derive(Debug, Clone, Copy, PartialEq, Eq, Structural)]
pub enum ShapeErrorKind {
    /// The value is not a JSON object.
    NotAnObject,
    /// A member that the type needs is absent.
    MissingField,
    /// A member is present but does not hold what the type needs there.
    InvalidField,
    /// The value has none of the shapes of a validation context.
    NoMatchingShape,
}

/// Why a value could not be read as a context type: the kind of fault and the
/// member it concerns (empty where no member is at fault).
#[derive(Debug, Clone)]
pub struct ShapeError {
    pub kind: ShapeErrorKind,
    pub field: String,
}

pub open spec fn failure_of(e: ShapeError) -> (ShapeErrorKind, Seq<char>) {
    (e.kind, e.field@)
}

/// A fault of `m` not being an object.
pub open spec fn object_check(m: JsonModel) -> Option<(ShapeErrorKind, Seq<char>)> {
    if m is Object {
        None
    } else {
        Some((ShapeErrorKind::NotAnObject, Seq::empty()))
    }
}

/// The fault at member `key`, given whether what it holds is fine.
pub open spec fn member_check(m: JsonModel, key: Seq<char>, fine: bool) -> Option<
    (ShapeErrorKind, Seq<char>),
> {
    match lookup(m, key) {
        None => Some((ShapeErrorKind::MissingField, key)),
        Some(_) => if fine {
            None
        } else {
            Some((ShapeErrorKind::InvalidField, key))
        },
    }
}

/// The fault at a member that must hold a string.
pub open spec fn str_check(m: JsonModel, key: Seq<char>) -> Option<(ShapeErrorKind, Seq<char>)> {
    member_check(m, key, str_field(m, key) is Some)
}

/// The first of two faults.
pub open spec fn first_of(
    a: Option<(ShapeErrorKind, Seq<char>)>,
    b: Option<(ShapeErrorKind, Seq<char>)>,
) -> Option<(ShapeErrorKind, Seq<char>)> {
    if a is Some {
        a
    } else {
        b
    }
}

impl ShapeError {
    pub open spec fn spec_text(&self) -> Seq<char> {
        match self.kind {
                ShapeErrorKind::NotAnObject => "expected an object"@,
                ShapeErrorKind::MissingField => "missing field `"@ + self.field@ + "`"@,
                ShapeErrorKind::InvalidField => "invalid value for field `"@ + self.field@ + "`"@,
                ShapeErrorKind::NoMatchingShape => "matches no shape of a validation context"@,
        }
    }

    /// The fault as people read it.
    pub fn to_string(&self) -> (r: String)
        ensures
            r@ == self.spec_text(),
    {
        match self.kind {
            ShapeErrorKind::NotAnObject => text("expected an object"),
            ShapeErrorKind::MissingField => {
                let mut r = text("missing field `");
                r.append(self.field.as_str());
                r.append("`");
                r
            },
            ShapeErrorKind::InvalidField => {
                let mut r = text("invalid value for field `");
                r.append(self.field.as_str());
                r.append("`");
                r
            },
            ShapeErrorKind::NoMatchingShape => text("matches no shape of a validation context"),
        }
    }
}

fn shape_error(kind: ShapeErrorKind, field: &str) -> (r: ShapeError)
    ensures
        r.kind == kind,
        r.field@ == field@,
{
    ShapeError { kind, field: text(field) }
}

/// The fault of `j` not being an object, if it is not one.
fn object_fault(j: &Json) -> (r: Option<ShapeError>)
    ensures
        match object_check(j@) {
            None => r is None,
            Some(f) => r matches Some(e) && failure_of(e) == f,
        },
{
    proof {
        crate::json::lemma_object_view(*j);
        reveal_strlit("");
    }
    match j {
        Json::Object(_) => None,
        _ => Some(shape_error(ShapeErrorKind::NotAnObject, "")),
    }
}

/// The fault at a member of `j` that must hold a string, if any.
fn str_fault(j: &Json, key: &str) -> (r: Option<ShapeError>)
    ensures
        match str_check(j@, key@) {
            None => r is None,
            Some(f) => r matches Some(e) && failure_of(e) == f,
        },
{
    match j.get(&text(key)) {
        None => Some(shape_error(ShapeErrorKind::MissingField, key)),
        Some(Json::Str(_)) => None,
        Some(_) => Some(shape_error(ShapeErrorKind::InvalidField, key)),
    }
}

/// The fault at a member of `j` known not to hold what it should.
fn member_fault(j: &Json, key: &str) -> (r: ShapeError)
    ensures
        member_check(j@, key@, false) == Some(failure_of(r)),
{
    match j.get(&text(key)) {
        None => shape_error(ShapeErrorKind::MissingField, key),
        Some(_) => shape_error(ShapeErrorKind::InvalidField, key),
    }
}

/// A single field validation violation.
#[derive(Debug, Clone)]
pub struct FieldViolationV1 {
    pub field: String,
    pub description: String,
    pub reason: String,
}

pub type FieldViolation = FieldViolationV1;

impl FieldViolationV1 {
    /// The identifier of this context type's schema.
    pub const SCHEMA_ID: &'static str = "gts.cf.core.errors.field_violation.v1~";

    pub fn new(field: &str, description: &str, reason: &str) -> (r: Self)
        ensures
            r.field@ == field@,
            r.description@ == description@,
            r.reason@ == reason@,
    {
        FieldViolationV1 { field: text(field), description: text(description), reason: text(reason) }
    }

    /// The wire form: an object with `field`, `description` and `reason`.
    pub open spec fn encoded(&self) -> JsonModel {
        JsonModel::Object(
            seq![
                str_pair("field"@, self.field@),
                str_pair("description"@, self.description@),
                str_pair("reason"@, self.reason@),
            ],
        )
    }

    pub open spec fn decodable(m: JsonModel) -> bool {
        &&& str_field(m, "field"@) is Some
        &&& str_field(m, "description"@) is Some
        &&& str_field(m, "reason"@) is Some
    }

    /// `self` holds what `m` says of each field (other members are ignored).
    pub open spec fn decoded_from(&self, m: JsonModel) -> bool {
        &&& str_field(m, "field"@) == Some(self.field@)
        &&& str_field(m, "description"@) == Some(self.description@)
        &&& str_field(m, "reason"@) == Some(self.reason@)
    }

    pub fn to_json(&self) -> (r: Json)
        ensures
            r@ == self.encoded(),
    {
        let mut ms: Vec<(String, Json)> = Vec::new();
        ms.push(str_member("field", &self.field));
        ms.push(str_member("description", &self.description));
        ms.push(str_member("reason", &self.reason));
        let r = object(ms);
        assert(r@->Object_0 =~= self.encoded()->Object_0);
        r
    }

    /// Why `m` cannot be read: not an object, or the first member, in field order, that is absent or not a string.
    pub open spec fn failure(m: JsonModel) -> Option<(ShapeErrorKind, Seq<char>)> {
        first_of(object_check(m), first_of(str_check(m, "field"@), first_of(str_check(m, "description"@), str_check(m, "reason"@))))
    }

    /// Reads a value from its wire form; members it does not know are ignored.
    pub fn from_json(j: &Json) -> (r: Result<Self, ShapeError>)
        ensures
            match r {
                Ok(v) => Self::decodable(j@) && v.decoded_from(j@),
                Err(e) => !Self::decodable(j@) && Self::failure(j@) == Some(failure_of(e)),
            },
    {
        match Self::decode(j) {
            Some(v) => Ok(v),
            None => Err(Self::diagnose(j)),
        }
    }

    fn diagnose(j: &Json) -> (r: ShapeError)
        requires
            !Self::decodable(j@),
        ensures
            Self::failure(j@) == Some(failure_of(r)),
    {
        if let Some(e) = object_fault(j) {
            return e;
        }
        if let Some(e) = str_fault(j, "field") {
            return e;
        }
        if let Some(e) = str_fault(j, "description") {
            return e;
        }
        match str_fault(j, "reason") {
            Some(e) => e,
            None => shape_error(ShapeErrorKind::InvalidField, "reason"),
        }
    }

    fn decode(j: &Json) -> (r: Option<Self>)
        ensures
            r is Some <==> Self::decodable(j@),
            r matches Some(v) ==> v.decoded_from(j@),
    {
        let field = j.get_str("field");
        let description = j.get_str("description");
        let reason = j.get_str("reason");
        match (field, description, reason) {
            (Some(field), Some(description), Some(reason)) => Some(
                FieldViolationV1 { field, description, reason },
            ),
            _ => None,
        }
    }

    /// The encoded form reads back as the same value, with or without a tag.
    pub proof fn lemma_decode_encoded(&self, tag: Seq<char>)
        ensures
            self.decoded_from(self.encoded()),
            Self::decodable(tagged(self.encoded(), tag)),
    {
        reveal_strlit("field");
        reveal_strlit("description");
        reveal_strlit("reason");
        reveal_strlit("resource_type");
        let m = self.encoded();
        let ms = m->Object_0;
        assert("field"@ != "description"@ && "field"@ != "reason"@ && "description"@ != "reason"@) by {
            assert("field"@.len() != "description"@.len());
            assert("field"@[0] != "reason"@[0]);
            assert("description"@[0] != "reason"@[0]);
        }
        lemma_lookup_at(ms, 0);
        lemma_lookup_at(ms, 1);
        lemma_lookup_at(ms, 2);
        lemma_lookup_with_member(m, resource_type_key(), JsonModel::Str(tag), "field"@);
        lemma_lookup_with_member(m, resource_type_key(), JsonModel::Str(tag), "description"@);
        lemma_lookup_with_member(m, resource_type_key(), JsonModel::Str(tag), "reason"@);
    }
}

/// Identifies the resource that a resource-scoped error is about.
#[derive(Debug, Clone)]
pub struct ResourceInfoV1 {
    pub resource_type: String,
    pub resource_name: String,
    pub description: String,
}

pub type ResourceInfo = ResourceInfoV1;

impl ResourceInfoV1 {
    /// The identifier of this context type's schema.
    pub const SCHEMA_ID: &'static str = "gts.cf.core.errors.resource_info.v1~";

    /// A resource identity whose description is "Resource not found".
    pub fn new(resource_type: &str, resource_name: &str) -> (r: Self)
        ensures
            r.resource_type@ == resource_type@,
            r.resource_name@ == resource_name@,
            r.description@ == "Resource not found"@,
    {
        ResourceInfoV1 {
            resource_type: text(resource_type),
            resource_name: text(resource_name),
            description: text("Resource not found"),
        }
    }

    pub fn with_description(self, description: &str) -> (r: Self)
        ensures
            r.resource_type == self.resource_type,
            r.resource_name == self.resource_name,
            r.description@ == description@,
    {
        ResourceInfoV1 { description: text(description), ..self }
    }

    /// The wire form: an object with `resource_type`, `resource_name` and `description`.
    pub open spec fn encoded(&self) -> JsonModel {
        JsonModel::Object(
            seq![
                str_pair("resource_type"@, self.resource_type@),
                str_pair("resource_name"@, self.resource_name@),
                str_pair("description"@, self.description@),
            ],
        )
    }

    pub open spec fn decodable(m: JsonModel) -> bool {
        &&& str_field(m, "resource_type"@) is Some
        &&& str_field(m, "resource_name"@) is Some
        &&& str_field(m, "description"@) is Some
    }

    pub open spec fn decoded_from(&self, m: JsonModel) -> bool {
        &&& str_field(m, "resource_type"@) == Some(self.resource_type@)
        &&& str_field(m, "resource_name"@) == Some(self.resource_name@)
        &&& str_field(m, "description"@) == Some(self.description@)
    }

    pub fn to_json(&self) -> (r: Json)
        ensures
            r@ == self.encoded(),
    {
        let mut ms: Vec<(String, Json)> = Vec::new();
        ms.push(str_member("resource_type", &self.resource_type));
        ms.push(str_member("resource_name", &self.resource_name));
        ms.push(str_member("description", &self.description));
        let r = object(ms);
        assert(r@->Object_0 =~= self.encoded()->Object_0);
        r
    }

    /// Why `m` cannot be read: not an object, or the first member, in field order, that is absent or not a string.
    pub open spec fn failure(m: JsonModel) -> Option<(ShapeErrorKind, Seq<char>)> {
        first_of(object_check(m), first_of(str_check(m, "resource_type"@), first_of(str_check(m, "resource_name"@), str_check(m, "description"@))))
    }

    /// Reads a value from its wire form; members it does not know are ignored.
    pub fn from_json(j: &Json) -> (r: Result<Self, ShapeError>)
        ensures
            match r {
                Ok(v) => Self::decodable(j@) && v.decoded_from(j@),
                Err(e) => !Self::decodable(j@) && Self::failure(j@) == Some(failure_of(e)),
            },
    {
        match Self::decode(j) {
            Some(v) => Ok(v),
            None => Err(Self::diagnose(j)),
        }
    }

    fn diagnose(j: &Json) -> (r: ShapeError)
        requires
            !Self::decodable(j@),
        ensures
            Self::failure(j@) == Some(failure_of(r)),
    {
        if let Some(e) = object_fault(j) {
            return e;
        }
        if let Some(e) = str_fault(j, "resource_type") {
            return e;
        }
        if let Some(e) = str_fault(j, "resource_name") {
            return e;
        }
        match str_fault(j, "description") {
            Some(e) => e,
            None => shape_error(ShapeErrorKind::InvalidField, "description"),
        }
    }

    fn decode(j: &Json) -> (r: Option<Self>)
        ensures
            r is Some <==> Self::decodable(j@),
            r matches Some(v) ==> v.decoded_from(j@),
    {
        let resource_type = j.get_str("resource_type");
        let resource_name = j.get_str("resource_name");
        let description = j.get_str("description");
        match (resource_type, resource_name, description) {
            (Some(resource_type), Some(resource_name), Some(description)) => Some(
                ResourceInfoV1 { resource_type, resource_name, description },
            ),
            _ => None,
        }
    }

    /// The encoded form reads back as the same value; with a tag set, it
    /// still reads back, the tag in place of the resource type.
    pub proof fn lemma_decode_encoded(&self, tag: Seq<char>)
        ensures
            Self::decodable(self.encoded()),
            self.decoded_from(self.encoded()),
            Self::decodable(tagged(self.encoded(), tag)),
            str_field(tagged(self.encoded(), tag), "resource_type"@) == Some(tag),
    {
        reveal_strlit("resource_type");
        reveal_strlit("resource_name");
        reveal_strlit("description");
        let m = self.encoded();
        let ms = m->Object_0;
        assert("resource_type"@ != "resource_name"@ && "resource_type"@ != "description"@
            && "resource_name"@ != "description"@) by {
            assert("resource_type"@[9] != "resource_name"@[9]);
            assert("resource_type"@.len() != "description"@.len());
        }
        lemma_lookup_at(ms, 0);
        lemma_lookup_at(ms, 1);
        lemma_lookup_at(ms, 2);
        lemma_lookup_with_member(m, resource_type_key(), JsonModel::Str(tag), "resource_type"@);
        lemma_lookup_with_member(m, resource_type_key(), JsonModel::Str(tag), "resource_name"@);
        lemma_lookup_with_member(m, resource_type_key(), JsonModel::Str(tag), "description"@);
    }
}

/// A single quota violation.
#[derive(Debug, Clone)]
pub struct QuotaViolationV1 {
    pub subject: String,
    pub description: String,
}

pub type QuotaViolation = QuotaViolationV1;

impl QuotaViolationV1 {
    /// The identifier of this context type's schema.
    pub const SCHEMA_ID: &'static str = "gts.cf.core.errors.quota_violation.v1~";

    pub fn new(subject: &str, description: &str) -> (r: Self)
        ensures
            r.subject@ == subject@,
            r.description@ == description@,
    {
        QuotaViolationV1 { subject: text(subject), description: text(description) }
    }

    /// The wire form: an object with `subject` and `description`.
    pub open spec fn encoded(&self) -> JsonModel {
        JsonModel::Object(
            seq![str_pair("subject"@, self.subject@), str_pair("description"@, self.description@)],
        )
    }

    pub open spec fn decodable(m: JsonModel) -> bool {
        &&& str_field(m, "subject"@) is Some
        &&& str_field(m, "description"@) is Some
    }

    pub open spec fn decoded_from(&self, m: JsonModel) -> bool {
        &&& str_field(m, "subject"@) == Some(self.subject@)
        &&& str_field(m, "description"@) == Some(self.description@)
    }

    pub fn to_json(&self) -> (r: Json)
        ensures
            r@ == self.encoded(),
    {
        let mut ms: Vec<(String, Json)> = Vec::new();
        ms.push(str_member("subject", &self.subject));
        ms.push(str_member("description", &self.description));
        let r = object(ms);
        assert(r@->Object_0 =~= self.encoded()->Object_0);
        r
    }

    /// Why `m` cannot be read: not an object, or the first member, in field order, that is absent or not a string.
    pub open spec fn failure(m: JsonModel) -> Option<(ShapeErrorKind, Seq<char>)> {
        first_of(object_check(m), first_of(str_check(m, "subject"@), str_check(m, "description"@)))
    }

    /// Reads a value from its wire form; members it does not know are ignored.
    pub fn from_json(j: &Json) -> (r: Result<Self, ShapeError>)
        ensures
            match r {
                Ok(v) => Self::decodable(j@) && v.decoded_from(j@),
                Err(e) => !Self::decodable(j@) && Self::failure(j@) == Some(failure_of(e)),
            },
    {
        match Self::decode(j) {
            Some(v) => Ok(v),
            None => Err(Self::diagnose(j)),
        }
    }

    fn diagnose(j: &Json) -> (r: ShapeError)
        requires
            !Self::decodable(j@),
        ensures
            Self::failure(j@) == Some(failure_of(r)),
    {
        if let Some(e) = object_fault(j) {
            return e;
        }
        if let Some(e) = str_fault(j, "subject") {
            return e;
        }
        match str_fault(j, "description") {
            Some(e) => e,
            None => shape_error(ShapeErrorKind::InvalidField, "description"),
        }
    }

    fn decode(j: &Json) -> (r: Option<Self>)
        ensures
            r is Some <==> Self::decodable(j@),
            r matches Some(v) ==> v.decoded_from(j@),
    {
        let subject = j.get_str("subject");
        let description = j.get_str("description");
        match (subject, description) {
            (Some(subject), Some(description)) => Some(QuotaViolationV1 { subject, description }),
            _ => None,
        }
    }

    pub proof fn lemma_decode_encoded(&self)
        ensures
            self.decoded_from(self.encoded()),
    {
        reveal_strlit("subject");
        reveal_strlit("description");
        let ms = self.encoded()->Object_0;
        assert("subject"@ != "description"@) by {
            assert("subject"@.len() != "description"@.len());
        }
        lemma_lookup_at(ms, 0);
        lemma_lookup_at(ms, 1);
    }
}

/// A single precondition violation; its kind travels as `type`.
#[derive(Debug, Clone)]
pub struct PreconditionViolationV1 {
    pub precondition_type: String,
    pub subject: String,
    pub description: String,
}

pub type PreconditionViolation = PreconditionViolationV1;

impl PreconditionViolationV1 {
    /// The identifier of this context type's schema.
    pub const SCHEMA_ID: &'static str = "gts.cf.core.errors.precondition_violation.v1~";

    pub fn new(precondition_type: &str, subject: &str, description: &str) -> (r: Self)
        ensures
            r.precondition_type@ == precondition_type@,
            r.subject@ == subject@,
            r.description@ == description@,
    {
        PreconditionViolationV1 {
            precondition_type: text(precondition_type),
            subject: text(subject),
            description: text(description),
        }
    }

    /// The wire form: an object with `type`, `subject` and `description`.
    pub open spec fn encoded(&self) -> JsonModel {
        JsonModel::Object(
            seq![
                str_pair("type"@, self.precondition_type@),
                str_pair("subject"@, self.subject@),
                str_pair("description"@, self.description@),
            ],
        )
    }

    pub open spec fn decodable(m: JsonModel) -> bool {
        &&& str_field(m, "type"@) is Some
        &&& str_field(m, "subject"@) is Some
        &&& str_field(m, "description"@) is Some
    }

    pub open spec fn decoded_from(&self, m: JsonModel) -> bool {
        &&& str_field(m, "type"@) == Some(self.precondition_type@)
        &&& str_field(m, "subject"@) == Some(self.subject@)
        &&& str_field(m, "description"@) == Some(self.description@)
    }

    pub fn to_json(&self) -> (r: Json)
        ensures
            r@ == self.encoded(),
    {
        let mut ms: Vec<(String, Json)> = Vec::new();
        ms.push(str_member("type", &self.precondition_type));
        ms.push(str_member("subject", &self.subject));
        ms.push(str_member("description", &self.description));
        let r = object(ms);
        assert(r@->Object_0 =~= self.encoded()->Object_0);
        r
    }

    /// Why `m` cannot be read: not an object, or the first member, in field order, that is absent or not a string.
    pub open spec fn failure(m: JsonModel) -> Option<(ShapeErrorKind, Seq<char>)> {
        first_of(object_check(m), first_of(str_check(m, "type"@), first_of(str_check(m, "subject"@), str_check(m, "description"@))))
    }

    /// Reads a value from its wire form; members it does not know are ignored.
    pub fn from_json(j: &Json) -> (r: Result<Self, ShapeError>)
        ensures
            match r {
                Ok(v) => Self::decodable(j@) && v.decoded_from(j@),
                Err(e) => !Self::decodable(j@) && Self::failure(j@) == Some(failure_of(e)),
            },
    {
        match Self::decode(j) {
            Some(v) => Ok(v),
            None => Err(Self::diagnose(j)),
        }
    }

    fn diagnose(j: &Json) -> (r: ShapeError)
        requires
            !Self::decodable(j@),
        ensures
            Self::failure(j@) == Some(failure_of(r)),
    {
        if let Some(e) = object_fault(j) {
            return e;
        }
        if let Some(e) = str_fault(j, "type") {
            return e;
        }
        if let Some(e) = str_fault(j, "subject") {
            return e;
        }
        match str_fault(j, "description") {
            Some(e) => e,
            None => shape_error(ShapeErrorKind::InvalidField, "description"),
        }
    }

    fn decode(j: &Json) -> (r: Option<Self>)
        ensures
            r is Some <==> Self::decodable(j@),
            r matches Some(v) ==> v.decoded_from(j@),
    {
        let precondition_type = j.get_str("type");
        let subject = j.get_str("subject");
        let description = j.get_str("description");
        match (precondition_type, subject, description) {
            (Some(precondition_type), Some(subject), Some(description)) => Some(
                PreconditionViolationV1 { precondition_type, subject, description },
            ),
            _ => None,
        }
    }

    pub proof fn lemma_decode_encoded(&self)
        ensures
            self.decoded_from(self.encoded()),
    {
        reveal_strlit("type");
        reveal_strlit("subject");
        reveal_strlit("description");
        let ms = self.encoded()->Object_0;
        assert("type"@ != "subject"@ && "type"@ != "description"@ && "subject"@ != "description"@) by {
            assert("type"@.len() != "subject"@.len());
            assert("type"@.len() != "description"@.len());
            assert("subject"@.len() != "description"@.len());
        }
        lemma_lookup_at(ms, 0);
        lemma_lookup_at(ms, 1);
        lemma_lookup_at(ms, 2);
    }
}

/// Identifies the request that an error belongs to.
#[derive(Debug, Clone)]
pub struct RequestInfoV1 {
    pub request_id: String,
}

pub type RequestInfo = RequestInfoV1;

impl RequestInfoV1 {
    /// The identifier of this context type's schema.
    pub const SCHEMA_ID: &'static str = "gts.cf.core.errors.request_info.v1~";

    pub fn new(request_id: &str) -> (r: Self)
        ensures
            r.request_id@ == request_id@,
    {
        RequestInfoV1 { request_id: text(request_id) }
    }

    /// The wire form: an object with `request_id`.
    pub open spec fn encoded(&self) -> JsonModel {
        JsonModel::Object(seq![str_pair("request_id"@, self.request_id@)])
    }

    pub open spec fn decodable(m: JsonModel) -> bool {
        str_field(m, "request_id"@) is Some
    }

    pub open spec fn decoded_from(&self, m: JsonModel) -> bool {
        str_field(m, "request_id"@) == Some(self.request_id@)
    }

    pub fn to_json(&self) -> (r: Json)
        ensures
            r@ == self.encoded(),
    {
        let mut ms: Vec<(String, Json)> = Vec::new();
        ms.push(str_member("request_id", &self.request_id));
        let r = object(ms);
        assert(r@->Object_0 =~= self.encoded()->Object_0);
        r
    }

    /// Why `m` cannot be read: not an object, or the first member, in field order, that is absent or not a string.
    pub open spec fn failure(m: JsonModel) -> Option<(ShapeErrorKind, Seq<char>)> {
        first_of(object_check(m), str_check(m, "request_id"@))
    }

    /// Reads a value from its wire form; members it does not know are ignored.
    pub fn from_json(j: &Json) -> (r: Result<Self, ShapeError>)
        ensures
            match r {
                Ok(v) => Self::decodable(j@) && v.decoded_from(j@),
                Err(e) => !Self::decodable(j@) && Self::failure(j@) == Some(failure_of(e)),
            },
    {
        match Self::decode(j) {
            Some(v) => Ok(v),
            None => Err(Self::diagnose(j)),
        }
    }

    fn diagnose(j: &Json) -> (r: ShapeError)
        requires
            !Self::decodable(j@),
        ensures
            Self::failure(j@) == Some(failure_of(r)),
    {
        if let Some(e) = object_fault(j) {
            return e;
        }
        match str_fault(j, "request_id") {
            Some(e) => e,
            None => shape_error(ShapeErrorKind::InvalidField, "request_id"),
        }
    }

    fn decode(j: &Json) -> (r: Option<Self>)
        ensures
            r is Some <==> Self::decodable(j@),
            r matches Some(v) ==> v.decoded_from(j@),
    {
        match j.get_str("request_id") {
            Some(request_id) => Some(RequestInfoV1 { request_id }),
            None => None,
        }
    }

    pub proof fn lemma_decode_encoded(&self, tag: Seq<char>)
        ensures
            Self::decodable(self.encoded()),
            lookup(self.encoded(), resource_type_key()) is None,
            self.decoded_from(self.encoded()),
            Self::decodable(tagged(self.encoded(), tag)),
    {
        reveal_strlit("request_id");
        reveal_strlit("resource_type");
        let m = self.encoded();
        assert("request_id"@ != resource_type_key()) by {
            assert("request_id"@.len() != "resource_type"@.len());
        }
        lemma_lookup_at(m->Object_0, 0);
        lemma_lookup_with_member(m, resource_type_key(), JsonModel::Str(tag), "request_id"@);
        lemma_lookup_absent(self.encoded()->Object_0, resource_type_key());
    }
}

/// How long a client should wait before it retries.
#[derive(Debug, Clone)]
pub struct RetryInfoV1 {
    pub retry_after_seconds: u64,
}

pub type RetryInfo = RetryInfoV1;

impl RetryInfoV1 {
    /// The identifier of this context type's schema.
    pub const SCHEMA_ID: &'static str = "gts.cf.core.errors.retry_info.v1~";

    pub fn after_seconds(seconds: u64) -> (r: Self)
        ensures
            r.retry_after_seconds == seconds,
    {
        RetryInfoV1 { retry_after_seconds: seconds }
    }

    /// The wire form: an object with the integer `retry_after_seconds`.
    pub open spec fn encoded(&self) -> JsonModel {
        JsonModel::Object(
            seq![("retry_after_seconds"@, JsonModel::UInt(self.retry_after_seconds as nat))],
        )
    }

    pub open spec fn decodable(m: JsonModel) -> bool {
        lookup(m, "retry_after_seconds"@) matches Some(JsonModel::UInt(n)) && n <= u64::MAX
    }

    pub open spec fn decoded_from(&self, m: JsonModel) -> bool {
        lookup(m, "retry_after_seconds"@) == Some(JsonModel::UInt(self.retry_after_seconds as nat))
    }

    pub fn to_json(&self) -> (r: Json)
        ensures
            r@ == self.encoded(),
    {
        let mut ms: Vec<(String, Json)> = Vec::new();
        ms.push((text("retry_after_seconds"), Json::UInt(self.retry_after_seconds)));
        let r = object(ms);
        assert(r@->Object_0 =~= self.encoded()->Object_0);
        r
    }

    /// Why `m` cannot be read: not an object, or the first member, in field order, that is absent or does not hold what it should.
    pub open spec fn failure(m: JsonModel) -> Option<(ShapeErrorKind, Seq<char>)> {
        first_of(object_check(m), member_check(m, "retry_after_seconds"@, Self::decodable(m)))
    }

    /// Reads a value from its wire form; members it does not know are ignored.
    pub fn from_json(j: &Json) -> (r: Result<Self, ShapeError>)
        ensures
            match r {
                Ok(v) => Self::decodable(j@) && v.decoded_from(j@),
                Err(e) => !Self::decodable(j@) && Self::failure(j@) == Some(failure_of(e)),
            },
    {
        match Self::decode(j) {
            Some(v) => Ok(v),
            None => Err(Self::diagnose(j)),
        }
    }

    fn diagnose(j: &Json) -> (r: ShapeError)
        requires
            !Self::decodable(j@),
        ensures
            Self::failure(j@) == Some(failure_of(r)),
    {
        if let Some(e) = object_fault(j) {
            return e;
        }
        member_fault(j, "retry_after_seconds")
    }

    fn decode(j: &Json) -> (r: Option<Self>)
        ensures
            r is Some <==> Self::decodable(j@),
            r matches Some(v) ==> v.decoded_from(j@),
    {
        match j.get_u64("retry_after_seconds") {
            Some(n) => Some(RetryInfoV1 { retry_after_seconds: n }),
            None => None,
        }
    }

    pub proof fn lemma_decode_encoded(&self, tag: Seq<char>)
        ensures
            Self::decodable(self.encoded()),
            lookup(self.encoded(), resource_type_key()) is None,
            self.decoded_from(self.encoded()),
            Self::decodable(tagged(self.encoded(), tag)),
    {
        reveal_strlit("retry_after_seconds");
        reveal_strlit("resource_type");
        let m = self.encoded();
        assert("retry_after_seconds"@ != resource_type_key()) by {
            assert("retry_after_seconds"@.len() != "resource_type"@.len());
        }
        lemma_lookup_at(m->Object_0, 0);
        lemma_lookup_with_member(
            m,
            resource_type_key(),
            JsonModel::Str(tag),
            "retry_after_seconds"@,
        );
        lemma_lookup_absent(self.encoded()->Object_0, resource_type_key());
    }
}

/// Debug detail: a message and the stack entries that led to it.
#[derive(Debug, Clone)]
pub struct DebugInfoV1 {
    pub detail: String,
    pub stack_entries: Vec<String>,
}

pub type DebugInfo = DebugInfoV1;

impl DebugInfoV1 {
    /// The identifier of this context type's schema.
    pub const SCHEMA_ID: &'static str = "gts.cf.core.errors.debug_info.v1~";

    /// Debug detail with no stack entries.
    pub fn new(detail: &str) -> (r: Self)
        ensures
            r.detail@ == detail@,
            r.stack_entries@.len() == 0,
    {
        DebugInfoV1 { detail: text(detail), stack_entries: Vec::new() }
    }

    pub fn with_stack(self, entries: Vec<String>) -> (r: Self)
        ensures
            r.detail == self.detail,
            r.stack_entries == entries,
    {
        DebugInfoV1 { stack_entries: entries, ..self }
    }

    /// The wire form: an object with `detail` and the array of strings `stack_entries`.
    pub open spec fn encoded(&self) -> JsonModel {
        JsonModel::Object(
            seq![
                str_pair("detail"@, self.detail@),
                (
                    "stack_entries"@,
                    JsonModel::Array(
                        Seq::new(
                            self.stack_entries@.len(),
                            |i: int| JsonModel::Str(self.stack_entries@[i]@),
                        ),
                    ),
                ),
            ],
        )
    }

    pub open spec fn decodable(m: JsonModel) -> bool {
        &&& str_field(m, "detail"@) is Some
        &&& match lookup(m, "stack_entries"@) {
            Some(JsonModel::Array(items)) => forall|i: int|
                0 <= i < items.len() ==> #[trigger] items[i] is Str,
            _ => false,
        }
    }

    pub open spec fn decoded_from(&self, m: JsonModel) -> bool {
        &&& str_field(m, "detail"@) == Some(self.detail@)
        &&& match lookup(m, "stack_entries"@) {
            Some(JsonModel::Array(items)) => items.len() == self.stack_entries@.len() && forall|i: int|
                0 <= i < items.len() ==> #[trigger] items[i] == JsonModel::Str(self.stack_entries@[i]@),
            _ => false,
        }
    }

    pub fn to_json(&self) -> (r: Json)
        ensures
            r@ == self.encoded(),
    {
        let mut items: Vec<Json> = Vec::new();
        let mut i: usize = 0;
        while i < self.stack_entries.len()
            invariant
                i <= self.stack_entries@.len(),
                items@.len() == i,
                forall|k: int| 0 <= k < i ==> #[trigger] items@[k]@ == JsonModel::Str(self.stack_entries@[k]@),
            decreases self.stack_entries@.len() - i,
        {
            items.push(Json::Str(self.stack_entries[i].clone()));
            i = i + 1;
        }
        let arr = array(items);
        assert(arr@->Array_0 =~= self.encoded()->Object_0[1].1->Array_0);
        let mut ms: Vec<(String, Json)> = Vec::new();
        ms.push(str_member("detail", &self.detail));
        ms.push((text("stack_entries"), arr));
        let r = object(ms);
        assert(r@->Object_0 =~= self.encoded()->Object_0);
        r
    }

    /// Why `m` cannot be read: not an object, or the first member, in field order, that is absent or does not hold what it should.
    pub open spec fn failure(m: JsonModel) -> Option<(ShapeErrorKind, Seq<char>)> {
        first_of(object_check(m), first_of(str_check(m, "detail"@), member_check(m, "stack_entries"@, Self::decodable(m))))
    }

    /// Reads a value from its wire form; members it does not know are ignored.
    pub fn from_json(j: &Json) -> (r: Result<Self, ShapeError>)
        ensures
            match r {
                Ok(v) => Self::decodable(j@) && v.decoded_from(j@),
                Err(e) => !Self::decodable(j@) && Self::failure(j@) == Some(failure_of(e)),
            },
    {
        match Self::decode(j) {
            Some(v) => Ok(v),
            None => Err(Self::diagnose(j)),
        }
    }

    fn diagnose(j: &Json) -> (r: ShapeError)
        requires
            !Self::decodable(j@),
        ensures
            Self::failure(j@) == Some(failure_of(r)),
    {
        if let Some(e) = object_fault(j) {
            return e;
        }
        if let Some(e) = str_fault(j, "detail") {
            return e;
        }
        member_fault(j, "stack_entries")
    }

    fn decode(j: &Json) -> (r: Option<Self>)
        ensures
            r is Some <==> Self::decodable(j@),
            r matches Some(v) ==> v.decoded_from(j@),
    {
        let detail = match j.get_str("detail") {
            Some(d) => d,
            None => return None,
        };
        let items = match j.get_array("stack_entries") {
            Some(items) => items,
            None => return None,
        };
        let ghost model = lookup(j@, "stack_entries"@)->Some_0->Array_0;
        let mut entries: Vec<String> = Vec::new();
        let mut i: usize = 0;
        while i < items.len()
            invariant
                i <= items@.len(),
                items@.len() == model.len(),
                forall|k: int| 0 <= k < model.len() ==> #[trigger] items@[k]@ == model[k],
                lookup(j@, "stack_entries"@) == Some(JsonModel::Array(model)),
                str_field(j@, "detail"@) == Some(detail@),
                entries@.len() == i,
                forall|k: int| 0 <= k < i ==> #[trigger] model[k] == JsonModel::Str(entries@[k]@),
            decreases items@.len() - i,
        {
            match items[i].as_str() {
                Some(s) => entries.push(s.clone()),
                None => {
                    assert(!(model[i as int] is Str));
                    return None;
                },
            }
            i = i + 1;
        }
        Some(DebugInfoV1 { detail, stack_entries: entries })
    }

    pub proof fn lemma_decode_encoded(&self, tag: Seq<char>)
        ensures
            Self::decodable(self.encoded()),
            lookup(self.encoded(), resource_type_key()) is None,
            self.decoded_from(self.encoded()),
            Self::decodable(tagged(self.encoded(), tag)),
    {
        reveal_strlit("detail");
        reveal_strlit("stack_entries");
        reveal_strlit("resource_type");
        let m = self.encoded();
        assert("detail"@ != "stack_entries"@ && "detail"@ != resource_type_key()
            && "stack_entries"@ != resource_type_key()) by {
            assert("detail"@.len() != "stack_entries"@.len());
            assert("detail"@.len() != "resource_type"@.len());
            assert("stack_entries"@.len() == "resource_type"@.len());
            assert("stack_entries"@[0] != "resource_type"@[0]);
        }
        lemma_lookup_at(m->Object_0, 0);
        lemma_lookup_at(m->Object_0, 1);
        lemma_lookup_with_member(m, resource_type_key(), JsonModel::Str(tag), "detail"@);
        lemma_lookup_with_member(m, resource_type_key(), JsonModel::Str(tag), "stack_entries"@);
        lemma_lookup_absent(self.encoded()->Object_0, resource_type_key());
    }
}

/// One or more quota violations.
#[derive(Debug, Clone)]
pub struct QuotaFailureV1 {
    pub violations: Vec<QuotaViolation>,
}

pub type QuotaFailure = QuotaFailureV1;

impl QuotaFailureV1 {
    /// The identifier of this context type's schema.
    pub const SCHEMA_ID: &'static str = "gts.cf.core.errors.quota_failure.v1~";

    pub fn new(violations: Vec<QuotaViolation>) -> (r: Self)
        ensures
            r.violations == violations,
    {
        QuotaFailureV1 { violations }
    }

    /// The wire form: an object with the array `violations`.
    pub open spec fn encoded(&self) -> JsonModel {
        JsonModel::Object(
            seq![
                (
                    "violations"@,
                    JsonModel::Array(
                        Seq::new(self.violations@.len(), |i: int| self.violations@[i].encoded()),
                    ),
                ),
            ],
        )
    }

    pub open spec fn decodable(m: JsonModel) -> bool {
        &&& has_array(m, "violations"@)
        &&& forall|i: int|
            0 <= i < array_at(m, "violations"@).len() ==> #[trigger] QuotaViolationV1::decodable(
                array_at(m, "violations"@)[i],
            )
    }

    pub open spec fn decoded_from(&self, m: JsonModel) -> bool {
        &&& has_array(m, "violations"@)
        &&& array_at(m, "violations"@).len() == self.violations@.len()
        &&& forall|i: int|
            0 <= i < self.violations@.len() ==> #[trigger] self.violations@[i].decoded_from(
                array_at(m, "violations"@)[i],
            )
    }

    pub fn to_json(&self) -> (r: Json)
        ensures
            r@ == self.encoded(),
    {
        let mut items: Vec<Json> = Vec::new();
        let mut i: usize = 0;
        while i < self.violations.len()
            invariant
                i <= self.violations@.len(),
                items@.len() == i,
                forall|k: int| 0 <= k < i ==> #[trigger] items@[k]@ == self.violations@[k].encoded(),
            decreases self.violations@.len() - i,
        {
            items.push(self.violations[i].to_json());
            i = i + 1;
        }
        let arr = array(items);
        assert(arr@->Array_0 =~= self.encoded()->Object_0[0].1->Array_0);
        let mut ms: Vec<(String, Json)> = Vec::new();
        ms.push((text("violations"), arr));
        let r = object(ms);
        assert(r@->Object_0 =~= self.encoded()->Object_0);
        r
    }

    /// Why `m` cannot be read: not an object, or the first member, in field order, that is absent or does not hold what it should.
    pub open spec fn failure(m: JsonModel) -> Option<(ShapeErrorKind, Seq<char>)> {
        first_of(object_check(m), member_check(m, "violations"@, Self::decodable(m)))
    }

    /// Reads a value from its wire form; members it does not know are ignored.
    pub fn from_json(j: &Json) -> (r: Result<Self, ShapeError>)
        ensures
            match r {
                Ok(v) => Self::decodable(j@) && v.decoded_from(j@),
                Err(e) => !Self::decodable(j@) && Self::failure(j@) == Some(failure_of(e)),
            },
    {
        match Self::decode(j) {
            Some(v) => Ok(v),
            None => Err(Self::diagnose(j)),
        }
    }

    fn diagnose(j: &Json) -> (r: ShapeError)
        requires
            !Self::decodable(j@),
        ensures
            Self::failure(j@) == Some(failure_of(r)),
    {
        if let Some(e) = object_fault(j) {
            return e;
        }
        member_fault(j, "violations")
    }

    fn decode(j: &Json) -> (r: Option<Self>)
        ensures
            r is Some <==> Self::decodable(j@),
            r matches Some(v) ==> v.decoded_from(j@),
    {
        let items = match j.get_array("violations") {
            Some(items) => items,
            None => return None,
        };
        let ghost model = lookup(j@, "violations"@)->Some_0->Array_0;
        let mut out: Vec<QuotaViolation> = Vec::new();
        let mut i: usize = 0;
        while i < items.len()
            invariant
                i <= items@.len(),
                items@.len() == model.len(),
                forall|k: int| 0 <= k < model.len() ==> #[trigger] items@[k]@ == model[k],
                lookup(j@, "violations"@) == Some(JsonModel::Array(model)),
                out@.len() == i,
                forall|k: int| 0 <= k < i ==> #[trigger] out@[k].decoded_from(model[k]),
                forall|k: int| 0 <= k < i ==> #[trigger] QuotaViolationV1::decodable(model[k]),
            decreases items@.len() - i,
        {
            assert(items@[i as int]@ == model[i as int]);
            match QuotaViolationV1::decode(&items[i]) {
                Some(v) => out.push(v),
                None => {
                    assert(!QuotaViolationV1::decodable(model[i as int]));
                    assert(array_at(j@, "violations"@) == model);
                    assert(Self::decodable(j@) ==> QuotaViolationV1::decodable(array_at(j@, "violations"@)[i as int]));
                    return None;
                },
            }
            i = i + 1;
        }
        Some(QuotaFailureV1 { violations: out })
    }

    pub proof fn lemma_decode_encoded(&self, tag: Seq<char>)
        ensures
            Self::decodable(self.encoded()),
            lookup(self.encoded(), resource_type_key()) is None,
            self.decoded_from(self.encoded()),
            Self::decodable(tagged(self.encoded(), tag)),
    {
        reveal_strlit("violations");
        reveal_strlit("resource_type");
        let m = self.encoded();
        assert("violations"@ != resource_type_key()) by {
            assert("violations"@.len() != "resource_type"@.len());
        }
        lemma_lookup_at(m->Object_0, 0);
        lemma_lookup_with_member(m, resource_type_key(), JsonModel::Str(tag), "violations"@);
        let items = Seq::new(self.violations@.len(), |i: int| self.violations@[i].encoded());
        assert forall|i: int| 0 <= i < items.len() implies #[trigger] self.violations@[i].decoded_from(
            items[i],
        ) && QuotaViolationV1::decodable(items[i]) by {
            self.violations@[i].lemma_decode_encoded();
        }
        let t = tagged(m, tag);
        assert(array_at(t, "violations"@) == items);
        assert forall|i: int| 0 <= i < array_at(t, "violations"@).len() implies #[trigger] QuotaViolationV1::decodable(
            array_at(t, "violations"@)[i],
        ) by {
            self.violations@[i].lemma_decode_encoded();
        }
        lemma_lookup_absent(self.encoded()->Object_0, resource_type_key());
    }
}

/// One or more precondition violations.
#[derive(Debug, Clone)]
pub struct PreconditionFailureV1 {
    pub violations: Vec<PreconditionViolation>,
}

pub type PreconditionFailure = PreconditionFailureV1;

impl PreconditionFailureV1 {
    /// The identifier of this context type's schema.
    pub const SCHEMA_ID: &'static str = "gts.cf.core.errors.precondition_failure.v1~";

    pub fn new(violations: Vec<PreconditionViolation>) -> (r: Self)
        ensures
            r.violations == violations,
    {
        PreconditionFailureV1 { violations }
    }

    /// The wire form: an object with the array `violations`.
    pub open spec fn encoded(&self) -> JsonModel {
        JsonModel::Object(
            seq![
                (
                    "violations"@,
                    JsonModel::Array(
                        Seq::new(self.violations@.len(), |i: int| self.violations@[i].encoded()),
                    ),
                ),
            ],
        )
    }

    pub open spec fn decodable(m: JsonModel) -> bool {
        &&& has_array(m, "violations"@)
        &&& forall|i: int|
            0 <= i < array_at(m, "violations"@).len() ==> #[trigger] PreconditionViolationV1::decodable(
                array_at(m, "violations"@)[i],
            )
    }

    pub open spec fn decoded_from(&self, m: JsonModel) -> bool {
        &&& has_array(m, "violations"@)
        &&& array_at(m, "violations"@).len() == self.violations@.len()
        &&& forall|i: int|
            0 <= i < self.violations@.len() ==> #[trigger] self.violations@[i].decoded_from(
                array_at(m, "violations"@)[i],
            )
    }

    pub fn to_json(&self) -> (r: Json)
        ensures
            r@ == self.encoded(),
    {
        let mut items: Vec<Json> = Vec::new();
        let mut i: usize = 0;
        while i < self.violations.len()
            invariant
                i <= self.violations@.len(),
                items@.len() == i,
                forall|k: int| 0 <= k < i ==> #[trigger] items@[k]@ == self.violations@[k].encoded(),
            decreases self.violations@.len() - i,
        {
            items.push(self.violations[i].to_json());
            i = i + 1;
        }
        let arr = array(items);
        assert(arr@->Array_0 =~= self.encoded()->Object_0[0].1->Array_0);
        let mut ms: Vec<(String, Json)> = Vec::new();
        ms.push((text("violations"), arr));
        let r = object(ms);
        assert(r@->Object_0 =~= self.encoded()->Object_0);
        r
    }

    /// Why `m` cannot be read: not an object, or the first member, in field order, that is absent or does not hold what it should.
    pub open spec fn failure(m: JsonModel) -> Option<(ShapeErrorKind, Seq<char>)> {
        first_of(object_check(m), member_check(m, "violations"@, Self::decodable(m)))
    }

    /// Reads a value from its wire form; members it does not know are ignored.
    pub fn from_json(j: &Json) -> (r: Result<Self, ShapeError>)
        ensures
            match r {
                Ok(v) => Self::decodable(j@) && v.decoded_from(j@),
                Err(e) => !Self::decodable(j@) && Self::failure(j@) == Some(failure_of(e)),
            },
    {
        match Self::decode(j) {
            Some(v) => Ok(v),
            None => Err(Self::diagnose(j)),
        }
    }

    fn diagnose(j: &Json) -> (r: ShapeError)
        requires
            !Self::decodable(j@),
        ensures
            Self::failure(j@) == Some(failure_of(r)),
    {
        if let Some(e) = object_fault(j) {
            return e;
        }
        member_fault(j, "violations")
    }

    fn decode(j: &Json) -> (r: Option<Self>)
        ensures
            r is Some <==> Self::decodable(j@),
            r matches Some(v) ==> v.decoded_from(j@),
    {
        let items = match j.get_array("violations") {
            Some(items) => items,
            None => return None,
        };
        let ghost model = lookup(j@, "violations"@)->Some_0->Array_0;
        let mut out: Vec<PreconditionViolation> = Vec::new();
        let mut i: usize = 0;
        while i < items.len()
            invariant
                i <= items@.len(),
                items@.len() == model.len(),
                forall|k: int| 0 <= k < model.len() ==> #[trigger] items@[k]@ == model[k],
                lookup(j@, "violations"@) == Some(JsonModel::Array(model)),
                out@.len() == i,
                forall|k: int| 0 <= k < i ==> #[trigger] out@[k].decoded_from(model[k]),
                forall|k: int| 0 <= k < i ==> #[trigger] PreconditionViolationV1::decodable(model[k]),
            decreases items@.len() - i,
        {
            assert(items@[i as int]@ == model[i as int]);
            match PreconditionViolationV1::decode(&items[i]) {
                Some(v) => out.push(v),
                None => {
                    assert(!PreconditionViolationV1::decodable(model[i as int]));
                    assert(array_at(j@, "violations"@) == model);
                    assert(Self::decodable(j@) ==> PreconditionViolationV1::decodable(array_at(j@, "violations"@)[i as int]));
                    return None;
                },
            }
            i = i + 1;
        }
        Some(PreconditionFailureV1 { violations: out })
    }

    pub proof fn lemma_decode_encoded(&self, tag: Seq<char>)
        ensures
            Self::decodable(self.encoded()),
            lookup(self.encoded(), resource_type_key()) is None,
            self.decoded_from(self.encoded()),
            Self::decodable(tagged(self.encoded(), tag)),
    {
        reveal_strlit("violations");
        reveal_strlit("resource_type");
        let m = self.encoded();
        assert("violations"@ != resource_type_key()) by {
            assert("violations"@.len() != "resource_type"@.len());
        }
        lemma_lookup_at(m->Object_0, 0);
        lemma_lookup_with_member(m, resource_type_key(), JsonModel::Str(tag), "violations"@);
        let items = Seq::new(self.violations@.len(), |i: int| self.violations@[i].encoded());
        assert forall|i: int| 0 <= i < items.len() implies #[trigger] self.violations@[i].decoded_from(
            items[i],
        ) && PreconditionViolationV1::decodable(items[i]) by {
            self.violations@[i].lemma_decode_encoded();
        }
        let t = tagged(m, tag);
        assert(array_at(t, "violations"@) == items);
        assert forall|i: int| 0 <= i < array_at(t, "violations"@).len() implies #[trigger] PreconditionViolationV1::decodable(
            array_at(t, "violations"@)[i],
        ) by {
            self.violations@[i].lemma_decode_encoded();
        }
        lemma_lookup_absent(self.encoded()->Object_0, resource_type_key());
    }
}

/// What was wrong with a request: the fields that failed, a format message,
/// or a constraint message. On the wire the shape of the object tells them apart.
#[derive(Debug, Clone)]
pub enum Validation {
    FieldViolations { field_violations: Vec<FieldViolation> },
    Format { format: String },
    Constraint { constraint: String },
}

/// Whether `m` reads as a list of field violations.
pub open spec fn fields_shape(m: JsonModel) -> bool {
    &&& has_array(m, "field_violations"@)
    &&& forall|i: int|
        0 <= i < array_at(m, "field_violations"@).len() ==> #[trigger] FieldViolationV1::decodable(
            array_at(m, "field_violations"@)[i],
        )
}

/// Reads the field violations of `m`.
fn decode_field_violations(j: &Json) -> (r: Option<Vec<FieldViolation>>)
    ensures
        r is Some <==> fields_shape(j@),
        r matches Some(v) ==> v@.len() == array_at(j@, "field_violations"@).len() && forall|i: int|
            0 <= i < v@.len() ==> #[trigger] v@[i].decoded_from(
                array_at(j@, "field_violations"@)[i],
            ),
{
    let items = match j.get_array("field_violations") {
        Some(items) => items,
        None => return None,
    };
    let ghost model = array_at(j@, "field_violations"@);
    let mut out: Vec<FieldViolation> = Vec::new();
    let mut i: usize = 0;
    while i < items.len()
        invariant
            i <= items@.len(),
            items@.len() == model.len(),
            forall|k: int| 0 <= k < model.len() ==> #[trigger] items@[k]@ == model[k],
            has_array(j@, "field_violations"@),
            array_at(j@, "field_violations"@) == model,
            out@.len() == i,
            forall|k: int| 0 <= k < i ==> #[trigger] out@[k].decoded_from(model[k]),
            forall|k: int| 0 <= k < i ==> #[trigger] FieldViolationV1::decodable(model[k]),
        decreases items@.len() - i,
    {
        assert(items@[i as int]@ == model[i as int]);
        match FieldViolationV1::decode(&items[i]) {
            Some(v) => out.push(v),
            None => {
                assert(fields_shape(j@) ==> FieldViolationV1::decodable(model[i as int]));
                return None;
            },
        }
        i = i + 1;
    }
    Some(out)
}

impl Validation {
    /// The identifier of this context type's schema.
    pub const SCHEMA_ID: &'static str = "gts.cf.core.errors.validation.v1~";

    pub fn fields(violations: Vec<FieldViolation>) -> (r: Self)
        ensures
            r == (Validation::FieldViolations { field_violations: violations }),
    {
        Validation::FieldViolations { field_violations: violations }
    }

    pub fn format(msg: &str) -> (r: Self)
        ensures
            r matches Validation::Format { format } && format@ == msg@,
    {
        Validation::Format { format: text(msg) }
    }

    pub fn constraint(msg: &str) -> (r: Self)
        ensures
            r matches Validation::Constraint { constraint } && constraint@ == msg@,
    {
        Validation::Constraint { constraint: text(msg) }
    }

    /// The wire form: an object with exactly one of `field_violations`,
    /// `format` or `constraint`.
    pub open spec fn encoded(&self) -> JsonModel {
        match self {
            Validation::FieldViolations { field_violations } => JsonModel::Object(
                seq![
                    (
                        "field_violations"@,
                        JsonModel::Array(
                            Seq::new(
                                field_violations@.len(),
                                |i: int| field_violations@[i].encoded(),
                            ),
                        ),
                    ),
                ],
            ),
            Validation::Format { format } => JsonModel::Object(seq![str_pair("format"@, format@)]),
            Validation::Constraint { constraint } => JsonModel::Object(
                seq![str_pair("constraint"@, constraint@)],
            ),
        }
    }

    /// The shapes are tried in order: field violations, then `format`, then `constraint`.
    pub open spec fn decodable(m: JsonModel) -> bool {
        fields_shape(m) || str_field(m, "format"@) is Some || str_field(m, "constraint"@) is Some
    }

    pub open spec fn decoded_from(&self, m: JsonModel) -> bool {
        match self {
            Validation::FieldViolations { field_violations } => {
                &&& fields_shape(m)
                &&& array_at(m, "field_violations"@).len() == field_violations@.len()
                &&& forall|i: int|
                    0 <= i < field_violations@.len() ==> #[trigger] field_violations@[i].decoded_from(
                        array_at(m, "field_violations"@)[i],
                    )
            },
            Validation::Format { format } => {
                &&& !fields_shape(m)
                &&& str_field(m, "format"@) == Some(format@)
            },
            Validation::Constraint { constraint } => {
                &&& !fields_shape(m)
                &&& str_field(m, "format"@) is None
                &&& str_field(m, "constraint"@) == Some(constraint@)
            },
        }
    }

    pub fn to_json(&self) -> (r: Json)
        ensures
            r@ == self.encoded(),
    {
        let mut ms: Vec<(String, Json)> = Vec::new();
        match self {
            Validation::FieldViolations { field_violations } => {
                let mut items: Vec<Json> = Vec::new();
                let mut i: usize = 0;
                while i < field_violations.len()
                    invariant
                        i <= field_violations@.len(),
                        items@.len() == i,
                        forall|k: int|
                            0 <= k < i ==> #[trigger] items@[k]@ == field_violations@[k].encoded(),
                    decreases field_violations@.len() - i,
                {
                    items.push(field_violations[i].to_json());
                    i = i + 1;
                }
                let arr = array(items);
                assert(arr@->Array_0 =~= self.encoded()->Object_0[0].1->Array_0);
                ms.push((text("field_violations"), arr));
            },
            Validation::Format { format } => {
                ms.push(str_member("format", format));
            },
            Validation::Constraint { constraint } => {
                ms.push(str_member("constraint", constraint));
            },
        }
        let r = object(ms);
        assert(r@->Object_0 =~= self.encoded()->Object_0);
        r
    }

    /// Why `m` cannot be read: it has none of the three shapes.
    pub open spec fn failure(m: JsonModel) -> Option<(ShapeErrorKind, Seq<char>)> {
        if Self::decodable(m) {
            None
        } else {
            Some((ShapeErrorKind::NoMatchingShape, Seq::empty()))
        }
    }

    /// Reads a value from its wire form; members it does not know are ignored.
    pub fn from_json(j: &Json) -> (r: Result<Self, ShapeError>)
        ensures
            match r {
                Ok(v) => Self::decodable(j@) && v.decoded_from(j@),
                Err(e) => !Self::decodable(j@) && Self::failure(j@) == Some(failure_of(e)),
            },
    {
        match Self::decode(j) {
            Some(v) => Ok(v),
            None => Err(Self::diagnose(j)),
        }
    }

    fn diagnose(j: &Json) -> (r: ShapeError)
        requires
            !Self::decodable(j@),
        ensures
            Self::failure(j@) == Some(failure_of(r)),
    {
        proof {
            reveal_strlit("");
        }
        shape_error(ShapeErrorKind::NoMatchingShape, "")
    }

    fn decode(j: &Json) -> (r: Option<Self>)
        ensures
            r is Some <==> Self::decodable(j@),
            r matches Some(v) ==> v.decoded_from(j@),
    {
        match decode_field_violations(j) {
            Some(field_violations) => {
                return Some(Validation::FieldViolations { field_violations });
            },
            None => {},
        }
        match j.get_str("format") {
            Some(format) => {
                return Some(Validation::Format { format });
            },
            None => {},
        }
        match j.get_str("constraint") {
            Some(constraint) => Some(Validation::Constraint { constraint }),
            None => None,
        }
    }

    pub proof fn lemma_decode_encoded(&self, tag: Seq<char>)
        ensures
            Self::decodable(self.encoded()),
            lookup(self.encoded(), resource_type_key()) is None,
            self.decoded_from(self.encoded()),
            Self::decodable(tagged(self.encoded(), tag)),
    {
        reveal_strlit("field_violations");
        reveal_strlit("format");
        reveal_strlit("constraint");
        reveal_strlit("resource_type");
        let m = self.encoded();
        let t = tagged(m, tag);
        assert("field_violations"@ != "format"@ && "field_violations"@ != "constraint"@
            && "format"@ != "constraint"@ && "field_violations"@ != resource_type_key()
            && "format"@ != resource_type_key() && "constraint"@ != resource_type_key()) by {
            assert("field_violations"@.len() != "format"@.len());
            assert("field_violations"@.len() != "constraint"@.len());
            assert("format"@.len() != "constraint"@.len());
            assert("field_violations"@.len() != "resource_type"@.len());
            assert("format"@.len() != "resource_type"@.len());
            assert("constraint"@.len() != "resource_type"@.len());
        }
        lemma_lookup_at(m->Object_0, 0);
        lemma_lookup_with_member(m, resource_type_key(), JsonModel::Str(tag), "field_violations"@);
        lemma_lookup_with_member(m, resource_type_key(), JsonModel::Str(tag), "format"@);
        lemma_lookup_with_member(m, resource_type_key(), JsonModel::Str(tag), "constraint"@);
        match self {
            Validation::FieldViolations { field_violations } => {
                let items = Seq::new(field_violations@.len(), |i: int| field_violations@[i].encoded());
                assert(array_at(m, "field_violations"@) == items);
                assert(array_at(t, "field_violations"@) == items);
                assert forall|i: int| 0 <= i < items.len() implies #[trigger] field_violations@[i].decoded_from(
                    items[i],
                ) && FieldViolationV1::decodable(items[i]) by {
                    field_violations@[i].lemma_decode_encoded(tag);
                }
                assert forall|i: int| 0 <= i < array_at(t, "field_violations"@).len() implies #[trigger] FieldViolationV1::decodable(
                    array_at(t, "field_violations"@)[i],
                ) by {
                    field_violations@[i].lemma_decode_encoded(tag);
                }
                assert forall|i: int| 0 <= i < array_at(m, "field_violations"@).len() implies #[trigger] FieldViolationV1::decodable(
                    array_at(m, "field_violations"@)[i],
                ) by {
                    field_violations@[i].lemma_decode_encoded(tag);
                }
            },
            Validation::Format { .. } => {
                lemma_lookup_absent(m->Object_0, "field_violations"@);
            },
            Validation::Constraint { .. } => {
                lemma_lookup_absent(m->Object_0, "field_violations"@);
                lemma_lookup_absent(m->Object_0, "format"@);
            },
        }
        lemma_lookup_absent(self.encoded()->Object_0, resource_type_key());
    }
}

/// The members that a metadata list encodes to.
pub open spec fn meta_model(md: Seq<(String, String)>) -> Seq<(Seq<char>, JsonModel)> {
    Seq::new(md.len(), |i: int| (md[i].0@, JsonModel::Str(md[i].1@)))
}

/// The metadata that the members `ms` read as: each member, in order, sets its
/// key, so a later member of the same name wins.
pub open spec fn meta_fold(ms: Seq<(Seq<char>, JsonModel)>) -> Seq<(Seq<char>, JsonModel)>
    decreases ms.len(),
{
    if ms.len() == 0 {
        Seq::empty()
    } else {
        with_member(meta_fold(ms.drop_last()), ms.last().0, ms.last().1)
    }
}

/// Whether no two members of `ms` share a name.
pub open spec fn distinct_names(ms: Seq<(Seq<char>, JsonModel)>) -> bool {
    forall|i: int, j: int| 0 <= i < j < ms.len() ==> ms[i].0 != ms[j].0
}

/// Setting a member keeps member names distinct.
pub proof fn lemma_with_member_distinct(
    ms: Seq<(Seq<char>, JsonModel)>,
    key: Seq<char>,
    value: JsonModel,
)
    requires
        distinct_names(ms),
    ensures
        distinct_names(with_member(ms, key, value)),
{
    crate::json::lemma_first_index(ms, key);
}

/// Metadata read from any members has distinct keys.
pub proof fn lemma_meta_fold_names(ms: Seq<(Seq<char>, JsonModel)>)
    ensures
        distinct_names(meta_fold(ms)),
    decreases ms.len(),
{
    if ms.len() > 0 {
        lemma_meta_fold_names(ms.drop_last());
        lemma_with_member_distinct(meta_fold(ms.drop_last()), ms.last().0, ms.last().1);
    }
}

/// Members with distinct names read as themselves.
pub proof fn lemma_meta_fold_distinct(ms: Seq<(Seq<char>, JsonModel)>)
    requires
        distinct_names(ms),
    ensures
        meta_fold(ms) == ms,
    decreases ms.len(),
{
    if ms.len() > 0 {
        let init = ms.drop_last();
        lemma_meta_fold_distinct(init);
        crate::json::lemma_first_index(init, ms.last().0);
        assert(init.push(ms.last()) =~= ms);
    }
}

/// Whether `m` is an object with an object under `key`.
pub open spec fn has_object(m: JsonModel, key: Seq<char>) -> bool {
    lookup(m, key) matches Some(JsonModel::Object(_))
}

/// The members of the object under `key`.
pub open spec fn object_at(m: JsonModel, key: Seq<char>) -> Seq<(Seq<char>, JsonModel)> {
    lookup(m, key)->Some_0->Object_0
}

/// Sets `key` to `value` in a metadata list: an entry of that key gets the new
/// value in place; without one, the entry is appended.
fn insert_metadata(md: &mut Vec<(String, String)>, key: String, value: String)
    ensures
        meta_model(final(md)@) == with_member(meta_model(old(md)@), key@, JsonModel::Str(value@)),
{
    let ghost ms = meta_model(md@);
    let ghost target = with_member(ms, key@, JsonModel::Str(value@));
    proof {
        crate::json::lemma_first_index(ms, key@);
    }
    let mut i: usize = 0;
    let mut found = false;
    while i < md.len() && !found
        invariant
            0 <= i <= md.len(),
            ms == meta_model(md@),
            forall|j: int| 0 <= j < (if found { i - 1 } else { i as int }) ==> ms[j].0 != key@,
            found ==> i > 0 && ms[i - 1].0 == key@,
        decreases md.len() - i + (if found { 0int } else { 1int }),
    {
        if md[i].0 == key {
            found = true;
        }
        i = i + 1;
    }
    if found {
        proof {
            lemma_first_index_at(ms, key@, i - 1);
        }
        md.set(i - 1, (key, value));
    } else {
        proof {
            lemma_first_index_at(ms, key@, i as int);
        }
        md.push((key, value));
    }
    assert(meta_model(md@) =~= target);
}

/// Why an operation failed: a reason code, the domain that gave it, and metadata.
#[derive(Debug, Clone)]
pub struct ErrorInfoV1 {
    pub reason: String,
    pub domain: String,
    /// Key-value pairs in the order they were first set; `wf` asks that the
    /// keys be distinct.
    pub metadata: Vec<(String, String)>,
}

pub type ErrorInfo = ErrorInfoV1;

impl ErrorInfoV1 {
    /// Well-formed error information: no two metadata entries share a key,
    /// as in a map.
    pub open spec fn wf(&self) -> bool {
        distinct_names(meta_model(self.metadata@))
    }

    /// The identifier of this context type's schema.
    pub const SCHEMA_ID: &'static str = "gts.cf.core.errors.error_info.v1~";

    /// Error information with empty metadata.
    pub fn new(reason: &str, domain: &str) -> (r: Self)
        ensures
            r.reason@ == reason@,
            r.domain@ == domain@,
            r.metadata@.len() == 0,
            r.wf(),
    {
        ErrorInfoV1 { reason: text(reason), domain: text(domain), metadata: Vec::new() }
    }

    /// Sets one metadata entry; an existing entry of that key is replaced.
    pub fn with_metadata(self, key: &str, value: &str) -> (r: Self)
        ensures
            r.reason == self.reason,
            r.domain == self.domain,
            meta_model(r.metadata@) == with_member(
                meta_model(self.metadata@),
                key@,
                JsonModel::Str(value@),
            ),
            self.wf() ==> r.wf(),
    {
        let mut r = self;
        insert_metadata(&mut r.metadata, text(key), text(value));
        proof {
            if distinct_names(meta_model(self.metadata@)) {
                lemma_with_member_distinct(meta_model(self.metadata@), key@, JsonModel::Str(value@));
            }
        }
        r
    }

    /// The wire form: an object with `reason`, `domain` and the object `metadata`.
    pub open spec fn encoded(&self) -> JsonModel {
        JsonModel::Object(
            seq![
                str_pair("reason"@, self.reason@),
                str_pair("domain"@, self.domain@),
                ("metadata"@, JsonModel::Object(meta_model(self.metadata@))),
            ],
        )
    }

    pub open spec fn decodable(m: JsonModel) -> bool {
        &&& str_field(m, "reason"@) is Some
        &&& str_field(m, "domain"@) is Some
        &&& has_object(m, "metadata"@)
        &&& forall|i: int|
            0 <= i < object_at(m, "metadata"@).len() ==> (#[trigger] object_at(m, "metadata"@)[i]).1 is Str
    }

    pub open spec fn decoded_from(&self, m: JsonModel) -> bool {
        &&& str_field(m, "reason"@) == Some(self.reason@)
        &&& str_field(m, "domain"@) == Some(self.domain@)
        &&& has_object(m, "metadata"@)
        &&& meta_model(self.metadata@) == meta_fold(object_at(m, "metadata"@))
    }

    pub fn to_json(&self) -> (r: Json)
        ensures
            r@ == self.encoded(),
    {
        let mut entries: Vec<(String, Json)> = Vec::new();
        let mut i: usize = 0;
        while i < self.metadata.len()
            invariant
                i <= self.metadata@.len(),
                entries@.len() == i,
                forall|k: int|
                    0 <= k < i ==> (#[trigger] entries@[k].0@, entries@[k].1@) == meta_model(
                        self.metadata@,
                    )[k],
            decreases self.metadata@.len() - i,
        {
            entries.push((self.metadata[i].0.clone(), Json::Str(self.metadata[i].1.clone())));
            i = i + 1;
        }
        let meta = object(entries);
        assert(meta@->Object_0 =~= meta_model(self.metadata@));
        let mut ms: Vec<(String, Json)> = Vec::new();
        ms.push(str_member("reason", &self.reason));
        ms.push(str_member("domain", &self.domain));
        ms.push((text("metadata"), meta));
        let r = object(ms);
        assert(r@->Object_0 =~= self.encoded()->Object_0);
        r
    }

    /// Why `m` cannot be read: not an object, or the first member, in field order, that is absent or does not hold what it should.
    pub open spec fn failure(m: JsonModel) -> Option<(ShapeErrorKind, Seq<char>)> {
        first_of(object_check(m), first_of(str_check(m, "reason"@), first_of(str_check(m, "domain"@), member_check(m, "metadata"@, Self::decodable(m)))))
    }

    /// Reads a value from its wire form; members it does not know are ignored.
    pub fn from_json(j: &Json) -> (r: Result<Self, ShapeError>)
        ensures
            match r {
                Ok(v) => Self::decodable(j@) && v.decoded_from(j@),
                Err(e) => !Self::decodable(j@) && Self::failure(j@) == Some(failure_of(e)),
            },
            r matches Ok(v) ==> v.wf(),
    {
        match Self::decode(j) {
            Some(v) => {
                proof {
                    lemma_meta_fold_names(object_at(j@, "metadata"@));
                }
                Ok(v)
            },
            None => Err(Self::diagnose(j)),
        }
    }

    fn diagnose(j: &Json) -> (r: ShapeError)
        requires
            !Self::decodable(j@),
        ensures
            Self::failure(j@) == Some(failure_of(r)),
    {
        if let Some(e) = object_fault(j) {
            return e;
        }
        if let Some(e) = str_fault(j, "reason") {
            return e;
        }
        if let Some(e) = str_fault(j, "domain") {
            return e;
        }
        member_fault(j, "metadata")
    }

    fn decode(j: &Json) -> (r: Option<Self>)
        ensures
            r is Some <==> Self::decodable(j@),
            r matches Some(v) ==> v.decoded_from(j@),
    {
        let reason = match j.get_str("reason") {
            Some(s) => s,
            None => return None,
        };
        let domain = match j.get_str("domain") {
            Some(s) => s,
            None => return None,
        };
        let members = match j.get_object("metadata") {
            Some(ms) => ms,
            None => return None,
        };
        let ghost model = object_at(j@, "metadata"@);
        let mut metadata: Vec<(String, String)> = Vec::new();
        let mut i: usize = 0;
        while i < members.len()
            invariant
                i <= members@.len(),
                members@.len() == model.len(),
                forall|k: int| 0 <= k < model.len() ==> #[trigger] model[k] == (members@[k].0@, members@[k].1@),
                object_at(j@, "metadata"@) == model,
                forall|k: int| 0 <= k < i ==> (#[trigger] model[k]).1 is Str,
                meta_model(metadata@) == meta_fold(model.subrange(0, i as int)),
            decreases members@.len() - i,
        {
            assert(model[i as int] == (members@[i as int].0@, members@[i as int].1@));
            match members[i].1.as_str() {
                Some(s) => {
                    let ghost before = metadata@;
                    insert_metadata(&mut metadata, members[i].0.clone(), s.clone());
                    proof {
                        let sub = model.subrange(0, i + 1);
                        assert(sub.drop_last() =~= model.subrange(0, i as int));
                        assert(sub.last() == model[i as int]);
                    }
                },
                None => {
                    assert(Self::decodable(j@) ==> (object_at(j@, "metadata"@)[i as int]).1 is Str);
                    return None;
                },
            }
            i = i + 1;
        }
        assert(model.subrange(0, i as int) =~= model);
        Some(ErrorInfoV1 { reason, domain, metadata })
    }

    pub proof fn lemma_decode_encoded(&self, tag: Seq<char>)
        ensures
            lookup(self.encoded(), resource_type_key()) is None,
            Self::decodable(self.encoded()),
            self.wf() ==> self.decoded_from(self.encoded()),
            Self::decodable(tagged(self.encoded(), tag)),
    {
        reveal_strlit("reason");
        reveal_strlit("domain");
        reveal_strlit("metadata");
        reveal_strlit("resource_type");
        let m = self.encoded();
        let t = tagged(m, tag);
        assert("reason"@ != "domain"@ && "reason"@ != "metadata"@ && "domain"@ != "metadata"@
            && "reason"@ != resource_type_key() && "domain"@ != resource_type_key()
            && "metadata"@ != resource_type_key()) by {
            assert("reason"@[0] != "domain"@[0]);
            assert("reason"@.len() != "metadata"@.len());
            assert("domain"@.len() != "metadata"@.len());
            assert("reason"@.len() != "resource_type"@.len());
            assert("domain"@.len() != "resource_type"@.len());
            assert("metadata"@.len() != "resource_type"@.len());
        }
        lemma_lookup_at(m->Object_0, 0);
        lemma_lookup_at(m->Object_0, 1);
        lemma_lookup_at(m->Object_0, 2);
        lemma_lookup_with_member(m, resource_type_key(), JsonModel::Str(tag), "reason"@);
        lemma_lookup_with_member(m, resource_type_key(), JsonModel::Str(tag), "domain"@);
        lemma_lookup_with_member(m, resource_type_key(), JsonModel::Str(tag), "metadata"@);
        assert(object_at(m, "metadata"@) == meta_model(self.metadata@));
        assert(object_at(t, "metadata"@) == meta_model(self.metadata@));
        if distinct_names(meta_model(self.metadata@)) {
            lemma_meta_fold_distinct(meta_model(self.metadata@));
        }
        lemma_lookup_absent(self.encoded()->Object_0, resource_type_key());
    }
}

/// Whether `m` and `n` hold the same value under every name but the tag's.
pub open spec fn agrees_off_tag(m: JsonModel, n: JsonModel) -> bool {
    forall|k: Seq<char>| k != resource_type_key() ==> #[trigger] lookup(m, k) == lookup(n, k)
}

/// Setting the tag in an object changes nothing under the other names.
pub proof fn lemma_tagged_agrees(n: JsonModel, tag: Seq<char>)
    requires
        n is Object,
    ensures
        agrees_off_tag(tagged(n, tag), n),
        agrees_off_tag(n, n),
{
    assert forall|k: Seq<char>| k != resource_type_key() implies #[trigger] lookup(tagged(n, tag), k)
        == lookup(n, k) by {
        lemma_lookup_with_member(n, resource_type_key(), JsonModel::Str(tag), k);
    }
}

impl FieldViolationV1 {
    /// What is read from a document that agrees with this value's encoded
    /// form on every member but the tag is this value, as far as the wire shows.
    pub proof fn lemma_read_back(&self, v: &Self, m: JsonModel)
        requires
            v.decoded_from(m),
            agrees_off_tag(m, self.encoded()),
        ensures
            v.encoded() == self.encoded(),
    {
        self.lemma_decode_encoded(Seq::empty());
        reveal_strlit("field");
        reveal_strlit("description");
        reveal_strlit("reason");
        reveal_strlit("resource_type");
        assert("field"@.len() != "resource_type"@.len() || "field"@[0] != "resource_type"@[0]);
        assert("description"@.len() != "resource_type"@.len() || "description"@[0] != "resource_type"@[0]);
        assert("reason"@.len() != "resource_type"@.len() || "reason"@[0] != "resource_type"@[0]);
        assert(lookup(m, "field"@) == lookup(self.encoded(), "field"@));
        assert(lookup(m, "description"@) == lookup(self.encoded(), "description"@));
        assert(lookup(m, "reason"@) == lookup(self.encoded(), "reason"@));
    }
}

impl QuotaViolationV1 {
    /// What is read from a document that agrees with this value's encoded
    /// form on every member but the tag is this value, as far as the wire shows.
    pub proof fn lemma_read_back(&self, v: &Self, m: JsonModel)
        requires
            v.decoded_from(m),
            agrees_off_tag(m, self.encoded()),
        ensures
            v.encoded() == self.encoded(),
    {
        self.lemma_decode_encoded();
        reveal_strlit("subject");
        reveal_strlit("description");
        reveal_strlit("resource_type");
        assert("subject"@.len() != "resource_type"@.len() || "subject"@[0] != "resource_type"@[0]);
        assert("description"@.len() != "resource_type"@.len() || "description"@[0] != "resource_type"@[0]);
        assert(lookup(m, "subject"@) == lookup(self.encoded(), "subject"@));
        assert(lookup(m, "description"@) == lookup(self.encoded(), "description"@));
    }
}

impl PreconditionViolationV1 {
    /// What is read from a document that agrees with this value's encoded
    /// form on every member but the tag is this value, as far as the wire shows.
    pub proof fn lemma_read_back(&self, v: &Self, m: JsonModel)
        requires
            v.decoded_from(m),
            agrees_off_tag(m, self.encoded()),
        ensures
            v.encoded() == self.encoded(),
    {
        self.lemma_decode_encoded();
        reveal_strlit("type");
        reveal_strlit("subject");
        reveal_strlit("description");
        reveal_strlit("resource_type");
        assert("type"@.len() != "resource_type"@.len() || "type"@[0] != "resource_type"@[0]);
        assert("subject"@.len() != "resource_type"@.len() || "subject"@[0] != "resource_type"@[0]);
        assert("description"@.len() != "resource_type"@.len() || "description"@[0] != "resource_type"@[0]);
        assert(lookup(m, "type"@) == lookup(self.encoded(), "type"@));
        assert(lookup(m, "subject"@) == lookup(self.encoded(), "subject"@));
        assert(lookup(m, "description"@) == lookup(self.encoded(), "description"@));
    }
}

impl RequestInfoV1 {
    /// What is read from a document that agrees with this value's encoded
    /// form on every member but the tag is this value, as far as the wire shows.
    pub proof fn lemma_read_back(&self, v: &Self, m: JsonModel)
        requires
            v.decoded_from(m),
            agrees_off_tag(m, self.encoded()),
        ensures
            v.encoded() == self.encoded(),
    {
        self.lemma_decode_encoded(Seq::empty());
        reveal_strlit("request_id");
        reveal_strlit("resource_type");
        assert("request_id"@.len() != "resource_type"@.len() || "request_id"@[0] != "resource_type"@[0]);
        assert(lookup(m, "request_id"@) == lookup(self.encoded(), "request_id"@));
    }
}

impl RetryInfoV1 {
    /// What is read from a document that agrees with this value's encoded
    /// form on every member but the tag is this value, as far as the wire shows.
    pub proof fn lemma_read_back(&self, v: &Self, m: JsonModel)
        requires
            v.decoded_from(m),
            agrees_off_tag(m, self.encoded()),
        ensures
            v.encoded() == self.encoded(),
    {
        self.lemma_decode_encoded(Seq::empty());
        reveal_strlit("retry_after_seconds");
        reveal_strlit("resource_type");
        assert("retry_after_seconds"@.len() != "resource_type"@.len() || "retry_after_seconds"@[0] != "resource_type"@[0]);
        assert(lookup(m, "retry_after_seconds"@) == lookup(self.encoded(), "retry_after_seconds"@));
    }
}

impl ResourceInfoV1 {
    /// What is read from a document that agrees with this value's encoded
    /// form on every member is this value, as far as the wire shows.
    pub proof fn lemma_read_back(&self, v: &Self, m: JsonModel)
        requires
            v.decoded_from(m),
            agrees_off_tag(m, self.encoded()),
            lookup(m, resource_type_key()) == lookup(self.encoded(), resource_type_key()),
        ensures
            v.encoded() == self.encoded(),
    {
        self.lemma_decode_encoded(Seq::empty());
        reveal_strlit("resource_type");
        reveal_strlit("resource_name");
        reveal_strlit("description");
        reveal_strlit("resource_type");
        assert("resource_name"@[9] != "resource_type"@[9]);
        assert("description"@.len() != "resource_type"@.len() || "description"@[0] != "resource_type"@[0]);
        assert(lookup(m, "resource_type"@) == lookup(self.encoded(), "resource_type"@));
        assert(lookup(m, "resource_name"@) == lookup(self.encoded(), "resource_name"@));
        assert(lookup(m, "description"@) == lookup(self.encoded(), "description"@));
    }
}

impl DebugInfoV1 {
    /// What is read from a document that agrees with this value's encoded
    /// form on every member but the tag is this value, as far as the wire shows.
    pub proof fn lemma_read_back(&self, v: &Self, m: JsonModel)
        requires
            v.decoded_from(m),
            agrees_off_tag(m, self.encoded()),
        ensures
            v.encoded() == self.encoded(),
    {
        self.lemma_decode_encoded(Seq::empty());
        reveal_strlit("detail");
        reveal_strlit("stack_entries");
        reveal_strlit("resource_type");
        assert("detail"@.len() != "resource_type"@.len());
        assert("stack_entries"@[0] != "resource_type"@[0]);
        assert(lookup(m, "detail"@) == lookup(self.encoded(), "detail"@));
        assert(lookup(m, "stack_entries"@) == lookup(self.encoded(), "stack_entries"@));
        let items = lookup(m, "stack_entries"@)->Some_0->Array_0;
        assert(items == Seq::new(
            self.stack_entries@.len(),
            |i: int| JsonModel::Str(self.stack_entries@[i]@),
        ));
        assert forall|i: int| 0 <= i < self.stack_entries@.len() implies v.stack_entries@[i]@
            == self.stack_entries@[i]@ by {
            assert(items[i] == JsonModel::Str(v.stack_entries@[i]@));
        }
        assert(Seq::new(v.stack_entries@.len(), |i: int| JsonModel::Str(v.stack_entries@[i]@))
            =~= Seq::new(self.stack_entries@.len(), |i: int| JsonModel::Str(self.stack_entries@[i]@)));
    }
}

impl QuotaFailureV1 {
    /// What is read from a document that agrees with this value's encoded
    /// form on every member but the tag is this value, as far as the wire shows.
    pub proof fn lemma_read_back(&self, v: &Self, m: JsonModel)
        requires
            v.decoded_from(m),
            agrees_off_tag(m, self.encoded()),
        ensures
            v.encoded() == self.encoded(),
    {
        self.lemma_decode_encoded(Seq::empty());
        reveal_strlit("violations");
        reveal_strlit("resource_type");
        assert("violations"@.len() != "resource_type"@.len());
        assert(lookup(m, "violations"@) == lookup(self.encoded(), "violations"@));
        let items = Seq::new(self.violations@.len(), |i: int| self.violations@[i].encoded());
        assert(array_at(m, "violations"@) == items);
        assert forall|i: int| 0 <= i < self.violations@.len() implies #[trigger] v.violations@[i].encoded()
            == self.violations@[i].encoded() by {
            assert(v.violations@[i].decoded_from(items[i]));
            lemma_tagged_agrees(items[i], Seq::empty());
            self.violations@[i].lemma_read_back(&v.violations@[i], items[i]);
        }
        assert(Seq::new(v.violations@.len(), |i: int| v.violations@[i].encoded()) =~= items);
    }
}

impl PreconditionFailureV1 {
    /// What is read from a document that agrees with this value's encoded
    /// form on every member but the tag is this value, as far as the wire shows.
    pub proof fn lemma_read_back(&self, v: &Self, m: JsonModel)
        requires
            v.decoded_from(m),
            agrees_off_tag(m, self.encoded()),
        ensures
            v.encoded() == self.encoded(),
    {
        self.lemma_decode_encoded(Seq::empty());
        reveal_strlit("violations");
        reveal_strlit("resource_type");
        assert("violations"@.len() != "resource_type"@.len());
        assert(lookup(m, "violations"@) == lookup(self.encoded(), "violations"@));
        let items = Seq::new(self.violations@.len(), |i: int| self.violations@[i].encoded());
        assert(array_at(m, "violations"@) == items);
        assert forall|i: int| 0 <= i < self.violations@.len() implies #[trigger] v.violations@[i].encoded()
            == self.violations@[i].encoded() by {
            assert(v.violations@[i].decoded_from(items[i]));
            lemma_tagged_agrees(items[i], Seq::empty());
            self.violations@[i].lemma_read_back(&v.violations@[i], items[i]);
        }
        assert(Seq::new(v.violations@.len(), |i: int| v.violations@[i].encoded()) =~= items);
    }
}

impl Validation {
    /// What is read from a document that agrees with this value's encoded
    /// form on every member but the tag is this value, as far as the wire shows.
    pub proof fn lemma_read_back(&self, v: &Self, m: JsonModel)
        requires
            v.decoded_from(m),
            agrees_off_tag(m, self.encoded()),
        ensures
            v.encoded() == self.encoded(),
    {
        self.lemma_decode_encoded(Seq::empty());
        reveal_strlit("field_violations");
        reveal_strlit("format");
        reveal_strlit("constraint");
        reveal_strlit("resource_type");
        assert("field_violations"@.len() != "resource_type"@.len());
        assert("format"@.len() != "resource_type"@.len());
        assert("constraint"@.len() != "resource_type"@.len());
        let e = self.encoded();
        assert(lookup(m, "field_violations"@) == lookup(e, "field_violations"@));
        assert(lookup(m, "format"@) == lookup(e, "format"@));
        assert(lookup(m, "constraint"@) == lookup(e, "constraint"@));
        assert(fields_shape(m) == fields_shape(e));
        match (self, v) {
            (
                Validation::FieldViolations { field_violations: mine },
                Validation::FieldViolations { field_violations: read },
            ) => {
                let items = Seq::new(mine@.len(), |i: int| mine@[i].encoded());
                assert(array_at(m, "field_violations"@) == items);
                assert forall|i: int| 0 <= i < mine@.len() implies #[trigger] read@[i].encoded()
                    == mine@[i].encoded() by {
                    assert(read@[i].decoded_from(items[i]));
                    lemma_tagged_agrees(items[i], Seq::empty());
                    mine@[i].lemma_read_back(&read@[i], items[i]);
                }
                assert(Seq::new(read@.len(), |i: int| read@[i].encoded()) =~= items);
            },
            _ => {},
        }
    }
}

impl ErrorInfoV1 {
    /// What is read from a document that agrees with this value's encoded
    /// form on every member but the tag is this value, as far as the wire
    /// shows, provided its metadata keys are distinct.
    pub proof fn lemma_read_back(&self, v: &Self, m: JsonModel)
        requires
            v.decoded_from(m),
            agrees_off_tag(m, self.encoded()),
            self.wf(),
        ensures
            v.encoded() == self.encoded(),
    {
        self.lemma_decode_encoded(Seq::empty());
        reveal_strlit("reason");
        reveal_strlit("domain");
        reveal_strlit("metadata");
        reveal_strlit("resource_type");
        assert("reason"@.len() != "resource_type"@.len());
        assert("domain"@.len() != "resource_type"@.len());
        assert("metadata"@.len() != "resource_type"@.len());
        let e = self.encoded();
        assert(lookup(m, "reason"@) == lookup(e, "reason"@));
        assert(lookup(m, "domain"@) == lookup(e, "domain"@));
        assert(lookup(m, "metadata"@) == lookup(e, "metadata"@));
        lemma_meta_fold_distinct(meta_model(self.metadata@));
        assert("reason"@.len() != "metadata"@.len());
        assert("domain"@.len() != "metadata"@.len());
        lemma_lookup_at(e->Object_0, 2);
        assert(object_at(m, "metadata"@) == meta_model(self.metadata@));
    }
}

} // verus!
