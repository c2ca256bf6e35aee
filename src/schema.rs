use vstd::prelude::*;
use vstd::string::StringExecFns;

use crate::category::Category;
use crate::context::{
    DebugInfoV1, ErrorInfoV1, FieldViolationV1, PreconditionFailureV1, QuotaFailureV1,
    RequestInfoV1, ResourceInfoV1, RetryInfoV1, Validation,
};
use crate::error::CanonicalError;
use crate::json::{array, object, str_member, text, Json, JsonModel};

verus! {

/// The JSON-Schema dialect that the schema documents declare.
pub open spec fn draft_07() -> Seq<char> {
    "http://json-schema.org/draft-07/schema#"@
}

/// A reference to the schema with identifier `id`.
pub open spec fn schema_ref(id: Seq<char>) -> Seq<char> {
    "gts://"@ + id
}

/// `{"type": t}`.
pub open spec fn typed(t: Seq<char>) -> JsonModel {
    JsonModel::Object(seq![("type"@, JsonModel::Str(t))])
}

/// An object schema with one required property.
pub open spec fn one_property(name: Seq<char>, property: JsonModel) -> JsonModel {
    JsonModel::Object(
        seq![
            ("type"@, JsonModel::Str("object"@)),
            ("properties"@, JsonModel::Object(seq![(name, property)])),
            ("required"@, JsonModel::Array(seq![JsonModel::Str(name)])),
        ],
    )
}

/// The schema of the validation context: one of its three shapes.
pub open spec fn validation_schema() -> JsonModel {
    JsonModel::Object(
        seq![
            ("$id"@, JsonModel::Str(schema_ref(Validation::SCHEMA_ID@))),
            ("$schema"@, JsonModel::Str(draft_07())),
            (
                "oneOf"@,
                JsonModel::Array(
                    seq![
                        one_property(
                            "field_violations"@,
                            JsonModel::Object(
                                seq![
                                    ("type"@, JsonModel::Str("array"@)),
                                    (
                                        "items"@,
                                        JsonModel::Object(
                                            seq![
                                                (
                                                    "$ref"@,
                                                    JsonModel::Str(
                                                        schema_ref(FieldViolationV1::SCHEMA_ID@),
                                                    ),
                                                ),
                                            ],
                                        ),
                                    ),
                                ],
                            ),
                        ),
                        one_property("format"@, typed("string"@)),
                        one_property("constraint"@, typed("string"@)),
                    ],
                ),
            ),
        ],
    )
}

/// The schema of one category's variant of the canonical error.
pub open spec fn variant_schema(name: Seq<char>, context_ref: Seq<char>) -> JsonModel {
    JsonModel::Object(
        seq![
            ("type"@, JsonModel::Str("object"@)),
            (
                "properties"@,
                JsonModel::Object(
                    seq![
                        ("category"@, JsonModel::Object(seq![("const"@, JsonModel::Str(name))])),
                        ("message"@, typed("string"@)),
                        ("resource_type"@, typed("string"@)),
                        ("context"@, JsonModel::Object(seq![("$ref"@, JsonModel::Str(context_ref))])),
                    ],
                ),
            ),
            (
                "required"@,
                JsonModel::Array(
                    seq![
                        JsonModel::Str("category"@),
                        JsonModel::Str("message"@),
                        JsonModel::Str("context"@),
                    ],
                ),
            ),
        ],
    )
}

/// The schema of the canonical error: one variant per category, in registry
/// order, each naming the category and referring to its context type's schema.
pub open spec fn canonical_error_schema() -> JsonModel {
    JsonModel::Object(
        seq![
            ("$id"@, JsonModel::Str(schema_ref(CanonicalError::SCHEMA_ID@))),
            ("$schema"@, JsonModel::Str(draft_07())),
            (
                "oneOf"@,
                JsonModel::Array(
                    Seq::new(
                        16,
                        |i: int|
                            variant_schema(
                                Category::at(i).spec_display_name(),
                                schema_ref(Category::at(i).spec_context_schema_id()),
                            ),
                    ),
                ),
            ),
        ],
    )
}

impl Category {
    /// The categories in registry order.
    pub open spec fn at(i: int) -> Category {
        if i == 0 {
            Category::Cancelled
        } else if i == 1 {
            Category::Unknown
        } else if i == 2 {
            Category::InvalidArgument
        } else if i == 3 {
            Category::DeadlineExceeded
        } else if i == 4 {
            Category::NotFound
        } else if i == 5 {
            Category::AlreadyExists
        } else if i == 6 {
            Category::PermissionDenied
        } else if i == 7 {
            Category::ResourceExhausted
        } else if i == 8 {
            Category::FailedPrecondition
        } else if i == 9 {
            Category::Aborted
        } else if i == 10 {
            Category::OutOfRange
        } else if i == 11 {
            Category::Unimplemented
        } else if i == 12 {
            Category::Internal
        } else if i == 13 {
            Category::ServiceUnavailable
        } else if i == 14 {
            Category::DataLoss
        } else {
            Category::Unauthenticated
        }
    }

    /// The schema identifier of the context type bound to the category.
    pub open spec fn spec_context_schema_id(self) -> Seq<char> {
        match self {
            Category::Cancelled => RequestInfoV1::SCHEMA_ID@,
            Category::Unknown => DebugInfoV1::SCHEMA_ID@,
            Category::InvalidArgument => Validation::SCHEMA_ID@,
            Category::DeadlineExceeded => RequestInfoV1::SCHEMA_ID@,
            Category::NotFound => ResourceInfoV1::SCHEMA_ID@,
            Category::AlreadyExists => ResourceInfoV1::SCHEMA_ID@,
            Category::PermissionDenied => ErrorInfoV1::SCHEMA_ID@,
            Category::ResourceExhausted => QuotaFailureV1::SCHEMA_ID@,
            Category::FailedPrecondition => PreconditionFailureV1::SCHEMA_ID@,
            Category::Aborted => ErrorInfoV1::SCHEMA_ID@,
            Category::OutOfRange => Validation::SCHEMA_ID@,
            Category::Unimplemented => ErrorInfoV1::SCHEMA_ID@,
            Category::Internal => DebugInfoV1::SCHEMA_ID@,
            Category::ServiceUnavailable => RetryInfoV1::SCHEMA_ID@,
            Category::DataLoss => ResourceInfoV1::SCHEMA_ID@,
            Category::Unauthenticated => ErrorInfoV1::SCHEMA_ID@,
        }
    }

    pub fn from_index(i: usize) -> (r: Category)
        requires
            i < 16,
        ensures
            r == Category::at(i as int),
    {
        match i {
            0 => Category::Cancelled,
            1 => Category::Unknown,
            2 => Category::InvalidArgument,
            3 => Category::DeadlineExceeded,
            4 => Category::NotFound,
            5 => Category::AlreadyExists,
            6 => Category::PermissionDenied,
            7 => Category::ResourceExhausted,
            8 => Category::FailedPrecondition,
            9 => Category::Aborted,
            10 => Category::OutOfRange,
            11 => Category::Unimplemented,
            12 => Category::Internal,
            13 => Category::ServiceUnavailable,
            14 => Category::DataLoss,
            _ => Category::Unauthenticated,
        }
    }

    pub fn context_schema_id(self) -> (r: &'static str)
        ensures
            r@ == self.spec_context_schema_id(),
    {
        match self {
            Category::Cancelled => RequestInfoV1::SCHEMA_ID,
            Category::Unknown => DebugInfoV1::SCHEMA_ID,
            Category::InvalidArgument => Validation::SCHEMA_ID,
            Category::DeadlineExceeded => RequestInfoV1::SCHEMA_ID,
            Category::NotFound => ResourceInfoV1::SCHEMA_ID,
            Category::AlreadyExists => ResourceInfoV1::SCHEMA_ID,
            Category::PermissionDenied => ErrorInfoV1::SCHEMA_ID,
            Category::ResourceExhausted => QuotaFailureV1::SCHEMA_ID,
            Category::FailedPrecondition => PreconditionFailureV1::SCHEMA_ID,
            Category::Aborted => ErrorInfoV1::SCHEMA_ID,
            Category::OutOfRange => Validation::SCHEMA_ID,
            Category::Unimplemented => ErrorInfoV1::SCHEMA_ID,
            Category::Internal => DebugInfoV1::SCHEMA_ID,
            Category::ServiceUnavailable => RetryInfoV1::SCHEMA_ID,
            Category::DataLoss => ResourceInfoV1::SCHEMA_ID,
            Category::Unauthenticated => ErrorInfoV1::SCHEMA_ID,
        }
    }
}

fn reference(id: &str) -> (r: String)
    ensures
        r@ == schema_ref(id@),
{
    let mut r = text("gts://");
    r.append(id);
    r
}

fn typed_json(t: &str) -> (r: Json)
    ensures
        r@ == typed(t@),
{
    let mut ms: Vec<(String, Json)> = Vec::new();
    ms.push((text("type"), Json::Str(text(t))));
    let r = object(ms);
    assert(r@->Object_0 =~= typed(t@)->Object_0);
    r
}

fn one_property_json(name: &str, property: Json) -> (r: Json)
    ensures
        r@ == one_property(name@, property@),
{
    let mut props: Vec<(String, Json)> = Vec::new();
    props.push((text(name), property));
    let props = object(props);
    let mut required: Vec<Json> = Vec::new();
    required.push(Json::Str(text(name)));
    let required = array(required);
    let mut ms: Vec<(String, Json)> = Vec::new();
    ms.push((text("type"), Json::Str(text("object"))));
    ms.push((text("properties"), props));
    ms.push((text("required"), required));
    let r = object(ms);
    assert(props@->Object_0 =~= seq![(name@, property@)]);
    assert(required@->Array_0 =~= seq![JsonModel::Str(name@)]);
    assert(r@->Object_0 =~= one_property(name@, property@)->Object_0);
    r
}

fn variant_json(name: &str, context_ref: String) -> (r: Json)
    ensures
        r@ == variant_schema(name@, context_ref@),
{
    let mut category: Vec<(String, Json)> = Vec::new();
    category.push((text("const"), Json::Str(text(name))));
    let category = object(category);
    let mut context: Vec<(String, Json)> = Vec::new();
    context.push((text("$ref"), Json::Str(context_ref)));
    let context = object(context);
    let mut props: Vec<(String, Json)> = Vec::new();
    props.push((text("category"), category));
    props.push((text("message"), typed_json("string")));
    props.push((text("resource_type"), typed_json("string")));
    props.push((text("context"), context));
    let props = object(props);
    let mut required: Vec<Json> = Vec::new();
    required.push(Json::Str(text("category")));
    required.push(Json::Str(text("message")));
    required.push(Json::Str(text("context")));
    let required = array(required);
    let mut ms: Vec<(String, Json)> = Vec::new();
    ms.push((text("type"), Json::Str(text("object"))));
    ms.push((text("properties"), props));
    ms.push((text("required"), required));
    let r = object(ms);
    let ghost m = variant_schema(name@, context_ref@);
    assert(category@->Object_0 =~= m->Object_0[1].1->Object_0[0].1->Object_0);
    assert(context@->Object_0 =~= m->Object_0[1].1->Object_0[3].1->Object_0);
    assert(props@->Object_0 =~= m->Object_0[1].1->Object_0);
    assert(required@->Array_0 =~= m->Object_0[2].1->Array_0);
    assert(r@->Object_0 =~= m->Object_0);
    r
}

impl Validation {
    /// The JSON-Schema document of the validation context.
    pub fn gts_schema_with_refs() -> (r: Json)
        ensures
            r@ == validation_schema(),
    {
        let mut items: Vec<(String, Json)> = Vec::new();
        items.push((text("$ref"), Json::Str(reference(FieldViolationV1::SCHEMA_ID))));
        let items = object(items);
        let mut list: Vec<(String, Json)> = Vec::new();
        list.push((text("type"), Json::Str(text("array"))));
        list.push((text("items"), items));
        let list = object(list);
        let mut shapes: Vec<Json> = Vec::new();
        shapes.push(one_property_json("field_violations", list));
        shapes.push(one_property_json("format", typed_json("string")));
        shapes.push(one_property_json("constraint", typed_json("string")));
        let shapes = array(shapes);
        let mut ms: Vec<(String, Json)> = Vec::new();
        ms.push((text("$id"), Json::Str(reference(Validation::SCHEMA_ID))));
        ms.push((text("$schema"), Json::Str(text("http://json-schema.org/draft-07/schema#"))));
        ms.push((text("oneOf"), shapes));
        let r = object(ms);
        let ghost m = validation_schema();
        let ghost fv = m->Object_0[2].1->Array_0[0]->Object_0[1].1->Object_0[0].1;
        assert(items@->Object_0 =~= fv->Object_0[1].1->Object_0);
        assert(list@->Object_0 =~= fv->Object_0);
        assert(shapes@->Array_0 =~= m->Object_0[2].1->Array_0);
        assert(r@->Object_0 =~= m->Object_0);
        r
    }
}

impl CanonicalError {
    /// The JSON-Schema document of the canonical error.
    pub fn gts_schema_with_refs() -> (r: Json)
        ensures
            r@ == canonical_error_schema(),
    {
        let mut variants: Vec<Json> = Vec::new();
        let mut i: usize = 0;
        while i < 16
            invariant
                i <= 16,
                variants@.len() == i,
                forall|k: int|
                    0 <= k < i ==> #[trigger] variants@[k]@ == variant_schema(
                        Category::at(k).spec_display_name(),
                        schema_ref(Category::at(k).spec_context_schema_id()),
                    ),
            decreases 16 - i,
        {
            let c = Category::from_index(i);
            variants.push(variant_json(c.display_name(), reference(c.context_schema_id())));
            i = i + 1;
        }
        let variants = array(variants);
        let mut ms: Vec<(String, Json)> = Vec::new();
        ms.push((text("$id"), Json::Str(reference(CanonicalError::SCHEMA_ID))));
        ms.push((text("$schema"), Json::Str(text("http://json-schema.org/draft-07/schema#"))));
        ms.push((text("oneOf"), variants));
        let r = object(ms);
        assert(variants@->Array_0 =~= canonical_error_schema()->Object_0[2].1->Array_0);
        assert(r@->Object_0 =~= canonical_error_schema()->Object_0);
        r
    }
}

} // verus!
