use vstd::prelude::*;

verus! {

broadcast use vstd::std_specs::vec::axiom_vec_decreases_to_view, vstd::seq::axiom_seq_index_decreases;

/// The mathematical model of a JSON value: strings as character sequences,
/// objects as the ordered list of their members.
pub enum JsonModel {
    Null,
    Bool(bool),
    UInt(nat),
    NegInt(int),
    Decimal(Seq<char>),
    Str(Seq<char>),
    Array(Seq<JsonModel>),
    Object(Seq<(Seq<char>, JsonModel)>),
}

/// A JSON value as this library builds and reads it.
#[derive(Debug, PartialEq, Eq)]
pub enum Json {
    Null,
    Bool(bool),
    /// A non-negative integer.
    UInt(u64),
    /// A negative integer.
    NegInt(i64),
    /// A number with a fraction or an exponent, kept as its decimal text.
    Decimal(String),
    Str(String),
    Array(Vec<Json>),
    Object(Vec<(String, Json)>),
}

impl View for Json {
    type V = JsonModel;

    open spec fn view(&self) -> JsonModel {
        model_of(*self)
    }
}

/// The model of a JSON value, part by part.
pub open spec fn model_of(j: Json) -> JsonModel
    decreases j,
{
    match j {
        Json::Null => JsonModel::Null,
        Json::Bool(b) => JsonModel::Bool(b),
        Json::UInt(n) => JsonModel::UInt(n as nat),
        Json::NegInt(n) => JsonModel::NegInt(n as int),
        Json::Decimal(s) => JsonModel::Decimal(s@),
        Json::Str(s) => JsonModel::Str(s@),
        Json::Array(items) => JsonModel::Array(
            Seq::new(
                items@.len(),
                |i: int|
                    if 0 <= i < items@.len() {
                        model_of(items@[i])
                    } else {
                        JsonModel::Null
                    },
            ),
        ),
        Json::Object(members) => JsonModel::Object(
            Seq::new(
                members@.len(),
                |i: int|
                    if 0 <= i < members@.len() {
                        (members@[i].0@, model_of(members@[i].1))
                    } else {
                        (Seq::empty(), JsonModel::Null)
                    },
            ),
        ),
    }
}

} // verus!

verus! {

/// Index of the first member of `ms` named `key`, if any.
pub open spec fn first_index(ms: Seq<(Seq<char>, JsonModel)>, key: Seq<char>) -> Option<int>
    decreases ms.len(),
{
    if ms.len() == 0 {
        None
    } else if ms[0].0 == key {
        Some(0)
    } else {
        match first_index(ms.drop_first(), key) {
            Some(i) => Some(i + 1),
            None => None,
        }
    }
}

/// The value of the first member of `ms` named `key`.
pub open spec fn member(ms: Seq<(Seq<char>, JsonModel)>, key: Seq<char>) -> Option<JsonModel> {
    match first_index(ms, key) {
        Some(i) => Some(ms[i].1),
        None => None,
    }
}

/// The members after setting `key` to `value`: the first member of that name
/// gets the new value in place; without one, the member is appended.
pub open spec fn with_member(
    ms: Seq<(Seq<char>, JsonModel)>,
    key: Seq<char>,
    value: JsonModel,
) -> Seq<(Seq<char>, JsonModel)> {
    match first_index(ms, key) {
        Some(i) => ms.update(i, (key, value)),
        None => ms.push((key, value)),
    }
}

/// The value under `key` when `j` is an object.
pub open spec fn lookup(j: JsonModel, key: Seq<char>) -> Option<JsonModel> {
    match j {
        JsonModel::Object(ms) => member(ms, key),
        _ => None,
    }
}

/// The string under `key` when `j` is an object that holds one there.
pub open spec fn str_field(j: JsonModel, key: Seq<char>) -> Option<Seq<char>> {
    match lookup(j, key) {
        Some(JsonModel::Str(s)) => Some(s),
        _ => None,
    }
}

pub open spec fn opt_view(r: Option<&Json>) -> Option<JsonModel> {
    match r {
        Some(v) => Some(v@),
        None => None,
    }
}

pub proof fn lemma_first_index(ms: Seq<(Seq<char>, JsonModel)>, key: Seq<char>)
    ensures
        match first_index(ms, key) {
            Some(i) => 0 <= i < ms.len() && ms[i].0 == key && forall|j: int|
                0 <= j < i ==> ms[j].0 != key,
            None => forall|j: int| 0 <= j < ms.len() ==> ms[j].0 != key,
        },
    decreases ms.len(),
{
    if ms.len() > 0 && ms[0].0 != key {
        lemma_first_index(ms.drop_first(), key);
        assert forall|j: int| 1 <= j < ms.len() implies ms[j] == ms.drop_first()[j - 1] by {}
    }
}

/// A first index is fixed by what precedes it.
pub proof fn lemma_first_index_at(ms: Seq<(Seq<char>, JsonModel)>, key: Seq<char>, i: int)
    requires
        0 <= i <= ms.len(),
        forall|j: int| 0 <= j < i ==> ms[j].0 != key,
    ensures
        i < ms.len() && ms[i].0 == key ==> first_index(ms, key) == Some(i),
        i == ms.len() ==> first_index(ms, key) is None,
{
    lemma_first_index(ms, key);
}

/// Setting a member changes what is read under its name and nothing else.
pub proof fn lemma_with_member(
    ms: Seq<(Seq<char>, JsonModel)>,
    key: Seq<char>,
    value: JsonModel,
    other: Seq<char>,
)
    ensures
        member(with_member(ms, key, value), key) == Some(value),
        other != key ==> member(with_member(ms, key, value), other) == member(ms, other),
{
    let ns = with_member(ms, key, value);
    lemma_first_index(ms, key);
    lemma_first_index(ms, other);
    lemma_first_index(ns, key);
    lemma_first_index(ns, other);
    match first_index(ms, key) {
        Some(i) => {
            lemma_first_index_at(ns, key, i);
            match first_index(ms, other) {
                Some(k) => lemma_first_index_at(ns, other, k),
                None => lemma_first_index_at(ns, other, ns.len() as int),
            }
        },
        None => {
            lemma_first_index_at(ns, key, ms.len() as int);
            match first_index(ms, other) {
                Some(k) => lemma_first_index_at(ns, other, k),
                None => {
                    if other != key {
                        lemma_first_index_at(ns, other, ns.len() as int);
                    }
                },
            }
        },
    }
}

/// How the model of an object or an array is made of its parts.
pub proof fn lemma_object_view(j: Json)
    ensures
        j is Object ==> j@ is Object && j@->Object_0.len() == j->Object_0@.len() && forall|i: int|
            0 <= i < j->Object_0@.len() ==> #[trigger] j@->Object_0[i] == (
                j->Object_0@[i].0@,
                j->Object_0@[i].1@,
            ),
        j is Array ==> j@ is Array && j@->Array_0.len() == j->Array_0@.len() && forall|i: int|
            0 <= i < j->Array_0@.len() ==> #[trigger] j@->Array_0[i] == j->Array_0@[i]@,
{
    match j {
        Json::Object(v) => {
            let o = Json::Object(v);
            assert(o@->Object_0.len() == v@.len());
        },
        Json::Array(v) => {
            let a = Json::Array(v);
            assert(a@->Array_0.len() == v@.len());
        },
        _ => {},
    }
}

/// An owned copy of a text.
pub fn text(s: &str) -> (r: String)
    ensures
        r@ == s@,
{
    s.to_owned()
}

impl Json {
    /// The value under `key` when `self` is an object.
    pub fn get(&self, key: &String) -> (r: Option<&Json>)
        ensures
            opt_view(r) == lookup(self@, key@),
    {
        match self {
            Json::Object(members) => {
                let ghost ms = self@->Object_0;
                proof {
                    lemma_object_view(*self);
                }
                let mut i: usize = 0;
                while i < members.len()
                    invariant
                        0 <= i <= members.len(),
                        self@ == JsonModel::Object(ms),
                        ms.len() == members@.len(),
                        forall|j: int| 0 <= j < members@.len() ==> ms[j] == (#[trigger] members@[j].0@, members@[j].1@),
                        forall|j: int| 0 <= j < i ==> ms[j].0 != key@,
                    decreases members.len() - i,
                {
                    if members[i].0 == *key {
                        proof {
                            lemma_first_index_at(ms, key@, i as int);
                            assert(ms[i as int] == (members@[i as int].0@, members@[i as int].1@));
                        }
                        return Some(&members[i].1);
                    }
                    i = i + 1;
                }
                proof {
                    lemma_first_index_at(ms, key@, i as int);
                }
                None
            },
            _ => None,
        }
    }

    /// The text when `self` is a string.
    pub fn as_str(&self) -> (r: Option<&String>)
        ensures
            match self@ {
                JsonModel::Str(s) => r matches Some(t) && t@ == s,
                _ => r is None,
            },
    {
        match self {
            Json::Str(s) => Some(s),
            _ => None,
        }
    }

    /// Sets `key` to `value` in an object, as `with_member` says.
    pub fn set(&mut self, key: String, value: Json)
        requires
            old(self)@ is Object,
        ensures
            final(self)@ == JsonModel::Object(with_member(old(self)@->Object_0, key@, value@)),
    {
        let ghost ms = self@->Object_0;
        let ghost target = with_member(ms, key@, value@);
        proof {
            lemma_first_index(ms, key@);
            lemma_object_view(*self);
        }
        if let Json::Object(members) = self {
            let mut i: usize = 0;
            let mut found = false;
            while i < members.len() && !found
                invariant
                    0 <= i <= members.len(),
                    ms.len() == members@.len(),
                    forall|j: int|
                        0 <= j < members@.len() ==> ms[j] == (
                            #[trigger] members@[j].0@,
                            members@[j].1@,
                        ),
                    forall|j: int| 0 <= j < (if found { i - 1 } else { i as int }) ==> ms[j].0 != key@,
                    found ==> i > 0 && ms[i - 1].0 == key@,
                decreases members.len() - i + (if found { 0int } else { 1int }),
            {
                if members[i].0 == key {
                    found = true;
                }
                i = i + 1;
            }
            if found {
                proof {
                    lemma_first_index_at(ms, key@, i - 1);
                }
                members.set(i - 1, (key, value));
            } else {
                proof {
                    lemma_first_index_at(ms, key@, i as int);
                }
                members.push((key, value));
            }
            assert(members@.len() == target.len());
            assert forall|j: int| 0 <= j < members@.len() implies target[j] == (
                #[trigger] members@[j].0@,
                members@[j].1@,
            ) by {}
        }
        assert(self@->Object_0 =~= target);
    }
}


/// What `lookup` reads after a member was set.
pub proof fn lemma_lookup_with_member(m: JsonModel, key: Seq<char>, value: JsonModel, other: Seq<char>)
    requires
        m is Object,
    ensures
        lookup(JsonModel::Object(with_member(m->Object_0, key, value)), other) == (if other == key {
            Some(value)
        } else {
            lookup(m, other)
        }),
{
    lemma_with_member(m->Object_0, key, value, other);
}

/// A member whose name no earlier member has is what `lookup` finds.
pub proof fn lemma_lookup_at(ms: Seq<(Seq<char>, JsonModel)>, i: int)
    requires
        0 <= i < ms.len(),
        forall|j: int| 0 <= j < i ==> ms[j].0 != ms[i].0,
    ensures
        lookup(JsonModel::Object(ms), ms[i].0) == Some(ms[i].1),
{
    lemma_first_index_at(ms, ms[i].0, i);
}

/// A name that no member has is found nowhere.
pub proof fn lemma_lookup_absent(ms: Seq<(Seq<char>, JsonModel)>, key: Seq<char>)
    requires
        forall|j: int| 0 <= j < ms.len() ==> ms[j].0 != key,
    ensures
        lookup(JsonModel::Object(ms), key) is None,
{
    lemma_first_index_at(ms, key, ms.len() as int);
}

/// A string member.
pub fn str_member(key: &str, value: &String) -> (r: (String, Json))
    ensures
        r.0@ == key@,
        r.1@ == JsonModel::Str(value@),
{
    (text(key), Json::Str(value.clone()))
}

/// An object made of the given members.
pub fn object(members: Vec<(String, Json)>) -> (r: Json)
    ensures
        r@ == JsonModel::Object(
            Seq::new(members@.len(), |i: int| (members@[i].0@, members@[i].1@)),
        ),
{
    let r = Json::Object(members);
    proof {
        lemma_object_view(r);
        assert(r@->Object_0 =~= Seq::new(members@.len(), |i: int| (members@[i].0@, members@[i].1@)));
    }
    r
}

impl Json {
    /// A copy of the string under `key` when `self` is an object that holds one there.
    pub fn get_str(&self, key: &str) -> (r: Option<String>)
        ensures
            match str_field(self@, key@) {
                Some(s) => r matches Some(t) && t@ == s,
                None => r is None,
            },
    {
        let k = text(key);
        match self.get(&k) {
            Some(v) => match v.as_str() {
                Some(s) => Some(s.clone()),
                None => None,
            },
            None => None,
        }
    }
}

/// An array of the given items.
pub fn array(items: Vec<Json>) -> (r: Json)
    ensures
        r@ == JsonModel::Array(Seq::new(items@.len(), |i: int| items@[i]@)),
{
    let r = Json::Array(items);
    proof {
        lemma_object_view(r);
        assert(r@->Array_0 =~= Seq::new(items@.len(), |i: int| items@[i]@));
    }
    r
}

impl Json {
    /// The items of the array under `key` when `self` is an object that holds one there.
    pub fn get_array(&self, key: &str) -> (r: Option<&Vec<Json>>)
        ensures
            match lookup(self@, key@) {
                Some(JsonModel::Array(items)) => r matches Some(v) && v@.len() == items.len()
                    && forall|i: int| 0 <= i < items.len() ==> #[trigger] v@[i]@ == items[i],
                _ => r is None,
            },
    {
        let k = text(key);
        match self.get(&k) {
            Some(v) => {
                proof {
                    lemma_object_view(*v);
                }
                match v {
                    Json::Array(items) => Some(items),
                    _ => None,
                }
            },
            None => None,
        }
    }

    /// The members of the object under `key` when `self` is an object that holds one there.
    pub fn get_object(&self, key: &str) -> (r: Option<&Vec<(String, Json)>>)
        ensures
            match lookup(self@, key@) {
                Some(JsonModel::Object(ms)) => r matches Some(v) && v@.len() == ms.len()
                    && forall|i: int| 0 <= i < ms.len() ==> #[trigger] ms[i] == (v@[i].0@, v@[i].1@),
                _ => r is None,
            },
    {
        let k = text(key);
        match self.get(&k) {
            Some(v) => {
                proof {
                    lemma_object_view(*v);
                }
                match v {
                    Json::Object(ms) => Some(ms),
                    _ => None,
                }
            },
            None => None,
        }
    }

    /// The integer under `key` when `self` is an object that holds a non-negative one there.
    pub fn get_u64(&self, key: &str) -> (r: Option<u64>)
        ensures
            match lookup(self@, key@) {
                Some(JsonModel::UInt(n)) => r == Some(n as u64) && n <= u64::MAX,
                _ => r is None,
            },
    {
        let k = text(key);
        match self.get(&k) {
            Some(Json::UInt(n)) => Some(*n),
            _ => None,
        }
    }
}

impl Json {
    /// A copy of `self`, part by part.
    pub fn deep_clone(&self) -> (r: Json)
        ensures
            r@ == self@,
        decreases self,
    {
        proof {
            lemma_object_view(*self);
        }
        match self {
            Json::Null => Json::Null,
            Json::Bool(b) => Json::Bool(*b),
            Json::UInt(n) => Json::UInt(*n),
            Json::NegInt(n) => Json::NegInt(*n),
            Json::Decimal(s) => Json::Decimal(s.clone()),
            Json::Str(s) => Json::Str(s.clone()),
            Json::Array(items) => {
                assert(decreases_to!(*self => *items));
                assert(decreases_to!(*items => items@));
                assert forall|k: int| 0 <= k < items@.len() implies decreases_to!(*self => #[trigger] items@[k]) by {
                    assert(decreases_to!(items@ => items@[k]));
                }
                let mut out: Vec<Json> = Vec::new();
                let mut i: usize = 0;
                while i < items.len()
                    invariant
                        forall|k: int| 0 <= k < items@.len() ==> decreases_to!(*self => #[trigger] items@[k]),
                        i <= items@.len(),
                        out@.len() == i,
                        forall|k: int| 0 <= k < i ==> #[trigger] out@[k]@ == items@[k]@,
                    decreases items@.len() - i,
                {
                    out.push(items[i].deep_clone());
                    i = i + 1;
                }
                let r = array(out);
                assert(r@->Array_0 =~= self@->Array_0);
                r
            },
            Json::Object(members) => {
                assert(decreases_to!(*self => *members));
                assert(decreases_to!(*members => members@));
                assert forall|k: int| 0 <= k < members@.len() implies decreases_to!(*self => #[trigger] members@[k].1) by {
                    assert(decreases_to!(members@ => members@[k]));
                    assert(decreases_to!(members@[k] => members@[k].1));
                }
                let mut out: Vec<(String, Json)> = Vec::new();
                let mut i: usize = 0;
                while i < members.len()
                    invariant
                        forall|k: int| 0 <= k < members@.len() ==> decreases_to!(*self => #[trigger] members@[k].1),
                        i <= members@.len(),
                        out@.len() == i,
                        forall|k: int|
                            0 <= k < i ==> (#[trigger] out@[k].0@, out@[k].1@) == (
                                members@[k].0@,
                                members@[k].1@,
                            ),
                    decreases members@.len() - i,
                {
                    out.push((members[i].0.clone(), members[i].1.deep_clone()));
                    i = i + 1;
                }
                let r = object(out);
                assert(r@->Object_0 =~= self@->Object_0);
                r
            },
        }
    }
}

} // verus!
