use vstd::prelude::*;

verus! {

broadcast use vstd::std_specs::vec::axiom_vec_index_decreases;

/// A structured-data value: null, boolean, number, string, array or object.
///
/// A number is held as the text of its JSON literal (`42`, `-7`, `1.5e3`). An
/// object holds its members in order; the library's own objects never repeat a
/// key.
///
/// `==` compares representations (member order and number text included);
/// evaluation compares values as serde_json does, see [`json_equal`].
#[derive(Debug, PartialEq)]
pub enum Json {
    Null,
    Bool(bool),
    Number(String),
    Str(String),
    Array(Vec<Json>),
    Object(Vec<Member>),
}

/// One member of an object: a key and its value.
#[derive(Debug, PartialEq)]
pub struct Member {
    pub key: String,
    pub value: Json,
}

/// The mathematical form of a [`Json`] value.
pub enum JsonView {
    Null,
    Bool(bool),
    Number(Seq<char>),
    Str(Seq<char>),
    Array(Seq<JsonView>),
    Object(Seq<(Seq<char>, JsonView)>),
}

/// The mathematical form of `j`, member by member.
pub open spec fn json_view(j: &Json) -> JsonView
    decreases j,
{
    match j {
        Json::Null => JsonView::Null,
        Json::Bool(b) => JsonView::Bool(*b),
        Json::Number(n) => JsonView::Number(n@),
        Json::Str(s) => JsonView::Str(s@),
        Json::Array(items) => JsonView::Array(
            Seq::new(
                items.len() as nat,
                |i: int|
                    if 0 <= i < items.len() {
                        json_view(&items[i])
                    } else {
                        JsonView::Null
                    },
            ),
        ),
        Json::Object(members) => JsonView::Object(
            Seq::new(
                members.len() as nat,
                |i: int|
                    if 0 <= i < members.len() {
                        (members[i].key@, json_view(&members[i].value))
                    } else {
                        (Seq::<char>::empty(), JsonView::Null)
                    },
            ),
        ),
    }
}

impl View for Json {
    type V = JsonView;

    open spec fn view(&self) -> JsonView {
        json_view(self)
    }
}

impl DeepView for Json {
    type V = JsonView;

    open spec fn deep_view(&self) -> JsonView {
        self.view()
    }
}

/// The views of a sequence of values.
pub open spec fn items_view(items: Seq<Json>) -> Seq<JsonView> {
    items.map_values(|j: Json| j@)
}

/// The views of a sequence of object members.
pub open spec fn members_view(members: Seq<Member>) -> Seq<(Seq<char>, JsonView)> {
    members.map_values(|m: Member| (m.key@, m.value@))
}

/// An array of strings in the mathematical form.
pub open spec fn texts_view(items: Seq<Seq<char>>) -> JsonView {
    JsonView::Array(items.map_values(|s: Seq<char>| JsonView::Str(s)))
}

pub(crate) proof fn lemma_array_view(items: Vec<Json>)
    ensures
        Json::Array(items)@ == JsonView::Array(items_view(items@)),
{
    let s = Seq::new(
        items.len() as nat,
        |i: int|
            if 0 <= i < items.len() {
                items[i].view()
            } else {
                JsonView::Null
            },
    );
    let t = Json::Array(items)@->Array_0;
    assert(t =~= items_view(items@));
}

pub(crate) proof fn lemma_object_view(members: Vec<Member>)
    ensures
        Json::Object(members)@ == JsonView::Object(members_view(members@)),
{
    let j = Json::Object(members);
    let t = j@->Object_0;
    assert(t.len() == members@.len());
    assert(t =~= members_view(members@));
}

impl Json {
    /// A string value.
    pub fn text(s: &str) -> (r: Json)
        ensures
            r@ == JsonView::Str(s@),
    {
        Json::Str(s.to_string())
    }

    /// A number value written as the JSON literal `s`.
    pub fn number(s: &str) -> (r: Json)
        ensures
            r@ == JsonView::Number(s@),
    {
        Json::Number(s.to_string())
    }

    /// An array value holding `items` in order.
    pub fn array(items: Vec<Json>) -> (r: Json)
        ensures
            r@ == JsonView::Array(items_view(items@)),
    {
        proof {
            lemma_array_view(items);
        }
        Json::Array(items)
    }

    /// An object value holding `members` in order.
    pub fn object(members: Vec<Member>) -> (r: Json)
        ensures
            r@ == JsonView::Object(members_view(members@)),
    {
        proof {
            lemma_object_view(members);
        }
        Json::Object(members)
    }

    /// An array of string values, one for each of `items`, in order.
    pub fn texts(items: &Vec<String>) -> (r: Json)
        ensures
            r@ == texts_view(items.deep_view()),
    {
        let mut out: Vec<Json> = Vec::new();
        for i in 0..items.len()
            invariant
                out@.len() == i,
                forall|k: int| 0 <= k < i ==> (#[trigger] out@[k])@ == JsonView::Str(items@[k]@),
        {
            out.push(Json::Str(items[i].clone()));
        }
        let r = Json::array(out);
        assert(items_view(out@) =~= items.deep_view().map_values(|s: Seq<char>| JsonView::Str(s)));
        r
    }
}

/// An object member whose key is `key`.
pub fn entry(key: &str, value: Json) -> (r: Member)
    ensures
        r.key@ == key@,
        r.value@ == value@,
{
    Member { key: key.to_string(), value }
}

impl Clone for Json {
    #[verifier::loop_isolation(false)]
    fn clone(&self) -> (r: Json)
        ensures
            r@ == self@,
        decreases self,
    {
        match self {
            Json::Null => Json::Null,
            Json::Bool(b) => Json::Bool(*b),
            Json::Number(n) => Json::Number(n.clone()),
            Json::Str(s) => Json::Str(s.clone()),
            Json::Array(items) => {
                let mut out: Vec<Json> = Vec::new();
                for i in 0..items.len()
                    invariant
                        out@.len() == i,
                        forall|k: int| 0 <= k < i ==> (#[trigger] out@[k])@ == items@[k]@,
                {
                    proof {
                        assert(decreases_to!(*self => *items));
                        assert(decreases_to!(*items => items[i as int]));
                        assert(decreases_to!(*self => items[i as int]));
                    }
                    out.push(items[i].clone());
                }
                let r = Json::array(out);
                assert(items_view(out@) =~= items_view(items@));
                proof {
                    lemma_array_view(*items);
                }
                r
            },
            Json::Object(members) => {
                let mut out: Vec<Member> = Vec::new();
                for i in 0..members.len()
                    invariant
                        out@.len() == i,
                        forall|k: int|
                            0 <= k < i ==> (#[trigger] out@[k]).key@ == members@[k].key@
                                && out@[k].value@ == members@[k].value@,
                {
                    proof {
                        assert(decreases_to!(*self => *members));
                        assert(decreases_to!(*members => members[i as int]));
                        assert(decreases_to!(members[i as int] => members[i as int].value));
                        assert(decreases_to!(*self => members[i as int].value));
                    }
                    out.push(Member { key: members[i].key.clone(), value: members[i].value.clone() });
                }
                let r = Json::object(out);
                assert(members_view(out@) =~= members_view(members@));
                proof {
                    lemma_object_view(*members);
                }
                r
            },
        }
    }
}

/// Two values are equal as serde_json compares them once it has read them:
/// deeply, telling types apart, objects compared as maps, and numbers as
/// serde_json reads their text (`1` and `1.0` differ; a text that is no JSON
/// number is read as a string).
pub uninterp spec fn json_equal(a: JsonView, b: JsonView) -> bool;

/// The validator accepts `instance` against `schema`: the schema compiles and
/// the instance breaks none of its rules.
pub uninterp spec fn schema_accepts(schema: JsonView, instance: JsonView) -> bool;

/// serde_json's `Value`, the form jsonschema reads and compares; opaque here.
#[verifier::external_type_specification]
#[verifier::external_body]
pub struct ExValue(serde_json::Value);

/// Builds the serde_json form of a value with serde_json's `Value` variants,
/// its `Map` (collected from the members) and `Number`'s `FromStr`. A number
/// whose text serde_json does not read as a number is handed on as a string.
#[verifier::external_body]
fn to_serde(j: &Json) -> serde_json::Value {
    match j {
        Json::Null => serde_json::Value::Null,
        Json::Bool(b) => serde_json::Value::Bool(*b),
        Json::Number(n) => n.parse::<serde_json::Number>().map_or_else(
            |_| serde_json::Value::String(n.clone()),
            serde_json::Value::Number,
        ),
        Json::Str(s) => serde_json::Value::String(s.clone()),
        Json::Array(items) => serde_json::Value::Array(items.iter().map(to_serde).collect()),
        Json::Object(members) => serde_json::Value::Object(
            members.iter().map(|m| (m.key.clone(), to_serde(&m.value))).collect(),
        ),
    }
}

/// Relies on `PartialEq for serde_json::Value`, whose answer depends on the two
/// values alone and is reflexive (serde_json numbers are never NaN).
#[verifier::external_body]
pub(crate) fn same_json(a: &Json, b: &Json) -> (r: bool)
    ensures
        r == json_equal(a@, b@),
        a@ == b@ ==> r,
{
    to_serde(a) == to_serde(b)
}

/// The messages the validator gives when it does not accept `instance`
/// against `schema`: the compile error's, or one for each violation, in the
/// order the validator reports them.
pub uninterp spec fn schema_violations(schema: JsonView, instance: JsonView) -> Seq<Seq<char>>;

/// Relies on jsonschema's `JSONSchema::compile` and `JSONSchema::validate`:
/// `Ok` exactly when the schema compiles and the instance passes; otherwise the
/// messages (`to_string`) of the compile error or of each violation. Both depend
/// on the two values alone. jsonschema resolves `$ref` anew on every visit, so a
/// reference that comes back to itself without descending into the instance
/// never ends: `requires` leaves such schemas out.
#[verifier::external_body]
pub(crate) fn check_schema(schema: &Json, instance: &Json) -> (r: Result<(), Vec<String>>)
    requires
        crate::validator::refs_terminate(schema@),
    ensures
        r is Ok <==> schema_accepts(schema@, instance@),
        r is Err ==> r->Err_0.deep_view() == schema_violations(schema@, instance@),
{
    let schema = to_serde(schema);
    let instance = to_serde(instance);
    match jsonschema::JSONSchema::compile(&schema) {
        Err(e) => Err(vec![e.to_string()]),
        Ok(compiled) => match compiled.validate(&instance) {
            Ok(()) => Ok(()),
            Err(errors) => Err(errors.map(|e| e.to_string()).collect()),
        },
    }
}

} // verus!
