use vstd::prelude::*;

use crate::json::{
    check_schema, lemma_array_view, lemma_object_view, schema_accepts, schema_violations, Json,
    JsonView,
};

verus! {

/// The message for a schema whose references the validator might follow forever.
pub const UNSAFE_SCHEMA_MESSAGE: &'static str = "The schema's references may not terminate: a schema with references may only use \"$ref\" values starting with \"#/$defs/\" or \"#/definitions/\", into root entries that hold no reference, and no \"$id\", \"$recursiveRef\", \"$dynamicRef\" or draft-04 \"$schema\".";

/// Keys that make the validator follow a reference.
pub open spec fn is_ref_keyword(k: Seq<char>) -> bool {
    k == "$ref"@ || k == "$recursiveRef"@ || k == "$dynamicRef"@
}

/// Root keys whose entries references may point into.
pub open spec fn is_container(k: Seq<char>) -> bool {
    k == "$defs"@ || k == "definitions"@
}

/// `j` holds no reference keyword at any depth.
pub open spec fn ref_free(j: JsonView) -> bool
    decreases j,
{
    match j {
        JsonView::Array(items) => forall|i: int|
            0 <= i < items.len() ==> ref_free(#[trigger] items[i]),
        JsonView::Object(members) => forall|i: int|
            0 <= i < members.len() ==> !is_ref_keyword((#[trigger] members[i]).0) && ref_free(
                members[i].1,
            ),
        _ => true,
    }
}

/// A member may stand: a `$ref` points into the root `$defs` or
/// `definitions`, and nothing else follows or rebases a reference.
pub open spec fn local_member(key: Seq<char>, value: JsonView) -> bool {
    &&& key == "$ref"@ ==> (value is Str && ("#/$defs/"@.is_prefix_of(value->Str_0)
        || "#/definitions/"@.is_prefix_of(value->Str_0)))
    &&& is_ref_keyword(key) ==> key == "$ref"@
    &&& key != "$id"@
}

/// Every member of `j`, at any depth, may stand.
pub open spec fn local_refs(j: JsonView) -> bool
    decreases j,
{
    match j {
        JsonView::Array(items) => forall|i: int|
            0 <= i < items.len() ==> local_refs(#[trigger] items[i]),
        JsonView::Object(members) => forall|i: int|
            0 <= i < members.len() ==> local_member((#[trigger] members[i]).0, members[i].1)
                && local_refs(members[i].1),
        _ => true,
    }
}

/// A root `$defs` or `definitions` value: an object whose entries hold no reference.
pub open spec fn defs_ref_free(v: JsonView) -> bool {
    v is Object && forall|i: int|
        0 <= i < v->Object_0.len() ==> ref_free((#[trigger] v->Object_0[i]).1)
}

/// The references of `schema` stay local: every `$ref` points into the root
/// `$defs` or `definitions`, whose entries hold no reference; nothing rebases
/// references (`$id`), and a root `$schema` does not pick draft 4 (where `id`
/// rebases them).
pub open spec fn local_schema(schema: JsonView) -> bool {
    match schema {
        JsonView::Object(members) => forall|i: int|
            0 <= i < members.len() ==> {
                &&& (#[trigger] members[i]).0 == "$schema"@ ==> members[i].1 != JsonView::Str(
                    "http://json-schema.org/draft-04/schema#"@,
                )
                &&& local_member(members[i].0, members[i].1)
                &&& is_container(members[i].0) ==> defs_ref_free(members[i].1)
                &&& !is_container(members[i].0) ==> local_refs(members[i].1)
            },
        _ => false,
    }
}

/// Following the references of `schema` always ends: it has none, or they
/// stay local, so that each reference leads to a part with no reference.
pub open spec fn refs_terminate(schema: JsonView) -> bool {
    ref_free(schema) || local_schema(schema)
}

/// The validator accepts `instance` against `schema`, which must also be one
/// whose references end.
pub open spec fn schema_passes(schema: JsonView, instance: JsonView) -> bool {
    refs_terminate(schema) && schema_accepts(schema, instance)
}

/// The messages for an instance that does not pass `schema`.
pub open spec fn violations_of(schema: JsonView, instance: JsonView) -> Seq<Seq<char>> {
    if refs_terminate(schema) {
        schema_violations(schema, instance)
    } else {
        seq![UNSAFE_SCHEMA_MESSAGE@]
    }
}

/// Whether `k` is `word`.
fn key_is(k: &String, word: &str) -> (r: bool)
    ensures
        r == (k@ == word@),
{
    let w = word.to_string();
    *k == w
}

fn is_ref_keyword_exec(k: &String) -> (r: bool)
    ensures
        r == is_ref_keyword(k@),
{
    key_is(k, "$ref") || key_is(k, "$recursiveRef") || key_is(k, "$dynamicRef")
}

/// Whether `s` starts with `p`.
fn starts_with(s: &String, p: &str) -> (r: bool)
    ensures
        r == p@.is_prefix_of(s@),
{
    let t = s.as_str();
    let n = p.unicode_len();
    if t.unicode_len() < n {
        return false;
    }
    for i in 0..n
        invariant
            n == p@.len(),
            t@ == s@,
            s@.len() >= n,
            forall|k: int| 0 <= k < i ==> s@[k] == p@[k],
    {
        if t.get_char(i) != p.get_char(i) {
            assert(s@.subrange(0, n as int)[i as int] != p@[i as int]);
            assert(!(p@ =~= s@.subrange(0, n as int)));
            return false;
        }
    }
    assert(p@ =~= s@.subrange(0, n as int));
    true
}

/// Whether no reference keyword occurs in `j`.
#[verifier::loop_isolation(false)]
pub fn is_ref_free(j: &Json) -> (r: bool)
    ensures
        r == ref_free(j@),
    decreases j,
{
    match j {
        Json::Array(items) => {
            let ghost elems = j@->Array_0;
            proof {
                lemma_array_view(*items);
                assert(elems =~= crate::json::items_view(items@));
            }
            for i in 0..items.len()
                invariant
                    forall|k: int| 0 <= k < i ==> ref_free(#[trigger] elems[k]),
            {
                proof {
                    assert(decreases_to!(*j => *items));
                    assert(decreases_to!(*items => items[i as int]));
                    assert(decreases_to!(*j => items[i as int]));
                }
                if !is_ref_free(&items[i]) {
                    assert(!ref_free(elems[i as int]));
                    assert(j@ == JsonView::Array(elems));
                    assert(ref_free(JsonView::Array(elems)) ==> ref_free(elems[i as int]));
                    return false;
                }
            }
            true
        },
        Json::Object(members) => {
            let ghost elems = j@->Object_0;
            proof {
                lemma_object_view(*members);
                assert(elems =~= crate::json::members_view(members@));
            }
            for i in 0..members.len()
                invariant
                    forall|k: int|
                        0 <= k < i ==> !is_ref_keyword((#[trigger] elems[k]).0) && ref_free(
                            elems[k].1,
                        ),
            {
                proof {
                    assert(decreases_to!(*j => *members));
                    assert(decreases_to!(*members => members[i as int]));
                    assert(decreases_to!(members[i as int] => members[i as int].value));
                    assert(decreases_to!(*j => members[i as int].value));
                }
                if is_ref_keyword_exec(&members[i].key) || !is_ref_free(&members[i].value) {
                    assert(!(!is_ref_keyword(elems[i as int].0) && ref_free(
                        elems[i as int].1,
                    )));
                    return false;
                }
            }
            true
        },
        _ => true,
    }
}

fn is_local_member(key: &String, value: &Json) -> (r: bool)
    ensures
        r == local_member(key@, value@),
{
    proof {
        reveal_strlit("$ref");
        reveal_strlit("$id");
        assert("$ref"@.len() == 4);
        assert("$ref"@ != "$id"@);
    }
    if key_is(key, "$ref") {
        assert(key@ != "$id"@);
        match value {
            Json::Str(s) => starts_with(s, "#/$defs/") || starts_with(s, "#/definitions/"),
            _ => false,
        }
    } else {
        !is_ref_keyword_exec(key) && !key_is(key, "$id")
    }
}

/// Whether every member of `j`, at any depth, may stand.
#[verifier::loop_isolation(false)]
pub fn has_local_refs(j: &Json) -> (r: bool)
    ensures
        r == local_refs(j@),
    decreases j,
{
    match j {
        Json::Array(items) => {
            let ghost elems = j@->Array_0;
            proof {
                lemma_array_view(*items);
                assert(elems =~= crate::json::items_view(items@));
            }
            for i in 0..items.len()
                invariant
                    forall|k: int| 0 <= k < i ==> local_refs(#[trigger] elems[k]),
            {
                proof {
                    assert(decreases_to!(*j => *items));
                    assert(decreases_to!(*items => items[i as int]));
                    assert(decreases_to!(*j => items[i as int]));
                }
                if !has_local_refs(&items[i]) {
                    assert(!local_refs(elems[i as int]));
                    assert(j@ == JsonView::Array(elems));
                    assert(local_refs(JsonView::Array(elems)) ==> local_refs(elems[i as int]));
                    return false;
                }
            }
            true
        },
        Json::Object(members) => {
            let ghost elems = j@->Object_0;
            proof {
                lemma_object_view(*members);
                assert(elems =~= crate::json::members_view(members@));
            }
            for i in 0..members.len()
                invariant
                    forall|k: int|
                        0 <= k < i ==> local_member((#[trigger] elems[k]).0, elems[k].1)
                            && local_refs(elems[k].1),
            {
                proof {
                    assert(decreases_to!(*j => *members));
                    assert(decreases_to!(*members => members[i as int]));
                    assert(decreases_to!(members[i as int] => members[i as int].value));
                    assert(decreases_to!(*j => members[i as int].value));
                }
                if !is_local_member(&members[i].key, &members[i].value) || !has_local_refs(
                    &members[i].value,
                ) {
                    assert(!(local_member(elems[i as int].0, elems[i as int].1)
                        && local_refs(elems[i as int].1)));
                    return false;
                }
            }
            true
        },
        _ => true,
    }
}

#[verifier::loop_isolation(false)]
fn has_ref_free_defs(v: &Json) -> (r: bool)
    ensures
        r == defs_ref_free(v@),
{
    match v {
        Json::Object(members) => {
            let ghost elems = v@->Object_0;
            proof {
                lemma_object_view(*members);
                assert(elems =~= crate::json::members_view(members@));
            }
            for i in 0..members.len()
                invariant
                    v@ == JsonView::Object(elems),
                    forall|k: int| 0 <= k < i ==> ref_free((#[trigger] elems[k]).1),
            {
                if !is_ref_free(&members[i].value) {
                    assert(!ref_free(elems[i as int].1));
                    return false;
                }
            }
            true
        },
        _ => false,
    }
}

/// Whether `value` is the draft-04 `$schema` URI, under which the validator
/// reads `id` in place of `$id`.
fn is_draft4(value: &Json) -> (r: bool)
    ensures
        r == (value@ == JsonView::Str("http://json-schema.org/draft-04/schema#"@)),
{
    match value {
        Json::Str(t) => key_is(t, "http://json-schema.org/draft-04/schema#"),
        _ => false,
    }
}

/// Whether the references of `schema` stay local.
#[verifier::loop_isolation(false)]
fn is_local_schema(schema: &Json) -> (r: bool)
    ensures
        r == local_schema(schema@),
{
    match schema {
        Json::Object(members) => {
            let ghost elems = schema@->Object_0;
            proof {
                lemma_object_view(*members);
                assert(elems =~= crate::json::members_view(members@));
            }
            for i in 0..members.len()
                invariant
                    schema@ == JsonView::Object(elems),
                    forall|k: int|
                        0 <= k < i ==> {
                            let m = elems[k];
                            &&& (#[trigger] elems[k]).0 == "$schema"@ ==> m.1 != JsonView::Str(
                                "http://json-schema.org/draft-04/schema#"@,
                            )
                            &&& local_member(m.0, m.1)
                            &&& is_container(m.0) ==> defs_ref_free(m.1)
                            &&& !is_container(m.0) ==> local_refs(m.1)
                        },
            {
                let key = &members[i].key;
                let value = &members[i].value;
                let ok = if key_is(key, "$schema") && is_draft4(value) {
                    false
                } else if !is_local_member(key, value) {
                    false
                } else if key_is(key, "$defs") || key_is(key, "definitions") {
                    has_ref_free_defs(value)
                } else {
                    has_local_refs(value)
                };
                assert(elems[i as int].0 == key@ && elems[i as int].1 == value@);
                if !ok {
                    return false;
                }
            }
            true
        },
        _ => false,
    }
}

/// Whether following the references of `schema` always ends.
pub fn references_terminate(schema: &Json) -> (r: bool)
    ensures
        r == refs_terminate(schema@),
{
    is_ref_free(schema) || is_local_schema(schema)
}

/// Checks `instance` against `schema`. A schema whose references might not end
/// is not handed to the validator: it is reported with [`UNSAFE_SCHEMA_MESSAGE`].
pub fn validate_against(schema: &Json, instance: &Json) -> (r: Result<(), Vec<String>>)
    ensures
        r is Ok <==> schema_passes(schema@, instance@),
        r is Err ==> r->Err_0.deep_view() == violations_of(schema@, instance@),
{
    if !references_terminate(schema) {
        let v = vec![UNSAFE_SCHEMA_MESSAGE.to_string()];
        assert(v.deep_view() =~= seq![UNSAFE_SCHEMA_MESSAGE@]);
        return Err(v);
    }
    check_schema(schema, instance)
}

} // verus!
