use vstd::prelude::*;

use crate::error::UtilError;

verus! {

/// A JSON document as the library holds it.
///
/// Numbers are kept in the textual form in which the JSON library renders them,
/// so that no floating-point value is needed to carry them through.
#[derive(Debug, PartialEq)]
pub enum Json {
    Null,
    Bool(bool),
    Number(String),
    Str(String),
    Array(Vec<Json>),
    Object(Vec<(String, Json)>),
}

/// The mathematical value of a JSON document.
pub enum JsonV {
    Null,
    Bool(bool),
    Number(Seq<char>),
    Str(Seq<char>),
    Array(Seq<JsonV>),
    Object(Seq<(Seq<char>, JsonV)>),
}

impl Json {
    pub open spec fn view(&self) -> JsonV
        decreases self,
    {
        match self {
            Json::Null => JsonV::Null,
            Json::Bool(b) => JsonV::Bool(*b),
            Json::Number(n) => JsonV::Number(n@),
            Json::Str(s) => JsonV::Str(s@),
            Json::Array(v) => JsonV::Array(
                Seq::new(
                    v@.len(),
                    |i: int|
                        if 0 <= i < v@.len() {
                            v@[i].view()
                        } else {
                            JsonV::Null
                        },
                ),
            ),
            Json::Object(v) => JsonV::Object(
                Seq::new(
                    v@.len(),
                    |i: int|
                        if 0 <= i < v@.len() {
                            (v@[i].0@, v@[i].1.view())
                        } else {
                            (Seq::empty(), JsonV::Null)
                        },
                ),
            ),
        }
    }

    /// A copy of this document with the same value.
    pub fn cloned(&self) -> (r: Json)
        ensures
            r.view() == self.view(),
        decreases self,
    {
        match self {
            Json::Null => Json::Null,
            Json::Bool(b) => Json::Bool(*b),
            Json::Number(n) => Json::Number(n.clone()),
            Json::Str(s) => Json::Str(s.clone()),
            Json::Array(v) => {
                let mut out: Vec<Json> = Vec::new();
                let mut i: usize = 0;
                while i < v.len()
                    invariant
                        i <= v@.len(),
                        out@.len() == i,
                        forall|k: int| 0 <= k < i ==> (#[trigger] out@[k]).view() == v@[k].view(),
                        *self == Json::Array(*v),
                    decreases v@.len() - i,
                {
                    proof {
                        assert(decreases_to!(*self => self->Array_0));
                        vstd::std_specs::vec::axiom_vec_index_decreases(*v, i as int);
                        assert(decreases_to!(*v => v[i as int]));
                    }
                    let c = v[i].cloned();
                    out.push(c);
                    i = i + 1;
                }
                let r = Json::Array(out);
                proof {
                    let a = r.view()->Array_0;
                    let b = self.view()->Array_0;
                    assert forall|k: int| 0 <= k < a.len() implies a[k] == b[k] by {
                        assert(a[k] == out@[k].view());
                        assert(b[k] == v@[k].view());
                    }
                    assert(a =~= b);
                }
                r
            },
            Json::Object(v) => {
                let mut out: Vec<(String, Json)> = Vec::new();
                let mut i: usize = 0;
                while i < v.len()
                    invariant
                        i <= v@.len(),
                        out@.len() == i,
                        forall|k: int|
                            0 <= k < i ==> (#[trigger] out@[k]).0@ == v@[k].0@ && out@[k].1.view()
                                == v@[k].1.view(),
                        *self == Json::Object(*v),
                    decreases v@.len() - i,
                {
                    proof {
                        assert(decreases_to!(*self => self->Object_0));
                        vstd::std_specs::vec::axiom_vec_index_decreases(*v, i as int);
                        assert(decreases_to!(*v => v[i as int]));
                        assert(decreases_to!(v[i as int] => v[i as int].1));
                    }
                    let c = v[i].1.cloned();
                    let k = v[i].0.clone();
                    out.push((k, c));
                    i = i + 1;
                }
                let r = Json::Object(out);
                proof {
                    let a = r.view()->Object_0;
                    let b = self.view()->Object_0;
                    assert(a.len() == b.len());
                    assert forall|k: int| 0 <= k < a.len() implies a[k] == b[k] by {
                        assert(a[k] == (out@[k].0@, out@[k].1.view()));
                        assert(b[k] == (v@[k].0@, v@[k].1.view()));
                    }
                    assert(a =~= b);
                }
                r
            },
        }
    }

    /// Whether the document is a JSON object.
    pub fn is_object(&self) -> (b: bool)
        ensures
            b == (self.view() is Object),
    {
        match self {
            Json::Object(_) => true,
            _ => false,
        }
    }

    /// Whether the document is a JSON array.
    pub fn is_array(&self) -> (b: bool)
        ensures
            b == (self.view() is Array),
    {
        match self {
            Json::Array(_) => true,
            _ => false,
        }
    }

    /// A JSON string holding `s`.
    pub fn from_str_value(s: &str) -> (r: Json)
        ensures
            r.view() == JsonV::Str(s@),
    {
        Json::Str(s.to_owned())
    }

    /// The value stored under `key`, when this is an object that holds the key.
    pub fn get(&self, key: &str) -> (r: Option<&Json>)
        ensures
            match self.view() {
                JsonV::Object(entries) => match r {
                    Some(v) => {
                        let i = obj_key_index(entries, key@);
                        0 <= i < entries.len() && v.view() == entries[i].1
                    },
                    None => obj_key_index(entries, key@) == -1,
                },
                _ => r is None,
            },
    {
        match self {
            Json::Object(v) => {
                let k = key.to_owned();
                let mut i: usize = 0;
                let ghost entries = self.view()->Object_0;
                while i < v.len()
                    invariant
                        i <= v@.len(),
                        entries.len() == v@.len(),
                        self.view() == JsonV::Object(entries),
                        *self == Json::Object(*v),
                        k@ == key@,
                        forall|j: int| 0 <= j < i ==> entries[j].0 != key@,
                    decreases v@.len() - i,
                {
                    assert(entries[i as int].0 == v@[i as int].0@);
                    if v[i].0 == k {
                        proof {
                            lemma_obj_key_index_found(entries, key@, i as int);
                        }
                        return Some(&v[i].1);
                    }
                    i = i + 1;
                }
                proof {
                    lemma_obj_key_index_absent(entries, key@);
                }
                None
            },
            _ => None,
        }
    }
}

/// The index of the first entry of an object that holds `key`, or -1 when none does.
pub open spec fn obj_key_index(entries: Seq<(Seq<char>, JsonV)>, key: Seq<char>) -> int
    decreases entries.len(),
{
    if entries.len() == 0 {
        -1
    } else if entries[0].0 == key {
        0
    } else {
        let r = obj_key_index(entries.drop_first(), key);
        if r == -1 {
            -1
        } else {
            r + 1
        }
    }
}

/// The entries of an object after `key` is set to `value`: the first entry with
/// that key is replaced, or the pair is appended when the key is new.
pub open spec fn obj_set(entries: Seq<(Seq<char>, JsonV)>, key: Seq<char>, value: JsonV) -> Seq<
    (Seq<char>, JsonV),
> {
    let i = obj_key_index(entries, key);
    if i == -1 {
        entries.push((key, value))
    } else {
        entries.update(i, (key, value))
    }
}

/// The entries of `dest` after every entry of `src` has been set into it, in order.
pub open spec fn obj_merge(dest: Seq<(Seq<char>, JsonV)>, src: Seq<(Seq<char>, JsonV)>) -> Seq<
    (Seq<char>, JsonV),
>
    decreases src.len(),
{
    if src.len() == 0 {
        dest
    } else {
        obj_merge(obj_set(dest, src[0].0, src[0].1), src.drop_first())
    }
}

/// The index that `obj_key_index` gives is in range and holds the key, and no
/// earlier entry holds it.
pub proof fn lemma_obj_key_index_props(entries: Seq<(Seq<char>, JsonV)>, key: Seq<char>)
    ensures
        -1 <= obj_key_index(entries, key) < entries.len(),
        obj_key_index(entries, key) != -1 ==> entries[obj_key_index(entries, key)].0 == key,
        forall|j: int| 0 <= j < entries.len() && (obj_key_index(entries, key) == -1 || j < obj_key_index(entries, key))
            ==> #[trigger] entries[j].0 != key,
    decreases entries.len(),
{
    if entries.len() > 0 && entries[0].0 != key {
        lemma_obj_key_index_props(entries.drop_first(), key);
        assert forall|j: int| 0 <= j < entries.len() && (obj_key_index(entries, key) == -1 || j < obj_key_index(entries, key))
            implies #[trigger] entries[j].0 != key by {
            if j > 0 {
                assert(entries[j] == entries.drop_first()[j - 1]);
            }
        }
    }
}

/// The first entry holding `key` is found at `i` when no earlier entry holds it.
pub proof fn lemma_obj_key_index_found(entries: Seq<(Seq<char>, JsonV)>, key: Seq<char>, i: int)
    requires
        0 <= i < entries.len(),
        entries[i].0 == key,
        forall|j: int| 0 <= j < i ==> entries[j].0 != key,
    ensures
        obj_key_index(entries, key) == i,
    decreases i,
{
    if i > 0 {
        let rest = entries.drop_first();
        assert forall|j: int| 0 <= j < i - 1 implies rest[j].0 != key by {
            assert(rest[j] == entries[j + 1]);
        }
        lemma_obj_key_index_found(rest, key, i - 1);
    }
}

/// No entry holds `key`: it is not found.
pub proof fn lemma_obj_key_index_absent(entries: Seq<(Seq<char>, JsonV)>, key: Seq<char>)
    requires
        forall|j: int| 0 <= j < entries.len() ==> entries[j].0 != key,
    ensures
        obj_key_index(entries, key) == -1,
    decreases entries.len(),
{
    if entries.len() > 0 {
        let rest = entries.drop_first();
        assert forall|j: int| 0 <= j < rest.len() implies rest[j].0 != key by {
            assert(rest[j] == entries[j + 1]);
        }
        lemma_obj_key_index_absent(rest, key);
    }
}

/// What an object holds under `key`: the value of the first entry with that
/// key, if any.
pub open spec fn obj_lookup(entries: Seq<(Seq<char>, JsonV)>, key: Seq<char>) -> Option<JsonV> {
    let i = obj_key_index(entries, key);
    if i == -1 {
        None
    } else {
        Some(entries[i].1)
    }
}

/// Reading a key of an object after setting it gives back the value that was
/// set, and every other key still gives what it gave before.
pub proof fn lemma_set_then_lookup(entries: Seq<(Seq<char>, JsonV)>, key: Seq<char>, value: JsonV, other: Seq<char>)
    ensures
        obj_lookup(obj_set(entries, key, value), key) == Some(value),
        other != key ==> obj_lookup(obj_set(entries, key, value), other) == obj_lookup(entries, other),
{
    let i = obj_key_index(entries, key);
    let after = obj_set(entries, key, value);
    lemma_obj_key_index_props(entries, key);
    lemma_obj_key_index_props(entries, other);
    let j = obj_key_index(entries, other);
    if i == -1 {
        assert forall|k: int| 0 <= k < entries.len() implies after[k].0 != key by {
            assert(after[k] == entries[k]);
        }
        lemma_obj_key_index_found(after, key, entries.len() as int);
        if other != key {
            if j == -1 {
                assert forall|k: int| 0 <= k < after.len() implies after[k].0 != other by {
                    if k < entries.len() {
                        assert(after[k] == entries[k]);
                    }
                }
                lemma_obj_key_index_absent(after, other);
            } else {
                assert forall|k: int| 0 <= k < j implies after[k].0 != other by {
                    assert(after[k] == entries[k]);
                }
                assert(after[j] == entries[j]);
                lemma_obj_key_index_found(after, other, j);
            }
        }
    } else {
        assert forall|k: int| 0 <= k < i implies after[k].0 != key by {
            assert(after[k] == entries[k]);
        }
        lemma_obj_key_index_found(after, key, i);
        if other != key {
            if j == -1 {
                assert forall|k: int| 0 <= k < after.len() implies after[k].0 != other by {
                    if k != i {
                        assert(after[k] == entries[k]);
                    }
                }
                lemma_obj_key_index_absent(after, other);
            } else {
                assert forall|k: int| 0 <= k < j implies after[k].0 != other by {
                    if k != i {
                        assert(after[k] == entries[k]);
                    }
                }
                assert(j != i);
                assert(after[j] == entries[j]);
                lemma_obj_key_index_found(after, other, j);
            }
        }
    }
}

/// No two entries of an object share a key, as in every object that the JSON
/// library reads.
pub open spec fn keys_unique(entries: Seq<(Seq<char>, JsonV)>) -> bool {
    forall|a: int, b: int| 0 <= a < b < entries.len() ==> entries[a].0 != entries[b].0
}

/// Reading an object past its first entry.
proof fn lemma_lookup_drop_first(entries: Seq<(Seq<char>, JsonV)>, key: Seq<char>)
    requires
        entries.len() > 0,
        entries[0].0 != key,
    ensures
        obj_lookup(entries, key) == obj_lookup(entries.drop_first(), key),
{
    let rest = entries.drop_first();
    lemma_obj_key_index_props(rest, key);
    let r = obj_key_index(rest, key);
    if r != -1 {
        assert(entries[r + 1] == rest[r]);
    }
}

/// Reading a key after merging an object `src` into `dest`: the value of `src`
/// when `src` holds the key, and else what `dest` held.
pub proof fn lemma_merge_then_lookup(dest: Seq<(Seq<char>, JsonV)>, src: Seq<(Seq<char>, JsonV)>, key: Seq<char>)
    requires
        keys_unique(src),
    ensures
        obj_lookup(obj_merge(dest, src), key) == match obj_lookup(src, key) {
            Some(v) => Some(v),
            None => obj_lookup(dest, key),
        },
    decreases src.len(),
{
    if src.len() > 0 {
        let rest = src.drop_first();
        assert forall|a: int, b: int| 0 <= a < b < rest.len() implies rest[a].0 != rest[b].0 by {
            assert(rest[a] == src[a + 1]);
            assert(rest[b] == src[b + 1]);
        }
        let d1 = obj_set(dest, src[0].0, src[0].1);
        lemma_merge_then_lookup(d1, rest, key);
        lemma_set_then_lookup(dest, src[0].0, src[0].1, key);
        if src[0].0 == key {
            lemma_obj_key_index_props(rest, key);
            let r = obj_key_index(rest, key);
            if r != -1 {
                assert(rest[r] == src[r + 1]);
            }
            assert(obj_key_index(src, key) == 0);
        } else {
            lemma_lookup_drop_first(src, key);
        }
    }
}

/// Sets `key` to `new_value` in the object `value`.
///
/// Fails with `RootMustBeObjectError`, and leaves `value` as it was, when `value`
/// is not an object.
pub fn update_serde_value(value: &mut Json, key: &str, new_value: Json) -> (r: Result<(), UtilError>)
    ensures
        match old(value).view() {
            JsonV::Object(entries) => r is Ok && final(value).view() == JsonV::Object(
                obj_set(entries, key@, new_value.view()),
            ),
            _ => r == Err::<(), UtilError>(UtilError::RootMustBeObjectError) && final(value).view()
                == old(value).view(),
        },
{
    match value {
        Json::Object(entries) => {
            proof {
                lemma_entries_view(*entries);
            }
            object_set(entries, key.to_owned(), new_value);
            proof {
                lemma_entries_view(*entries);
            }
            Ok(())
        },
        _ => Err(UtilError::RootMustBeObjectError),
    }
}

/// The view of the entries of an object, as `Json::view` gives them.
pub open spec fn entries_view(v: Seq<(String, Json)>) -> Seq<(Seq<char>, JsonV)> {
    Seq::new(v.len(), |i: int| (v[i].0@, v[i].1.view()))
}

/// The view of an object is the view of its entries, one by one.
pub proof fn lemma_entries_view(v: Vec<(String, Json)>)
    ensures
        Json::Object(v).view() == JsonV::Object(entries_view(v@)),
{
    assert(Json::Object(v).view()->Object_0 =~= entries_view(v@));
}

/// The values of a list of documents.
pub open spec fn items_view(v: Seq<Json>) -> Seq<JsonV> {
    Seq::new(v.len(), |i: int| v[i].view())
}

/// The view of an array is the view of its items, one by one.
pub proof fn lemma_items_view(v: Vec<Json>)
    ensures
        Json::Array(v).view() == JsonV::Array(items_view(v@)),
{
    assert(Json::Array(v).view()->Array_0 =~= items_view(v@));
}

/// The value of an optional document.
pub open spec fn opt_view(o: Option<Json>) -> Option<JsonV> {
    match o {
        Some(j) => Some(j.view()),
        None => None,
    }
}

/// A copy of an optional document with the same value.
pub fn clone_opt_json(o: &Option<Json>) -> (r: Option<Json>)
    ensures
        opt_view(r) == opt_view(*o),
{
    match o {
        Some(j) => Some(j.cloned()),
        None => None,
    }
}

/// A copy of the entries of an object with the same keys and values.
pub fn clone_entries(v: &Vec<(String, Json)>) -> (r: Vec<(String, Json)>)
    ensures
        entries_view(r@) == entries_view(v@),
{
    let mut out: Vec<(String, Json)> = Vec::new();
    let mut i: usize = 0;
    while i < v.len()
        invariant
            i <= v@.len(),
            entries_view(out@) == entries_view(v@).take(i as int),
        decreases v@.len() - i,
    {
        let ghost before = entries_view(out@);
        out.push((v[i].0.clone(), v[i].1.cloned()));
        proof {
            assert(entries_view(out@) =~= before.push(entries_view(v@)[i as int]));
            assert(entries_view(v@).take(i + 1) =~= entries_view(v@).take(i as int).push(entries_view(v@)[i as int]));
        }
        i = i + 1;
    }
    proof {
        assert(entries_view(v@).take(i as int) =~= entries_view(v@));
    }
    out
}

/// Sets `key` to `value` among the entries of an object.
fn object_set(entries: &mut Vec<(String, Json)>, key: String, value: Json)
    ensures
        entries_view(final(entries)@) == obj_set(entries_view(old(entries)@), key@, value.view()),
{
    let ghost ev = entries_view(entries@);
    let mut i: usize = 0;
    while i < entries.len()
        invariant
            i <= entries@.len(),
            ev == entries_view(entries@),
            entries@ == old(entries)@,
            forall|j: int| 0 <= j < i ==> ev[j].0 != key@,
        decreases entries@.len() - i,
    {
        if entries[i].0 == key {
            proof {
                assert(ev[i as int].0 == entries@[i as int].0@);
                lemma_obj_key_index_found(ev, key@, i as int);
            }
            let ghost kv = key@;
            let ghost vv = value.view();
            entries.set(i, (key, value));
            proof {
                assert(entries_view(entries@) =~= ev.update(i as int, (kv, vv)));
            }
            return ;
        }
        i = i + 1;
    }
    proof {
        lemma_obj_key_index_absent(ev, key@);
    }
    let ghost kv = key@;
    let ghost vv = value.view();
    entries.push((key, value));
    proof {
        assert(entries_view(entries@) =~= ev.push((kv, vv)));
    }
}

/// Copies every entry of the object `src` into the object `dest`, replacing
/// the values of keys that `dest` already holds.
///
/// Fails with `RootMustBeObjectError`, and leaves `dest` as it was, when either
/// document is not an object.
pub fn update_serde_map_with(dest: &mut Json, src: &Json) -> (r: Result<(), UtilError>)
    ensures
        match (old(dest).view(), src.view()) {
            (JsonV::Object(d), JsonV::Object(s)) => r is Ok && final(dest).view() == JsonV::Object(
                obj_merge(d, s),
            ),
            _ => r == Err::<(), UtilError>(UtilError::RootMustBeObjectError) && final(dest).view()
                == old(dest).view(),
        },
{
    match (dest, src) {
        (Json::Object(d), Json::Object(s)) => {
            proof {
                lemma_entries_view(*d);
                lemma_entries_view(*s);
            }
            let ghost d0 = entries_view(d@);
            let ghost s0 = entries_view(s@);
            let mut i: usize = 0;
            assert(s0.skip(0) =~= s0);
            while i < s.len()
                invariant
                    i <= s@.len(),
                    s0 == entries_view(s@),
                    obj_merge(d0, s0) == obj_merge(entries_view(d@), s0.skip(i as int)),
                decreases s@.len() - i,
            {
                let k = s[i].0.clone();
                let v = s[i].1.cloned();
                let ghost before = entries_view(d@);
                object_set(d, k, v);
                proof {
                    let rest = s0.skip(i as int);
                    assert(rest[0] == s0[i as int]);
                    assert(rest.drop_first() =~= s0.skip(i + 1));
                }
                i = i + 1;
            }
            proof {
                assert(s0.skip(s@.len() as int) =~= Seq::<(Seq<char>, JsonV)>::empty());
                lemma_entries_view(*d);
            }
            Ok(())
        },
        _ => Err(UtilError::RootMustBeObjectError),
    }
}

/// What the JSON library reads from a text: the document, or `None` when the
/// text is not JSON.
pub uninterp spec fn json_parse(text: Seq<char>) -> Option<JsonV>;

/// What the JSON library writes for a document, in its compact form.
pub uninterp spec fn json_render(value: JsonV) -> Seq<char>;

#[verifier::external_type_specification]
#[verifier::external_body]
pub struct ExValue(serde_json::Value);

/// Converts a document of the JSON library into the library's own form, one
/// node for one node.
#[verifier::external_body]
fn json_from_value(v: &serde_json::Value) -> Json {
    match v {
        serde_json::Value::Null => Json::Null,
        serde_json::Value::Bool(b) => Json::Bool(*b),
        serde_json::Value::Number(n) => Json::Number(n.to_string()),
        serde_json::Value::String(s) => Json::Str(s.clone()),
        serde_json::Value::Array(a) => Json::Array(a.iter().map(json_from_value).collect()),
        serde_json::Value::Object(m) => Json::Object(
            m.iter().map(|(k, x)| (k.clone(), json_from_value(x))).collect(),
        ),
    }
}

/// Converts a document of the library into the JSON library's form, one node
/// for one node; a number that the JSON library does not read becomes null.
#[verifier::external_body]
fn json_to_value(j: &Json) -> serde_json::Value {
    match j {
        Json::Null => serde_json::Value::Null,
        Json::Bool(b) => serde_json::Value::Bool(*b),
        Json::Number(n) => serde_json::from_str(n).unwrap_or(serde_json::Value::Null),
        Json::Str(s) => serde_json::Value::String(s.clone()),
        Json::Array(a) => serde_json::Value::Array(a.iter().map(json_to_value).collect()),
        Json::Object(m) => serde_json::Value::Object(
            m.iter().map(|(k, x)| (k.clone(), json_to_value(x))).collect(),
        ),
    }
}

/// Reads a JSON document from `text` with `serde_json::from_str`.
///
/// Trusted: the contract claims only that the outcome is the JSON library's
/// reading of the text, named `json_parse`.
#[verifier::external_body]
pub fn parse_json(text: &str) -> (r: Option<Json>)
    ensures
        r is Some == json_parse(text@) is Some,
        r matches Some(j) ==> j.view() == json_parse(text@)->0,
{
    match serde_json::from_str::<serde_json::Value>(text) {
        Ok(v) => Some(json_from_value(&v)),
        Err(_) => None,
    }
}

/// Writes a document as compact JSON text with `serde_json::to_string`.
///
/// Trusted: the contract claims only that the text is the JSON library's
/// rendering of the document, named `json_render`.
#[verifier::external_body]
pub fn render_json(value: &Json) -> (r: String)
    ensures
        r@ == json_render(value.view()),
{
    serde_json::to_string(&json_to_value(value)).unwrap_or_default()
}

} // verus!
