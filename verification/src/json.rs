//! JSON documents, and what they stand for.

use vstd::prelude::*;

use crate::assoc::{
    has_key, key_index, keys_ascend, lemma_insert, lemma_key_index, lemma_remove, lemma_update,
    locate, map_by,
};
use crate::string_map::StringMap;
use crate::text::str_eq;

verus! {

/// What a JSON document stands for.
#[verifier::ext_equal]
pub enum Json {
    Null,
    Bool(bool),
    /// An integer.
    Int(int),
    /// A number that is no integer, by the text that it is written with.
    Decimal(Seq<char>),
    Text(Seq<char>),
    Array(Seq<Json>),
    Object(Map<Seq<char>, Json>),
}

/// A JSON document.
#[derive(Debug)]
pub enum Value {
    Null,
    Bool(bool),
    /// An integer.
    Int(i64),
    /// A number that is no integer, by the text that it is written with.
    Decimal(String),
    Text(String),
    Array(Vec<Value>),
    Object(Object),
}

/// The fields of a JSON object, held in the order of their names.
#[derive(Debug)]
pub struct Object {
    entries: Vec<(String, Value)>,
}

/// What each document of a sequence stands for.
pub open spec fn jsons(s: Seq<Value>) -> Seq<Json> {
    Seq::new(s.len(), |i: int| s[i]@)
}

/// The texts as JSON.
pub open spec fn text_array(s: Seq<Seq<char>>) -> Json {
    Json::Array(Seq::new(s.len(), |i: int| Json::Text(s[i])))
}

/// The string map as a JSON object.
pub open spec fn text_object(m: Map<Seq<char>, Seq<char>>) -> Json {
    Json::Object(m.map_values(|s: Seq<char>| Json::Text(s)))
}

/// The fields with one more, where there is a value for it.
pub open spec fn with_field(
    fields: Map<Seq<char>, Json>,
    name: Seq<char>,
    value: Option<Json>,
) -> Map<Seq<char>, Json> {
    match value {
        Some(v) => fields.insert(name, v),
        None => fields,
    }
}

/// No fields.
pub open spec fn no_fields() -> Map<Seq<char>, Json> {
    Map::empty()
}

/// What an optional document stands for.
pub open spec fn opt_json(v: Option<Value>) -> Option<Json> {
    match v {
        Some(v) => Some(v@),
        None => None,
    }
}

/// A field of a JSON object.
pub open spec fn field(v: Json, name: Seq<char>) -> Option<Json> {
    match v {
        Json::Object(m) => if m.contains_key(name) {
            Some(m[name])
        } else {
            None
        },
        _ => None,
    }
}

/// A field of a document, where there is one.
pub open spec fn inner(v: Option<Json>, name: Seq<char>) -> Option<Json> {
    match v {
        Some(v) => field(v, name),
        None => None,
    }
}

/// A field of a field.
pub open spec fn at2(v: Json, a: Seq<char>, b: Seq<char>) -> Option<Json> {
    inner(field(v, a), b)
}

/// A field of a field of a field.
pub open spec fn at3(v: Json, a: Seq<char>, b: Seq<char>, c: Seq<char>) -> Option<Json> {
    inner(at2(v, a, b), c)
}

/// A field, four levels down.
pub open spec fn at4(v: Json, a: Seq<char>, b: Seq<char>, c: Seq<char>, d: Seq<char>) -> Option<
    Json,
> {
    inner(at3(v, a, b, c), d)
}

/// A field, five levels down.
pub open spec fn at5(
    v: Json,
    a: Seq<char>,
    b: Seq<char>,
    c: Seq<char>,
    d: Seq<char>,
    e: Seq<char>,
) -> Option<Json> {
    inner(at4(v, a, b, c, d), e)
}

/// The items of an array, none where it is no array.
pub open spec fn items(v: Option<Json>) -> Seq<Json> {
    match v {
        Some(Json::Array(s)) => s,
        _ => Seq::empty(),
    }
}

/// An array stands for what its items stand for.
pub broadcast proof fn array_view(items: Vec<Value>)
    ensures
        #[trigger] Value::Array(items).view() == Json::Array(jsons(items@)),
{
    assert(Value::Array(items).view()->Array_0 =~= jsons(items@));
}

impl Object {
    #[verifier::type_invariant]
    closed spec fn ordered(self) -> bool {
        keys_ascend(self.entries@)
    }

    /// The fields by their names.
    pub closed spec fn view(&self) -> Map<Seq<char>, Json>
        decreases *self,
    {
        Map::new(
            |k: Seq<char>| has_key(self.entries@, k),
            |k: Seq<char>|
                if has_key(self.entries@, k) {
                    self.entries@[key_index(self.entries@, k)].1.view()
                } else {
                    Json::Null
                },
        )
    }

    /// How many fields there are.
    pub closed spec fn size(&self) -> nat {
        self.entries@.len()
    }

    /// The name of the field at a place in the order of the names.
    pub closed spec fn name_at(&self, i: int) -> Seq<char> {
        self.entries@[i].0@
    }

    proof fn lemma_view(&self)
        ensures
            self@ == map_by(self.entries@, |v: Value| v@),
    {
        let f = |v: Value| v@;
        assert(self@ =~= map_by(self.entries@, f));
    }

    /// No fields.
    pub fn new() -> (r: Object)
        ensures
            r@ == no_fields(),
    {
        let r = Object { entries: Vec::new() };
        proof {
            assert(r@ =~= no_fields());
        }
        r
    }

    fn take(&mut self) -> (r: Object)
        ensures
            r == *old(self),
            final(self)@ == no_fields(),
    {
        let mut taken = Object::new();
        core::mem::swap(self, &mut taken);
        taken
    }

    /// How many fields there are.
    pub fn len(&self) -> (r: usize)
        ensures
            r == self.size(),
            (r == 0) == (self@ == no_fields()),
            forall|i: int| 0 <= i < r ==> self@.contains_key(#[trigger] self.name_at(i)),
            forall|i: int, j: int|
                0 <= i < j < r ==> #[trigger] self.name_at(i) != #[trigger] self.name_at(j),
            forall|k: Seq<char>| #[trigger]
                self@.contains_key(k) ==> exists|i: int| 0 <= i < r && #[trigger] self.name_at(i) == k,
    {
        proof {
            use_type_invariant(self);
            if self.entries@.len() == 0 {
                assert(self@ =~= no_fields());
            } else {
                assert(has_key(self.entries@, self.entries@[0].0@));
                assert(self@.dom().contains(self.entries@[0].0@));
            }
            assert forall|i: int| 0 <= i < self.entries@.len() implies self@.contains_key(
                #[trigger] self.name_at(i),
            ) by {
                lemma_key_index(self.entries@, i);
            }
            assert forall|i: int, j: int| 0 <= i < j < self.entries@.len() implies #[trigger]
            self.name_at(i) != #[trigger] self.name_at(j) by {
                lemma_key_index(self.entries@, i);
                lemma_key_index(self.entries@, j);
            }
            assert forall|k: Seq<char>| #[trigger] self@.contains_key(k) implies exists|i: int|
                0 <= i < self.entries@.len() && #[trigger] self.name_at(i) == k by {
                assert(self.name_at(key_index(self.entries@, k)) == k);
            }
        }
        self.entries.len()
    }

    /// The field at a place in the order of the names.
    pub fn entry(&self, i: usize) -> (r: (&String, &Value))
        requires
            i < self.size(),
        ensures
            r.0@ == self.name_at(i as int),
            self@.contains_key(r.0@),
            self@[r.0@] == r.1@,
            decreases_to!(*self => *r.1),
    {
        proof {
            use_type_invariant(self);
            lemma_key_index(self.entries@, i as int);
        }
        let e = &self.entries[i];
        proof {
            assert(decreases_to!(self.entries => self.entries@));
            assert(decreases_to!(self.entries@ => self.entries@[i as int]));
        }
        (&e.0, &e.1)
    }

    /// The value of a field.
    pub fn get(&self, name: &str) -> (r: Option<&Value>)
        ensures
            r is Some == self@.contains_key(name@),
            r is Some ==> r->0@ == self@[name@],
    {
        proof {
            use_type_invariant(self);
        }
        let (found, at) = locate(&self.entries, name);
        if found {
            Some(&self.entries[at].1)
        } else {
            None
        }
    }

    /// Sets a field.
    pub fn insert(&mut self, name: String, value: Value)
        ensures
            final(self)@ == old(self)@.insert(name@, value@),
    {
        let taken = self.take();
        proof {
            use_type_invariant(&taken);
            taken.lemma_view();
        }
        let mut entries: Vec<(String, Value)> = taken.entries;
        let (found, at) = locate(&entries, name.as_str());
        if found {
            proof {
                lemma_update(entries@, name, value, at as int, |v: Value| v@);
            }
            entries.set(at, (name, value));
        } else {
            proof {
                lemma_insert(entries@, name, value, at as int, |v: Value| v@);
            }
            entries.insert(at, (name, value));
        }
        *self = Object { entries };
        proof {
            self.lemma_view();
        }
    }

    /// Sets a field.
    pub fn put(&mut self, name: &str, value: Value)
        ensures
            final(self)@ == old(self)@.insert(name@, value@),
    {
        self.insert(name.to_owned(), value);
    }

    /// Sets a field to a text.
    pub fn put_text(&mut self, name: &str, value: &str)
        ensures
            final(self)@ == old(self)@.insert(name@, Json::Text(value@)),
    {
        self.insert(name.to_owned(), Value::Text(value.to_owned()));
    }

    /// Sets a field, where there is a value for it.
    pub fn put_opt(&mut self, name: &str, value: Option<Value>)
        ensures
            final(self)@ == with_field(old(self)@, name@, opt_json(value)),
    {
        match value {
            Some(v) => {
                self.put(name, v);
            },
            None => {},
        }
    }

    /// Takes a field out.
    pub fn remove(&mut self, name: &str) -> (r: Option<Value>)
        ensures
            final(self)@ == old(self)@.remove(name@),
            r is Some == old(self)@.contains_key(name@),
            r is Some ==> r->0@ == old(self)@[name@],
    {
        let taken = self.take();
        proof {
            use_type_invariant(&taken);
            taken.lemma_view();
        }
        let mut entries: Vec<(String, Value)> = taken.entries;
        let (found, at) = locate(&entries, name);
        if found {
            proof {
                lemma_remove(entries@, name@, at as int, |v: Value| v@);
            }
            let e = entries.remove(at);
            *self = Object { entries };
            proof {
                self.lemma_view();
            }
            Some(e.1)
        } else {
            *self = Object { entries };
            proof {
                self.lemma_view();
                assert(self@ =~= taken@.remove(name@));
            }
            None
        }
    }

    /// An object with the same fields.
    pub fn duplicate(&self) -> (r: Object)
        ensures
            r@ == self@,
        decreases *self,
    {
        let n: usize = self.len();
        let mut r = Object::new();
        let mut i: usize = 0;
        while i < n
            invariant
                i <= n,
                n == self.size(),
                forall|k: Seq<char>| #[trigger]
                    r@.contains_key(k) <==> exists|j: int| 0 <= j < i && #[trigger] self.name_at(j) == k,
                forall|k: Seq<char>| #[trigger]
                    r@.contains_key(k) ==> self@.contains_key(k) && r@[k] == self@[k],
            decreases n - i,
        {
            let (k, v) = self.entry(i);
            r.insert(k.clone(), v.duplicate());
            i = i + 1;
        }
        proof {
            assert(r@ =~= self@);
        }
        r
    }

    /// Whether two objects have the same fields.
    pub fn same(&self, other: &Object) -> (r: bool)
        ensures
            r == (self@ == other@),
        decreases *self,
    {
        let n: usize = self.len();
        let m: usize = other.len();
        let mut i: usize = 0;
        while i < n
            invariant
                i <= n,
                n == self.size(),
                forall|j: int|
                    0 <= j < i ==> other@.contains_key(#[trigger] self.name_at(j))
                        && other@[self.name_at(j)] == self@[self.name_at(j)],
            decreases n - i,
        {
            let (k, v) = self.entry(i);
            match other.get(k.as_str()) {
                None => {
                    return false;
                },
                Some(w) => {
                    if !v.same(w) {
                        return false;
                    }
                },
            }
            i = i + 1;
        }
        i = 0;
        while i < m
            invariant
                i <= m,
                m == other.size(),
                forall|j: int| 0 <= j < i ==> self@.contains_key(#[trigger] other.name_at(j)),
            decreases m - i,
        {
            let (k, v) = other.entry(i);
            match self.get(k.as_str()) {
                None => {
                    return false;
                },
                Some(_) => {},
            }
            i = i + 1;
        }
        proof {
            assert(self@ =~= other@);
        }
        true
    }
}

impl Value {
    /// What the document stands for.
    pub open spec fn view(&self) -> Json
        decreases *self,
    {
        match *self {
            Value::Null => Json::Null,
            Value::Bool(b) => Json::Bool(b),
            Value::Int(i) => Json::Int(i as int),
            Value::Decimal(s) => Json::Decimal(s@),
            Value::Text(s) => Json::Text(s@),
            Value::Array(items) => Json::Array(
                Seq::new(
                    items@.len(),
                    |i: int|
                        if 0 <= i < items@.len() {
                            items@[i].view()
                        } else {
                            Json::Null
                        },
                ),
            ),
            Value::Object(fields) => Json::Object(fields.view()),
        }
    }

    /// A text.
    pub fn text(s: &str) -> (r: Value)
        ensures
            r@ == Json::Text(s@),
    {
        Value::Text(s.to_owned())
    }

    /// An array of documents.
    pub fn array(items: Vec<Value>) -> (r: Value)
        ensures
            r@ == Json::Array(jsons(items@)),
    {
        let r = Value::Array(items);
        proof {
            assert(r@->Array_0 =~= jsons(items@));
        }
        r
    }

    /// An array of one document.
    pub fn singleton(item: Value) -> (r: Value)
        ensures
            r@ == Json::Array(seq![item@]),
    {
        let mut items: Vec<Value> = Vec::new();
        items.push(item);
        let r = Value::Array(items);
        proof {
            assert(r@->Array_0 =~= seq![item@]);
        }
        r
    }

    /// An array of texts.
    pub fn texts(items: &Vec<String>) -> (r: Value)
        ensures
            r@ == text_array(crate::text::texts(items@)),
    {
        let mut out: Vec<Value> = Vec::new();
        let mut i: usize = 0;
        while i < items.len()
            invariant
                i <= items.len(),
                out@.len() == i,
                forall|j: int| 0 <= j < i ==> (#[trigger] out@[j])@ == Json::Text(items@[j]@),
            decreases items.len() - i,
        {
            out.push(Value::text(items[i].as_str()));
            i = i + 1;
        }
        let r = Value::Array(out);
        proof {
            assert(r@->Array_0 =~= text_array(crate::text::texts(items@))->Array_0);
        }
        r
    }

    /// A map of texts as an object.
    pub fn labels(map: &StringMap) -> (r: Value)
        ensures
            r@ == text_object(map@),
    {
        let n: usize = map.len();
        let mut out = Object::new();
        let mut i: usize = 0;
        while i < n
            invariant
                i <= n,
                n == map.pairs().len(),
                crate::string_map::lists(map.pairs(), map@),
                forall|k: Seq<char>| #[trigger]
                    out@.contains_key(k) <==> exists|j: int|
                        0 <= j < i && (#[trigger] map.pairs()[j]).0 == k,
                forall|k: Seq<char>| #[trigger]
                    out@.contains_key(k) ==> map@.contains_key(k) && out@[k] == Json::Text(map@[k]),
            decreases n - i,
        {
            let (k, v) = map.entry(i);
            out.insert(k.clone(), Value::text(v.as_str()));
            i = i + 1;
        }
        proof {
            assert forall|k: Seq<char>| #[trigger] map@.contains_key(k) implies out@.contains_key(
                k,
            ) by {
                let j = choose|j: int|
                    0 <= j < map.pairs().len() && #[trigger] map.pairs()[j] == (k, map@[k]);
                assert(map.pairs()[j].0 == k);
            }
            assert(out@ =~= text_object(map@)->Object_0);
        }
        Value::Object(out)
    }

    /// The field of an object.
    pub fn get(&self, name: &str) -> (r: Option<&Value>)
        ensures
            r is Some == field(self@, name@) is Some,
            r is Some ==> r->0@ == field(self@, name@)->0,
    {
        match self {
            Value::Object(o) => o.get(name),
            _ => None,
        }
    }

    /// The same document once more.
    pub fn duplicate(&self) -> (r: Value)
        ensures
            r@ == self@,
        decreases *self,
    {
        match self {
            Value::Null => Value::Null,
            Value::Bool(b) => Value::Bool(*b),
            Value::Int(i) => Value::Int(*i),
            Value::Decimal(s) => Value::Decimal(s.clone()),
            Value::Text(s) => Value::Text(s.clone()),
            Value::Array(items) => {
                let mut out: Vec<Value> = Vec::new();
                let mut i: usize = 0;
                while i < items.len()
                    invariant
                        i <= items.len(),
                        *self is Array,
                        self->Array_0 == *items,
                        out@.len() == i,
                        forall|j: int| 0 <= j < i ==> (#[trigger] out@[j])@ == items@[j]@,
                    decreases items.len() - i,
                {
                    proof {
                        assert(decreases_to!(*self => self->Array_0));
                        assert(decreases_to!(*items => items@));
                        assert(decreases_to!(items@ => items@[i as int]));
                    }
                    out.push(items[i].duplicate());
                    i = i + 1;
                }
                let r = Value::Array(out);
                proof {
                    assert(r@->Array_0 =~= self@->Array_0);
                }
                r
            },
            Value::Object(o) => Value::Object(o.duplicate()),
        }
    }

    /// Whether two documents stand for the same.
    pub fn same(&self, other: &Value) -> (r: bool)
        ensures
            r == (self@ == other@),
        decreases *self,
    {
        match (self, other) {
            (Value::Null, Value::Null) => true,
            (Value::Bool(a), Value::Bool(b)) => *a == *b,
            (Value::Int(a), Value::Int(b)) => *a == *b,
            (Value::Decimal(a), Value::Decimal(b)) => str_eq(a.as_str(), b.as_str()),
            (Value::Text(a), Value::Text(b)) => str_eq(a.as_str(), b.as_str()),
            (Value::Array(a), Value::Array(b)) => {
                if a.len() != b.len() {
                    proof {
                        assert(self@->Array_0.len() != other@->Array_0.len());
                    }
                    return false;
                }
                let mut i: usize = 0;
                while i < a.len()
                    invariant
                        i <= a.len(),
                        a.len() == b.len(),
                        *self == Value::Array(*a),
                        *other == Value::Array(*b),
                        forall|j: int| 0 <= j < i ==> (#[trigger] a@[j])@ == b@[j]@,
                    decreases a.len() - i,
                {
                    proof {
                        assert(decreases_to!(a => a@));
                        assert(decreases_to!(a@ => a@[i as int]));
                    }
                    if !a[i].same(&b[i]) {
                        proof {
                            assert(self@->Array_0[i as int] != other@->Array_0[i as int]);
                        }
                        return false;
                    }
                    i = i + 1;
                }
                proof {
                    assert(self@->Array_0 =~= other@->Array_0);
                }
                true
            },
            (Value::Object(a), Value::Object(b)) => a.same(b),
            _ => false,
        }
    }
}

} // verus!
