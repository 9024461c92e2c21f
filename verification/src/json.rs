//! The JSON value model that every collection stores.
//!
//! Collections are schema-less by design: records are opaque trees except for
//! the few string fields the core reads (`id`, `drawerSide`, `hotkey`,
//! `message`). `JsonValue` is the executable tree; `Json` is its mathematical
//! shape, used by every contract.

use vstd::prelude::*;

verus! {

broadcast use vstd::std_specs::vec::group_vec_axioms;

/// The mathematical shape of a JSON document: what a `JsonValue` denotes.
#[verifier::ext_equal]
pub enum Json {
    Null,
    Bool(bool),
    Int(int),
    Str(Seq<char>),
    Arr(Seq<Json>),
    Obj(Seq<(Seq<char>, Json)>),
}

/// A JSON document tree. Numbers are integral: the core never computes with
/// document numbers, and integral numbers are all the collections hold.
#[derive(Debug, PartialEq, Eq)]
pub enum JsonValue {
    Null,
    Bool(bool),
    Int(i64),
    Str(String),
    Arr(Vec<JsonValue>),
    Obj(Vec<(String, JsonValue)>),
}

/// The denotation of one value; mutually recursive with `vals` and
/// `field_views` below.
pub open spec fn json_view(v: JsonValue) -> Json
    decreases v,
{
    match v {
        JsonValue::Null => Json::Null,
        JsonValue::Bool(b) => Json::Bool(b),
        JsonValue::Int(i) => Json::Int(i as int),
        JsonValue::Str(s) => Json::Str(s@),
        JsonValue::Arr(items) => Json::Arr(vals(items@)),
        JsonValue::Obj(fields) => Json::Obj(field_views(fields@)),
    }
}

/// The denotations of a sequence of values, element by element.
pub open spec fn vals(s: Seq<JsonValue>) -> Seq<Json>
    decreases s,
{
    if s.len() == 0 {
        Seq::empty()
    } else {
        seq![json_view(s[0])] + vals(s.drop_first())
    }
}

/// The denotations of a sequence of fields, pair by pair.
pub open spec fn field_views(s: Seq<(String, JsonValue)>) -> Seq<(Seq<char>, Json)>
    decreases s,
{
    if s.len() == 0 {
        Seq::empty()
    } else {
        seq![(s[0].0@, json_view(s[0].1))] + field_views(s.drop_first())
    }
}

/// Element-by-element characterization of `vals`.
pub broadcast proof fn lemma_vals_index(s: Seq<JsonValue>)
    ensures
        (#[trigger] vals(s)).len() == s.len(),
        forall|i: int| 0 <= i < s.len() ==> #[trigger] vals(s)[i] == json_view(s[i]),
    decreases s.len(),
{
    if s.len() > 0 {
        lemma_vals_index(s.drop_first());
    }
}

/// Element-by-element characterization of `field_views`.
pub broadcast proof fn lemma_field_views_index(s: Seq<(String, JsonValue)>)
    ensures
        (#[trigger] field_views(s)).len() == s.len(),
        forall|i: int| 0 <= i < s.len() ==> #[trigger] field_views(s)[i] == (
            s[i].0@,
            json_view(s[i].1),
        ),
    decreases s.len(),
{
    if s.len() > 0 {
        lemma_field_views_index(s.drop_first());
    }
}

impl View for JsonValue {
    type V = Json;

    #[verifier::inline]
    open spec fn view(&self) -> Json {
        json_view(*self)
    }
}

/// The value of the first field named `name`, if any.
pub open spec fn field_of(fields: Seq<(Seq<char>, Json)>, name: Seq<char>) -> Option<Json>
    decreases fields.len(),
{
    if fields.len() == 0 {
        None
    } else if fields[0].0 == name {
        Some(fields[0].1)
    } else {
        field_of(fields.drop_first(), name)
    }
}

/// The value of field `name` of `j`, when `j` is an object that has it.
pub open spec fn json_field(j: Json, name: Seq<char>) -> Option<Json> {
    match j {
        Json::Obj(fields) => field_of(fields, name),
        _ => None,
    }
}

/// The string content of field `name` of `j`, when the field is a string.
pub open spec fn str_field(j: Json, name: Seq<char>) -> Option<Seq<char>> {
    match json_field(j, name) {
        Some(Json::Str(s)) => Some(s),
        _ => None,
    }
}

/// Whether `r` is an object whose `id` field is the string `id`.
pub open spec fn has_id(r: Json, id: Seq<char>) -> bool {
    str_field(r, "id"@) == Some(id)
}

proof fn lemma_field_of_skip(fields: Seq<(Seq<char>, Json)>, name: Seq<char>, i: int)
    requires
        0 <= i <= fields.len(),
        forall|j: int| 0 <= j < i ==> fields[j].0 != name,
    ensures
        field_of(fields, name) == field_of(fields.skip(i), name),
    decreases i,
{
    if i > 0 {
        lemma_field_of_skip(fields, name, i - 1);
        assert(fields.skip(i - 1).drop_first() =~= fields.skip(i));
        assert(fields.skip(i - 1)[0] == fields[i - 1]);
    } else {
        assert(fields.skip(0) =~= fields);
    }
}

impl JsonValue {
    /// A reference to the first field named `name`, when `self` is an object
    /// that has one; `None` otherwise.
    pub fn get_field<'a>(&'a self, name: &String) -> (r: Option<&'a JsonValue>)
        ensures
            match r {
                Some(v) => json_field(self@, name@) == Some(v@),
                None => json_field(self@, name@) is None,
            },
    {
        match self {
            JsonValue::Obj(fields) => {
                let ghost fvs = field_views(fields@);
                proof {
                    lemma_field_views_index(fields@);
                }
                let n = fields.len();
                for i in 0..n
                    invariant
                        n == fields.len(),
                        fvs == field_views(fields@),
                        self@ == Json::Obj(fvs),
                        forall|j: int| 0 <= j < i ==> fvs[j].0 != name@,
                {
                    proof {
                        lemma_field_views_index(fields@);
                    }
                    if fields[i].0 == *name {
                        proof {
                            lemma_field_of_skip(fvs, name@, i as int);
                            assert(fvs.skip(i as int)[0] == fvs[i as int]);
                        }
                        return Some(&fields[i].1);
                    }
                }
                proof {
                    lemma_field_views_index(fields@);
                    lemma_field_of_skip(fvs, name@, n as int);
                    assert(fvs.skip(n as int) =~= Seq::<(Seq<char>, Json)>::empty());
                }
                None
            },
            _ => None,
        }
    }

    /// The string inside `self`, when `self` is a string value.
    pub fn as_str(&self) -> (r: Option<&String>)
        ensures
            match r {
                Some(s) => self@ == Json::Str(s@),
                None => !(self@ is Str),
            },
    {
        match self {
            JsonValue::Str(s) => Some(s),
            _ => None,
        }
    }

    /// A structurally equal copy of the whole tree.
    #[verifier::loop_isolation(false)]
    pub fn deep_copy(&self) -> (r: JsonValue)
        ensures
            r@ == self@,
        decreases self,
    {
        match self {
            JsonValue::Null => JsonValue::Null,
            JsonValue::Bool(b) => JsonValue::Bool(*b),
            JsonValue::Int(i) => JsonValue::Int(*i),
            JsonValue::Str(s) => JsonValue::Str(s.clone()),
            JsonValue::Arr(items) => {
                let mut out: Vec<JsonValue> = Vec::new();
                let n = items.len();
                for i in 0..n
                    invariant
                        n == items.len(),
                        out@.len() == i,
                        forall|j: int| 0 <= j < i ==> out@[j]@ == items@[j]@,
                    decreases n - i,
                {
                    proof {
                        assert(*self == JsonValue::Arr(*items));
                        assert(decreases_to!(JsonValue::Arr(*items) => *items));
                        assert(decreases_to!(*items => items@[i as int]));
                    }
                    out.push(items[i].deep_copy());
                }
                let r = JsonValue::Arr(out);
                proof {
                    lemma_vals_index(out@);
                    lemma_vals_index(items@);
                    assert(vals(out@) =~= vals(items@));
                }
                r
            },
            JsonValue::Obj(fields) => {
                let mut out: Vec<(String, JsonValue)> = Vec::new();
                let n = fields.len();
                for i in 0..n
                    invariant
                        n == fields.len(),
                        out@.len() == i,
                        forall|j: int| 0 <= j < i ==> out@[j].0@ == fields@[j].0@
                            && out@[j].1@ == fields@[j].1@,
                    decreases n - i,
                {
                    proof {
                        assert(*self == JsonValue::Obj(*fields));
                        assert(decreases_to!(JsonValue::Obj(*fields) => *fields));
                        assert(decreases_to!(*fields => fields@[i as int]));
                        assert(decreases_to!(fields@[i as int] => fields@[i as int].1));
                    }
                    let key = fields[i].0.clone();
                    let val = fields[i].1.deep_copy();
                    out.push((key, val));
                }
                let r = JsonValue::Obj(out);
                proof {
                    lemma_field_views_index(out@);
                    lemma_field_views_index(fields@);
                    assert(field_views(out@) =~= field_views(fields@));
                }
                r
            },
        }
    }
}

/// An element-wise copy of a sequence of values.
pub fn deep_copy_all(items: &Vec<JsonValue>) -> (r: Vec<JsonValue>)
    ensures
        vals(r@) == vals(items@),
{
    let mut out: Vec<JsonValue> = Vec::new();
    let n = items.len();
    for i in 0..n
        invariant
            n == items.len(),
            out@.len() == i,
            forall|j: int| 0 <= j < i ==> out@[j]@ == items@[j]@,
        decreases n - i,
    {
        out.push(items[i].deep_copy());
    }
    proof {
        lemma_vals_index(out@);
        lemma_vals_index(items@);
        assert(vals(out@) =~= vals(items@));
    }
    out
}

} // verus!
