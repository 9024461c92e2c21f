//! The document store: one `Collection` per name, each a cache of keyed JSON
//! values that is flushed to its backing file as a whole document.
//!
//! The store itself never touches a file: `to_document` yields the document
//! that the host writes (to a temporary file renamed into place), and
//! `from_document` rebuilds a collection from whatever the host read back.
//! A missing or corrupt file maps to `from_document` of a non-object, which
//! yields an empty collection: absent local data is never an error.

use vstd::prelude::*;

use crate::json::field_views;
use crate::json::has_id;
use crate::json::json_view;
use crate::json::vals;
use crate::json::Json;
use crate::json::JsonValue;
use crate::json::deep_copy_all;
use crate::json::lemma_field_views_index;
use crate::json::lemma_vals_index;

verus! {

broadcast use
    vstd::std_specs::vec::group_vec_axioms,
    vstd::string::group_string_axioms,
    crate::json::lemma_vals_index,
    crate::json::lemma_field_views_index,
;

/// What `get` returns: the cached value for the key, else the default.
pub open spec fn spec_get(m: Map<Seq<char>, Json>, key: Seq<char>, default: Json) -> Json {
    if m.contains_key(key) {
        m[key]
    } else {
        default
    }
}

/// What `list` returns: the array cached at the key, else the empty sequence.
pub open spec fn spec_list(m: Map<Seq<char>, Json>, key: Seq<char>) -> Seq<Json> {
    if m.contains_key(key) && m[key] is Arr {
        m[key]->Arr_0
    } else {
        Seq::empty()
    }
}

/// What `remove_by_id` keeps: every record except those whose `id` field is
/// the string `id`.
pub open spec fn remove_with_id(s: Seq<Json>, id: Seq<char>) -> Seq<Json>
    decreases s.len(),
{
    if s.len() == 0 {
        Seq::empty()
    } else if has_id(s[0], id) {
        remove_with_id(s.drop_first(), id)
    } else {
        seq![s[0]] + remove_with_id(s.drop_first(), id)
    }
}

/// The key-to-value map denoted by a sequence of entries; a later entry for
/// the same key wins.
pub open spec fn entry_map(s: Seq<(String, JsonValue)>) -> Map<Seq<char>, Json>
    decreases s.len(),
{
    if s.len() == 0 {
        Map::empty()
    } else {
        entry_map(s.drop_last()).insert(s.last().0@, json_view(s.last().1))
    }
}

/// The key-to-value map denoted by the fields of a JSON object; a later
/// field for the same key wins.
pub open spec fn field_map(fs: Seq<(Seq<char>, Json)>) -> Map<Seq<char>, Json>
    decreases fs.len(),
{
    if fs.len() == 0 {
        Map::empty()
    } else {
        field_map(fs.drop_last()).insert(fs.last().0, fs.last().1)
    }
}

/// What loading a persisted document yields: the object's fields as a map,
/// or the empty map when the document is missing or malformed.
pub open spec fn spec_load(doc: Json) -> Map<Seq<char>, Json> {
    match doc {
        Json::Obj(fs) => field_map(fs),
        _ => Map::empty(),
    }
}

/// No two entries share a key.
pub open spec fn unique_keys(s: Seq<(String, JsonValue)>) -> bool {
    forall|i: int, j: int| 0 <= i < j < s.len() ==> s[i].0@ != s[j].0@
}

proof fn lemma_entry_map_keys(s: Seq<(String, JsonValue)>, k: Seq<char>)
    ensures
        entry_map(s).contains_key(k) <==> exists|i: int| 0 <= i < s.len() && s[i].0@ == k,
    decreases s.len(),
{
    if s.len() > 0 {
        let prev = s.drop_last();
        lemma_entry_map_keys(prev, k);
        if entry_map(s).contains_key(k) {
            if s.last().0@ == k {
                assert(s[s.len() - 1].0@ == k);
            } else {
                let i = choose|i: int| 0 <= i < prev.len() && prev[i].0@ == k;
                assert(s[i].0@ == k);
            }
        }
        if exists|i: int| 0 <= i < s.len() && s[i].0@ == k {
            let i = choose|i: int| 0 <= i < s.len() && s[i].0@ == k;
            if i < s.len() - 1 {
                assert(prev[i].0@ == k);
            }
        }
    }
}

proof fn lemma_entry_map_lookup(s: Seq<(String, JsonValue)>, i: int)
    requires
        unique_keys(s),
        0 <= i < s.len(),
    ensures
        entry_map(s).contains_key(s[i].0@),
        entry_map(s)[s[i].0@] == json_view(s[i].1),
    decreases s.len(),
{
    if i < s.len() - 1 {
        let prev = s.drop_last();
        assert(unique_keys(prev));
        lemma_entry_map_lookup(prev, i);
        assert(s[i].0@ != s.last().0@);
    }
}

proof fn lemma_entry_map_update(s: Seq<(String, JsonValue)>, i: int, p: (String, JsonValue))
    requires
        unique_keys(s),
        0 <= i < s.len(),
        s[i].0@ == p.0@,
    ensures
        entry_map(s.update(i, p)) =~= entry_map(s).insert(p.0@, json_view(p.1)),
    decreases s.len(),
{
    let t = s.update(i, p);
    if i == s.len() - 1 {
        assert(t.drop_last() =~= s.drop_last());
        assert(t.last() == p);
    } else {
        assert(t.drop_last() =~= s.drop_last().update(i, p));
        assert(unique_keys(s.drop_last()));
        assert(s.drop_last()[i] == s[i]);
        lemma_entry_map_update(s.drop_last(), i, p);
        assert(t.last() == s.last());
        assert(s[i].0@ != s.last().0@);
    }
}

proof fn lemma_entry_map_push(s: Seq<(String, JsonValue)>, p: (String, JsonValue))
    ensures
        entry_map(s.push(p)) =~= entry_map(s).insert(p.0@, json_view(p.1)),
{
    assert(s.push(p).drop_last() =~= s);
    assert(s.push(p).last() == p);
}

proof fn lemma_field_map_of_views(s: Seq<(String, JsonValue)>)
    ensures
        field_map(field_views(s)) =~= entry_map(s),
    decreases s.len(),
{
    lemma_field_views_index(s);
    if s.len() > 0 {
        lemma_field_map_of_views(s.drop_last());
        lemma_field_views_index(s.drop_last());
        assert(field_views(s).drop_last() =~= field_views(s.drop_last()));
        assert(field_views(s).last() == (s.last().0@, json_view(s.last().1)));
    }
}

/// The seven public collections, each an independent namespace.
#[derive(Clone, Copy, Debug, PartialEq, Eq, Structural)]
pub enum CollectionId {
    Settings,
    Shortcuts,
    WindowLayouts,
    Conversations,
    ResearchNotes,
    Tasks,
    Notes,
}

impl CollectionId {
    /// The top-level key the collection's document holds.
    pub open spec fn key_spec(&self) -> Seq<char> {
        match self {
            CollectionId::Settings => "settings"@,
            CollectionId::Shortcuts => "shortcuts"@,
            CollectionId::WindowLayouts => "windowLayouts"@,
            CollectionId::Conversations => "conversations"@,
            CollectionId::ResearchNotes => "researchNotes"@,
            CollectionId::Tasks => "tasks"@,
            CollectionId::Notes => "notes"@,
        }
    }

    /// The backing file the collection is persisted to.
    pub open spec fn file_spec(&self) -> Seq<char> {
        match self {
            CollectionId::Settings => "settings.json"@,
            CollectionId::Shortcuts => "shortcuts.json"@,
            CollectionId::WindowLayouts => "layouts.json"@,
            CollectionId::Conversations => "conversations.json"@,
            CollectionId::ResearchNotes => "research.json"@,
            CollectionId::Tasks => "tasks.json"@,
            CollectionId::Notes => "notes.json"@,
        }
    }

    /// The top-level key, as a string.
    pub fn key(&self) -> (r: String)
        ensures
            r@ == self.key_spec(),
    {
        match self {
            CollectionId::Settings => "settings".to_string(),
            CollectionId::Shortcuts => "shortcuts".to_string(),
            CollectionId::WindowLayouts => "windowLayouts".to_string(),
            CollectionId::Conversations => "conversations".to_string(),
            CollectionId::ResearchNotes => "researchNotes".to_string(),
            CollectionId::Tasks => "tasks".to_string(),
            CollectionId::Notes => "notes".to_string(),
        }
    }

    /// The backing file's name, as a string.
    pub fn file_name(&self) -> (r: String)
        ensures
            r@ == self.file_spec(),
    {
        match self {
            CollectionId::Settings => "settings.json".to_string(),
            CollectionId::Shortcuts => "shortcuts.json".to_string(),
            CollectionId::WindowLayouts => "layouts.json".to_string(),
            CollectionId::Conversations => "conversations.json".to_string(),
            CollectionId::ResearchNotes => "research.json".to_string(),
            CollectionId::Tasks => "tasks.json".to_string(),
            CollectionId::Notes => "notes.json".to_string(),
        }
    }
}

/// A named collection: the in-memory cache of one backing file.
pub struct Collection {
    name: String,
    entries: Vec<(String, JsonValue)>,
}

impl View for Collection {
    type V = Map<Seq<char>, Json>;

    closed spec fn view(&self) -> Map<Seq<char>, Json> {
        entry_map(self.entries@)
    }
}

impl Collection {
    /// Internal invariant: the cache holds each key at most once.
    pub closed spec fn wf(&self) -> bool {
        unique_keys(self.entries@)
    }

    /// The collection's name.
    pub closed spec fn name_spec(&self) -> Seq<char> {
        self.name@
    }

    /// The document that `to_document` persists.
    pub closed spec fn doc_spec(&self) -> Json {
        Json::Obj(field_views(self.entries@))
    }

    /// An empty collection with the given name.
    pub fn new(name: String) -> (c: Collection)
        ensures
            c.wf(),
            c@ == Map::<Seq<char>, Json>::empty(),
            c.name_spec() == name@,
    {
        Collection { name, entries: Vec::new() }
    }

    pub fn name(&self) -> (r: &String)
        ensures
            r@ == self.name_spec(),
    {
        &self.name
    }

    /// The index of the entry for `key`, if the cache holds one.
    fn find(&self, key: &String) -> (r: Option<usize>)
        ensures
            match r {
                Some(i) => i < self.entries@.len() && self.entries@[i as int].0@ == key@,
                None => forall|j: int|
                    0 <= j < self.entries@.len() ==> self.entries@[j].0@ != key@,
            },
    {
        let n = self.entries.len();
        for i in 0..n
            invariant
                n == self.entries.len(),
                forall|j: int| 0 <= j < i ==> self.entries@[j].0@ != key@,
        {
            if self.entries[i].0 == *key {
                return Some(i);
            }
        }
        None
    }

    /// The cached value for `key`, or `default` when the key was never
    /// written. Never fails: absent data yields the default.
    pub fn get(&self, key: &String, default: &JsonValue) -> (r: JsonValue)
        requires
            self.wf(),
        ensures
            r@ == spec_get(self@, key@, default@),
    {
        match self.find(key) {
            Some(i) => {
                proof {
                    lemma_entry_map_lookup(self.entries@, i as int);
                }
                self.entries[i].1.deep_copy()
            },
            None => {
                proof {
                    lemma_entry_map_keys(self.entries@, key@);
                }
                default.deep_copy()
            },
        }
    }

    /// Updates the cache for `key`. Pure in-memory: durability comes only
    /// from persisting `to_document` afterwards.
    pub fn set(&mut self, key: &String, value: JsonValue)
        requires
            old(self).wf(),
        ensures
            final(self).wf(),
            final(self)@ == old(self)@.insert(key@, value@),
            final(self).name_spec() == old(self).name_spec(),
    {
        let ghost s0 = self.entries@;
        let ghost kk = key@;
        let ghost vv = value@;
        match self.find(key) {
            Some(i) => {
                self.entries.remove(i);
                self.entries.insert(i, (key.clone(), value));
                proof {
                    let p = self.entries@[i as int];
                    assert(p.0@ == kk && p.1@ == vv);
                    assert(self.entries@ =~= s0.update(i as int, p));
                    lemma_entry_map_update(s0, i as int, p);
                    assert(unique_keys(self.entries@));
                }
            },
            None => {
                self.entries.push((key.clone(), value));
                proof {
                    let p = self.entries@[s0.len() as int];
                    assert(p.0@ == kk && p.1@ == vv);
                    assert(unique_keys(self.entries@));
                    lemma_entry_map_push(s0, p);
                    assert(self.entries@ =~= s0.push(p));
                }
            },
        }
    }

    /// The array cached at `key`, or the empty sequence when the key is
    /// absent or holds something other than an array.
    pub fn list(&self, key: &String) -> (r: Vec<JsonValue>)
        requires
            self.wf(),
        ensures
            vals(r@) == spec_list(self@, key@),
    {
        let v = self.get(key, &JsonValue::Null);
        match v {
            JsonValue::Arr(items) => items,
            _ => {
                proof {
                    assert(vals(Seq::<JsonValue>::empty()) =~= Seq::<Json>::empty());
                }
                Vec::new()
            },
        }
    }

    /// Appends `record` to the array at `key` and caches the new array:
    /// prior order is preserved and the record is placed last. Returns the
    /// resulting sequence so the caller can reflect it without a re-read.
    pub fn append(&mut self, key: &String, record: JsonValue) -> (r: Vec<JsonValue>)
        requires
            old(self).wf(),
        ensures
            final(self).wf(),
            final(self)@ == old(self)@.insert(
                key@,
                Json::Arr(spec_list(old(self)@, key@).push(record@)),
            ),
            vals(r@) == spec_list(old(self)@, key@).push(record@),
            final(self).name_spec() == old(self).name_spec(),
    {
        let mut items = self.list(key);
        let ghost before = vals(items@);
        let ghost rv = record@;
        items.push(record);
        proof {
            lemma_vals_index(items@);
            assert(vals(items@) =~= before.push(rv));
        }
        let stored = deep_copy_all(&items);
        self.set(key, JsonValue::Arr(stored));
        items
    }

    /// Removes every record at `key` whose `id` field equals `id` (zero or
    /// more matches: a missing id is a no-op, not an error), caches the new
    /// array, and returns it.
    pub fn remove_by_id(&mut self, key: &String, id: &String) -> (r: Vec<JsonValue>)
        requires
            old(self).wf(),
        ensures
            final(self).wf(),
            final(self)@ == old(self)@.insert(
                key@,
                Json::Arr(remove_with_id(spec_list(old(self)@, key@), id@)),
            ),
            vals(r@) == remove_with_id(spec_list(old(self)@, key@), id@),
            final(self).name_spec() == old(self).name_spec(),
    {
        let items = self.list(key);
        let ghost s = vals(items@);
        let mut kept: Vec<JsonValue> = Vec::new();
        proof {
            assert(s.skip(0) =~= s);
            assert(vals(kept@) =~= Seq::<Json>::empty());
            assert(vals(kept@) + remove_with_id(s.skip(0), id@) =~= remove_with_id(s, id@));
        }
        let n = items.len();
        for i in 0..n
            invariant
                n == items.len(),
                s == vals(items@),
                vals(kept@) + remove_with_id(s.skip(i as int), id@) == remove_with_id(s, id@),
        {
            proof {
                lemma_vals_index(items@);
                assert(s.skip(i as int).drop_first() =~= s.skip(i + 1));
                assert(s.skip(i as int)[0] == s[i as int]);
            }
            let ghost kept0 = vals(kept@);
            if !record_has_id(&items[i], id) {
                kept.push(items[i].deep_copy());
                proof {
                    lemma_vals_index(kept@);
                    assert(vals(kept@) =~= kept0.push(s[i as int]));
                    assert(kept0.push(s[i as int]) =~= kept0 + seq![s[i as int]]);
                    assert((kept0 + seq![s[i as int]]) + remove_with_id(s.skip(i + 1), id@)
                        =~= kept0 + (seq![s[i as int]] + remove_with_id(s.skip(i + 1), id@)));
                }
            }
        }
        proof {
            assert(s.skip(n as int) =~= Seq::<Json>::empty());
            assert(vals(kept@) + remove_with_id(s.skip(n as int), id@) =~= vals(kept@));
        }
        let stored = deep_copy_all(&kept);
        self.set(key, JsonValue::Arr(stored));
        kept
    }

    /// The whole cache as one JSON object, ready to be flushed to the
    /// backing file. Flushing replaces the prior contents atomically; a
    /// write failure is the host's to report, not to swallow.
    pub fn to_document(&self) -> (d: JsonValue)
        ensures
            d@ == self.doc_spec(),
    {
        let n = self.entries.len();
        let mut out: Vec<(String, JsonValue)> = Vec::new();
        for i in 0..n
            invariant
                n == self.entries.len(),
                out@.len() == i,
                forall|j: int| 0 <= j < i ==> out@[j].0@ == self.entries@[j].0@
                    && out@[j].1@ == self.entries@[j].1@,
        {
            let k = self.entries[i].0.clone();
            let v = self.entries[i].1.deep_copy();
            out.push((k, v));
        }
        proof {
            lemma_field_views_index(out@);
            lemma_field_views_index(self.entries@);
            assert(field_views(out@) =~= field_views(self.entries@));
        }
        JsonValue::Obj(out)
    }

    /// A collection rebuilt from a persisted document. A document that is
    /// not an object (missing file, corrupt contents) yields an empty
    /// collection: availability over strictness.
    pub fn from_document(name: String, doc: &JsonValue) -> (c: Collection)
        ensures
            c.wf(),
            c.name_spec() == name@,
            c@ == spec_load(doc@),
    {
        let ghost nm = name@;
        let mut c = Collection::new(name);
        match doc {
            JsonValue::Obj(fields) => {
                let ghost fvs = field_views(fields@);
                proof {
                    lemma_field_views_index(fields@);
                    assert(fvs.take(0) =~= Seq::<(Seq<char>, Json)>::empty());
                    assert(c@ =~= field_map(fvs.take(0)));
                }
                let n = fields.len();
                for i in 0..n
                    invariant
                        n == fields.len(),
                        fvs == field_views(fields@),
                        c.wf(),
                        c.name_spec() == nm,
                        c@ == field_map(fvs.take(i as int)),
                {
                    proof {
                        lemma_field_views_index(fields@);
                    }
                    let k = fields[i].0.clone();
                    let v = fields[i].1.deep_copy();
                    c.set(&k, v);
                    proof {
                        assert(fvs.take(i + 1).drop_last() =~= fvs.take(i as int));
                        assert(fvs.take(i + 1).last() == fvs[i as int]);
                        assert(c@ =~= field_map(fvs.take(i + 1)));
                    }
                }
                proof {
                    assert(fvs.take(n as int) =~= fvs);
                }
            },
            _ => {
                proof {
                    assert(!(doc@ is Obj));
                }
            },
        }
        c
    }
}

/// Whether `record` is a JSON object whose `id` field is the string `id`.
pub fn record_has_id(record: &JsonValue, id: &String) -> (r: bool)
    ensures
        r == has_id(record@, id@),
{
    let key = "id".to_string();
    match record.get_field(&key) {
        Some(v) => match v.as_str() {
            Some(s) => *s == *id,
            None => false,
        },
        None => false,
    }
}

/// Law: a `set` followed by a `get` of the same key, with no persist
/// between, returns the exact value written.
pub proof fn lemma_set_then_get(m: Map<Seq<char>, Json>, k: Seq<char>, v: Json, d: Json)
    ensures
        spec_get(m.insert(k, v), k, d) == v,
{
}

/// Law: a `get` of a key never written returns the caller's default
/// exactly, whatever the default is.
pub proof fn lemma_get_default(m: Map<Seq<char>, Json>, k: Seq<char>, d: Json)
    requires
        !m.contains_key(k),
    ensures
        spec_get(m, k, d) == d,
{
}

/// Law: a collection reloaded from its persisted document denotes exactly
/// the map that was persisted — a fresh load after `persist` reproduces the
/// last-persisted state.
pub proof fn lemma_persist_load_round_trip(c: Collection)
    ensures
        spec_load(c.doc_spec()) == c@,
{
    lemma_field_map_of_views(c.entries@);
}

/// Every record kept by `remove_with_id` indeed lacks the id.
proof fn lemma_remove_result_clean(s: Seq<Json>, id: Seq<char>)
    ensures
        forall|i: int|
            0 <= i < remove_with_id(s, id).len() ==> !has_id(remove_with_id(s, id)[i], id),
    decreases s.len(),
{
    if s.len() > 0 {
        lemma_remove_result_clean(s.drop_first(), id);
        let t = remove_with_id(s.drop_first(), id);
        if !has_id(s[0], id) {
            assert forall|i: int| 0 <= i < remove_with_id(s, id).len() implies !has_id(
                remove_with_id(s, id)[i],
                id,
            ) by {
                if i > 0 {
                    assert(remove_with_id(s, id)[i] == t[i - 1]);
                }
            }
        }
    }
}

/// When no record carries the id, `remove_with_id` keeps the sequence as
/// it is.
proof fn lemma_remove_none_matching(s: Seq<Json>, id: Seq<char>)
    requires
        forall|i: int| 0 <= i < s.len() ==> !has_id(s[i], id),
    ensures
        remove_with_id(s, id) == s,
    decreases s.len(),
{
    if s.len() > 0 {
        assert(forall|i: int|
            0 <= i < s.drop_first().len() ==> s.drop_first()[i] == s[i + 1]);
        lemma_remove_none_matching(s.drop_first(), id);
        assert(seq![s[0]] + s.drop_first() =~= s);
    }
}

/// Law: deleting an id that no record carries leaves the sequence
/// unchanged, and deleting the same id twice yields what deleting it once
/// yields.
pub proof fn lemma_remove_by_id_idempotent(s: Seq<Json>, id: Seq<char>)
    ensures
        (forall|i: int| 0 <= i < s.len() ==> !has_id(s[i], id)) ==> remove_with_id(s, id) == s,
        remove_with_id(remove_with_id(s, id), id) == remove_with_id(s, id),
{
    if forall|i: int| 0 <= i < s.len() ==> !has_id(s[i], id) {
        lemma_remove_none_matching(s, id);
    }
    lemma_remove_result_clean(s, id);
    lemma_remove_none_matching(remove_with_id(s, id), id);
}

} // verus!
