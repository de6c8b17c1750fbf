//! The JSON documents that the explorer hands to its users.
//!
//! A [`JsonValue`] is built here and serialised elsewhere. Its model,
//! [`JsonView`], forgets how an object was assembled: an object is a finite
//! map from keys to values, and a later binding of a key replaces an earlier
//! one, as inserting into a JSON map does.
use vstd::prelude::*;

verus! {

/// Mathematical model of a JSON value.
pub enum JsonView {
    Null,
    Bool(bool),
    Number(int),
    FloatBits(u64),
    Str(Seq<char>),
    Array(Seq<JsonView>),
    Object(Map<Seq<char>, JsonView>),
}

/// A JSON value.
#[derive(Debug)]
pub enum JsonValue {
    Null,
    Bool(bool),
    Number(i128),
    /// A number that need not be an integer, held as the bits of an IEEE 754
    /// double; it is always finite.
    FloatBits(u64),
    Str(String),
    Array(Vec<JsonValue>),
    Object(JsonObject),
}

/// A JSON object: a list of bindings in the order in which they were made.
/// A key bound twice takes the value of its latest binding.
#[derive(Debug)]
pub struct JsonObject {
    entries: Vec<(String, JsonValue)>,
}

impl JsonValue {
    pub open spec fn view(self) -> JsonView
        decreases self,
    {
        match self {
            JsonValue::Null => JsonView::Null,
            JsonValue::Bool(b) => JsonView::Bool(b),
            JsonValue::Number(n) => JsonView::Number(n as int),
            JsonValue::FloatBits(b) => JsonView::FloatBits(b),
            JsonValue::Str(s) => JsonView::Str(s@),
            JsonValue::Array(items) => {
                proof {
                    assert(decreases_to!(items => items@));
                }
                JsonView::Array(items_view(items@))
            },
            JsonValue::Object(obj) => JsonView::Object(obj.view()),
        }
    }
}

impl JsonValue {
    /// A copy of the value.
    pub fn clone_value(&self) -> (r: JsonValue)
        ensures
            r.view() == self.view(),
        decreases self,
    {
        match self {
            JsonValue::Null => JsonValue::Null,
            JsonValue::Bool(b) => JsonValue::Bool(*b),
            JsonValue::Number(n) => JsonValue::Number(*n),
            JsonValue::FloatBits(b) => JsonValue::FloatBits(*b),
            JsonValue::Str(s) => JsonValue::Str(s.clone()),
            JsonValue::Array(items) => {
                let mut out: Vec<JsonValue> = Vec::new();
                let mut i: usize = 0;
                while i < items.len()
                    invariant
                        i <= items@.len(),
                        *self == JsonValue::Array(*items),
                        items_view(out@) =~= items_view(items@.take(i as int)),
                    decreases items@.len() - i,
                {
                    proof {
                        assert(decreases_to!(*self => (*self)->Array_0));
                        assert((*self)->Array_0 == *items);
                        assert(decreases_to!(*items => items@));
                        assert(decreases_to!(items@ => items@[i as int]));
                    }
                    let x = items[i].clone_value();
                    let ghost before = out@;
                    out.push(x);
                    proof {
                        lemma_items_view_push(before, x);
                        lemma_items_view_push(items@.take(i as int), items@[i as int]);
                        assert(items@.take(i + 1) =~= items@.take(i as int).push(items@[i as int]));
                    }
                    i = i + 1;
                }
                assert(items@.take(items@.len() as int) =~= items@);
                JsonValue::Array(out)
            },
            JsonValue::Object(obj) => {
                let mut json = JsonObject::new();
                let mut i: usize = 0;
                while i < obj.entries.len()
                    invariant
                        i <= obj.entries@.len(),
                        *self == JsonValue::Object(*obj),
                        json.view() == entries_view(obj.entries@.take(i as int)),
                    decreases obj.entries@.len() - i,
                {
                    proof {
                        assert(decreases_to!(*self => (*self)->Object_0));
                        assert((*self)->Object_0 == *obj);
                        assert(decreases_to!(*obj => obj.entries));
                        assert(decreases_to!(obj.entries => obj.entries@));
                        assert(decreases_to!(obj.entries@ => obj.entries@[i as int]));
                        assert(decreases_to!(obj.entries@[i as int] => obj.entries@[i as int].1));
                    }
                    let v = obj.entries[i].1.clone_value();
                    json.insert(obj.entries[i].0.as_str(), v);
                    proof {
                        assert(obj.entries@.take(i + 1).drop_last() =~= obj.entries@.take(i as int));
                    }
                    i = i + 1;
                }
                assert(obj.entries@.take(obj.entries@.len() as int) =~= obj.entries@);
                JsonValue::Object(json)
            },
        }
    }
}

impl JsonObject {
    /// The map that the object's bindings denote.
    pub closed spec fn view(self) -> Map<Seq<char>, JsonView>
        decreases self,
    {
        proof {
            assert(decreases_to!(self.entries => self.entries@));
        }
        entries_view(self.entries@)
    }
}

/// The models of a sequence of values, in order.
pub open spec fn items_view(items: Seq<JsonValue>) -> Seq<JsonView>
    decreases items,
{
    if items.len() == 0 {
        Seq::empty()
    } else {
        proof {
            assert(decreases_to!(items => items[items.len() - 1]));
        }
        items_view(items.drop_last()).push(items.last().view())
    }
}

/// The map that a list of bindings denotes: later bindings win.
pub open spec fn entries_view(entries: Seq<(String, JsonValue)>) -> Map<Seq<char>, JsonView>
    decreases entries,
{
    if entries.len() == 0 {
        Map::empty()
    } else {
        proof {
            assert(decreases_to!(entries => entries[entries.len() - 1]));
        }
        let last = entries.last();
        entries_view(entries.drop_last()).insert(last.0@, last.1.view())
    }
}


/// Binding one more entry at the end of a list updates its map at that key.
pub proof fn lemma_entries_view_push(entries: Seq<(String, JsonValue)>, key: String, value: JsonValue)
    ensures
        entries_view(entries.push((key, value))) == entries_view(entries).insert(key@, value.view()),
{
    assert(entries.push((key, value)).drop_last() =~= entries);
}

/// Appending one more value appends its model.
pub proof fn lemma_items_view_push(items: Seq<JsonValue>, value: JsonValue)
    ensures
        items_view(items.push(value)) == items_view(items).push(value.view()),
{
    assert(items.push(value).drop_last() =~= items);
}

/// The model of a sequence of values has one model per value, in order.
pub proof fn lemma_items_view_index(items: Seq<JsonValue>)
    ensures
        items_view(items).len() == items.len(),
        forall|i: int| 0 <= i < items.len() ==> #[trigger] items_view(items)[i] == items[i].view(),
    decreases items.len(),
{
    if items.len() > 0 {
        lemma_items_view_index(items.drop_last());
        assert forall|i: int| 0 <= i < items.len() implies #[trigger] items_view(items)[i]
            == items[i].view() by {
            if i < items.len() - 1 {
                assert(items.drop_last()[i] == items[i]);
            }
        }
    }
}

/// Looking a key up in a list of bindings: the map holds the key exactly when some
/// binding names it, and then its value is the one of the last such binding.
pub proof fn lemma_entries_view_lookup(entries: Seq<(String, JsonValue)>, key: Seq<char>, i: int)
    requires
        0 <= i < entries.len(),
        entries[i].0@ == key,
        forall|j: int| i < j < entries.len() ==> (#[trigger] entries[j]).0@ != key,
    ensures
        entries_view(entries).contains_key(key),
        entries_view(entries)[key] == entries[i].1.view(),
    decreases entries.len(),
{
    if i < entries.len() - 1 {
        lemma_entries_view_lookup(entries.drop_last(), key, i);
        assert(entries.last().0@ != key);
    }
}

/// A key that no binding names is not in the map.
pub proof fn lemma_entries_view_absent(entries: Seq<(String, JsonValue)>, key: Seq<char>)
    requires
        forall|j: int| 0 <= j < entries.len() ==> (#[trigger] entries[j]).0@ != key,
    ensures
        !entries_view(entries).contains_key(key),
    decreases entries.len(),
{
    if entries.len() > 0 {
        lemma_entries_view_absent(entries.drop_last(), key);
        assert(entries.last().0@ != key);
    }
}

/// The map of a list of bindings is empty exactly when the list is.
pub proof fn lemma_entries_view_empty(entries: Seq<(String, JsonValue)>)
    ensures
        entries.len() == 0 <==> entries_view(entries) =~= Map::<Seq<char>, JsonView>::empty(),
{
    if entries.len() > 0 {
        let last = entries.last();
        assert(entries_view(entries).contains_key(last.0@));
        assert(!Map::<Seq<char>, JsonView>::empty().contains_key(last.0@));
    }
}

/// The model of an optional value.
pub open spec fn opt_view(o: Option<JsonValue>) -> Option<JsonView> {
    match o {
        Some(v) => Some(v.view()),
        None => None,
    }
}

/// A string value.
pub open spec fn str_json(s: String) -> JsonView {
    JsonView::Str(s@)
}

/// A string value, when there is a string.
pub open spec fn opt_str_json(o: Option<String>) -> Option<JsonView> {
    match o {
        Some(s) => Some(JsonView::Str(s@)),
        None => None,
    }
}

/// A number, when there is one.
pub open spec fn opt_int_json(o: Option<i64>) -> Option<JsonView> {
    match o {
        Some(n) => Some(JsonView::Number(n as int)),
        None => None,
    }
}

/// A boolean, when there is one.
pub open spec fn opt_bool_json(o: Option<bool>) -> Option<JsonView> {
    match o {
        Some(b) => Some(JsonView::Bool(b)),
        None => None,
    }
}

/// The text of an optional string.
pub open spec fn opt_text(o: Option<String>) -> Option<Seq<char>> {
    match o {
        Some(s) => Some(s@),
        None => None,
    }
}

/// A string value made of a text, when there is one.
pub open spec fn opt_text_json(o: Option<Seq<char>>) -> Option<JsonView> {
    match o {
        Some(s) => Some(JsonView::Str(s)),
        None => None,
    }
}

/// An array of strings.
pub open spec fn strs_json(items: Seq<String>) -> JsonView {
    JsonView::Array(items.map_values(|s: String| JsonView::Str(s@)))
}

/// An array of strings, when there is a list.
pub open spec fn opt_strs_json(o: Option<Vec<String>>) -> Option<JsonView> {
    match o {
        Some(v) => Some(strs_json(v@)),
        None => None,
    }
}

/// `m` with `key` bound to `v` when there is a value, and `m` itself otherwise.
pub open spec fn with_opt(m: Map<Seq<char>, JsonView>, key: Seq<char>, v: Option<JsonView>) -> Map<
    Seq<char>,
    JsonView,
> {
    match v {
        Some(x) => m.insert(key, x),
        None => m,
    }
}

/// `{key: null, "Note": note}`: what the explorer answers in place of data
/// that AWS says is not there.
pub open spec fn note_view(key: Seq<char>, note: Seq<char>) -> JsonView {
    JsonView::Object(Map::empty().insert(key, JsonView::Null).insert("Note"@, JsonView::Str(note)))
}

/// `{key: null, "Note": note}`.
pub fn note_value(key: &str, note: &str) -> (v: JsonValue)
    ensures
        v.view() == note_view(key@, note@),
{
    let mut json = JsonObject::new();
    json.insert(key, JsonValue::Null);
    json.insert("Note", text_value(note));
    JsonValue::Object(json)
}

/// The object of a list of key-value pairs of strings; a later pair wins a
/// repeated key.
pub open spec fn pairs_map(pairs: Seq<(String, String)>) -> Map<Seq<char>, JsonView>
    decreases pairs.len(),
{
    if pairs.len() == 0 {
        Map::empty()
    } else {
        pairs_map(pairs.drop_last()).insert(pairs.last().0@, JsonView::Str(pairs.last().1@))
    }
}

/// The object of a list of key-value pairs of strings.
pub fn pairs_value(pairs: &Vec<(String, String)>) -> (v: JsonValue)
    ensures
        v.view() == JsonView::Object(pairs_map(pairs@)),
{
    let mut json = JsonObject::new();
    let mut i: usize = 0;
    while i < pairs.len()
        invariant
            i <= pairs@.len(),
            json.view() == pairs_map(pairs@.take(i as int)),
        decreases pairs@.len() - i,
    {
        json.insert_str(pairs[i].0.as_str(), &pairs[i].1);
        assert(pairs@.take(i + 1).drop_last() =~= pairs@.take(i as int));
        i = i + 1;
    }
    assert(pairs@.take(pairs@.len() as int) =~= pairs@);
    JsonValue::Object(json)
}

/// The bits of a finite double: its exponent field is not all ones.
pub open spec fn finite_bits(bits: u64) -> bool {
    (bits >> 52u64) & 0x7ffu64 != 0x7ffu64
}

/// The JSON number of a double given by its bits, as
/// `serde_json::Number::from_f64(..).unwrap_or(0)` makes it: the double itself
/// when it is finite, and 0 for an infinity or a NaN.
pub open spec fn double_json(bits: u64) -> JsonView {
    if finite_bits(bits) {
        JsonView::FloatBits(bits)
    } else {
        JsonView::Number(0)
    }
}

/// The JSON number of a double given by its bits; 0 for an infinity or a NaN.
pub fn double_value(bits: u64) -> (v: JsonValue)
    ensures
        v.view() == double_json(bits),
{
    if (bits >> 52u64) & 0x7ffu64 != 0x7ffu64 {
        JsonValue::FloatBits(bits)
    } else {
        JsonValue::Number(0)
    }
}

/// A string value.
pub fn str_value(s: &String) -> (v: JsonValue)
    ensures
        v.view() == str_json(*s),
{
    JsonValue::Str(s.clone())
}

/// A string value made from a slice.
pub fn text_value(s: &str) -> (v: JsonValue)
    ensures
        v.view() == JsonView::Str(s@),
{
    JsonValue::Str(s.to_owned())
}

/// An array of strings.
pub fn strs_value(items: &Vec<String>) -> (v: JsonValue)
    ensures
        v.view() == strs_json(items@),
{
    let mut out: Vec<JsonValue> = Vec::new();
    let mut i: usize = 0;
    while i < items.len()
        invariant
            i <= items@.len(),
            items_view(out@) =~= items@.take(i as int).map_values(|s: String| JsonView::Str(s@)),
        decreases items@.len() - i,
    {
        let ghost before = out@;
        let x = str_value(&items[i]);
        out.push(x);
        proof {
            lemma_items_view_push(before, x);
            assert(items@.take(i + 1) =~= items@.take(i as int).push(items@[i as int]));
        }
        i = i + 1;
    }
    assert(items@.take(items@.len() as int) =~= items@);
    JsonValue::Array(out)
}

/// Converts each item with `f`, whose model is `spec_f`, keeping the order.
pub fn values_of<T, F: Fn(&T) -> JsonValue>(items: &Vec<T>, f: F, Ghost(spec_f): Ghost<spec_fn(T) -> JsonView>) -> (out: Vec<JsonValue>)
    requires
        forall|x: &T| #[trigger] f.requires((x,)),
        forall|x: &T, r: JsonValue| #[trigger] f.ensures((x,), r) ==> r.view() == spec_f(*x),
    ensures
        items_view(out@) == items@.map_values(spec_f),
{
    let mut out: Vec<JsonValue> = Vec::new();
    let mut i: usize = 0;
    while i < items.len()
        invariant
            i <= items@.len(),
            forall|x: &T| #[trigger] f.requires((x,)),
            forall|x: &T, r: JsonValue| #[trigger] f.ensures((x,), r) ==> r.view() == spec_f(*x),
            items_view(out@) =~= items@.take(i as int).map_values(spec_f),
        decreases items@.len() - i,
    {
        let ghost before = out@;
        let x = f(&items[i]);
        out.push(x);
        proof {
            lemma_items_view_push(before, x);
            assert(items@.take(i + 1) =~= items@.take(i as int).push(items@[i as int]));
        }
        i = i + 1;
    }
    assert(items@.take(items@.len() as int) =~= items@);
    out
}

/// Builds an array by converting each item with `f`, whose model is `spec_f`.
pub fn array_of<T, F: Fn(&T) -> JsonValue>(items: &Vec<T>, f: F, Ghost(spec_f): Ghost<spec_fn(T) -> JsonView>) -> (v: JsonValue)
    requires
        forall|x: &T| #[trigger] f.requires((x,)),
        forall|x: &T, r: JsonValue| #[trigger] f.ensures((x,), r) ==> r.view() == spec_f(*x),
    ensures
        v.view() == JsonView::Array(items@.map_values(spec_f)),
{
    JsonValue::Array(values_of(items, f, Ghost(spec_f)))
}

impl JsonObject {
    /// An object with no bindings.
    pub fn new() -> (obj: JsonObject)
        ensures
            obj.view() == Map::<Seq<char>, JsonView>::empty(),
    {
        JsonObject { entries: Vec::new() }
    }

    /// Binds `key` to `value`, replacing any earlier binding of `key`.
    pub fn insert(&mut self, key: &str, value: JsonValue)
        ensures
            final(self).view() == old(self).view().insert(key@, value.view()),
    {
        let ghost before = self.entries@;
        let k = key.to_owned();
        proof {
            lemma_entries_view_push(before, k, value);
        }
        self.entries.push((k, value));
        assert(self.entries@ == before.push((k, value)));
    }

    /// Binds `key` to `value` when there is a value.
    pub fn insert_opt(&mut self, key: &str, value: Option<JsonValue>)
        ensures
            final(self).view() == with_opt(old(self).view(), key@, opt_view(value)),
    {
        match value {
            Some(v) => self.insert(key, v),
            None => {},
        }
    }

    /// Binds `key` to the string `value`.
    pub fn insert_str(&mut self, key: &str, value: &String)
        ensures
            final(self).view() == old(self).view().insert(key@, str_json(*value)),
    {
        self.insert(key, str_value(value));
    }

    /// Binds `key` to the string `value`, when there is one.
    pub fn insert_opt_str(&mut self, key: &str, value: &Option<String>)
        ensures
            final(self).view() == with_opt(old(self).view(), key@, opt_str_json(*value)),
    {
        match value {
            Some(s) => self.insert(key, str_value(s)),
            None => {},
        }
    }

    /// Binds `key` to the string `value`, when there is one.
    pub fn insert_opt_text(&mut self, key: &str, value: Option<String>)
        ensures
            final(self).view() == with_opt(old(self).view(), key@, opt_text_json(opt_text(value))),
    {
        match value {
            Some(s) => self.insert(key, JsonValue::Str(s)),
            None => {},
        }
    }

    /// Binds `key` to the number `value`.
    pub fn insert_int(&mut self, key: &str, value: i64)
        ensures
            final(self).view() == old(self).view().insert(key@, JsonView::Number(value as int)),
    {
        self.insert(key, JsonValue::Number(value as i128));
    }

    /// Binds `key` to the number `value`, when there is one.
    pub fn insert_opt_int(&mut self, key: &str, value: Option<i64>)
        ensures
            final(self).view() == with_opt(old(self).view(), key@, opt_int_json(value)),
    {
        match value {
            Some(n) => self.insert(key, JsonValue::Number(n as i128)),
            None => {},
        }
    }

    /// Binds `key` to the boolean `value`.
    pub fn insert_bool(&mut self, key: &str, value: bool)
        ensures
            final(self).view() == old(self).view().insert(key@, JsonView::Bool(value)),
    {
        self.insert(key, JsonValue::Bool(value));
    }

    /// Binds `key` to the boolean `value`, when there is one.
    pub fn insert_opt_bool(&mut self, key: &str, value: Option<bool>)
        ensures
            final(self).view() == with_opt(old(self).view(), key@, opt_bool_json(value)),
    {
        match value {
            Some(b) => self.insert(key, JsonValue::Bool(b)),
            None => {},
        }
    }

    /// Binds `key` to an array of strings, when there is a list.
    pub fn insert_opt_strs(&mut self, key: &str, value: &Option<Vec<String>>)
        ensures
            final(self).view() == with_opt(old(self).view(), key@, opt_strs_json(*value)),
    {
        match value {
            Some(v) => self.insert(key, strs_value(v)),
            None => {},
        }
    }

    /// Whether the object binds no key.
    pub fn is_empty(&self) -> (b: bool)
        ensures
            b == (self.view() =~= Map::<Seq<char>, JsonView>::empty()),
    {
        proof {
            lemma_entries_view_empty(self.entries@);
        }
        self.entries.len() == 0
    }

    /// The value bound to `key`, if any.
    pub fn get(&self, key: &str) -> (r: Option<&JsonValue>)
        ensures
            r is Some == self.view().contains_key(key@),
            r is Some ==> r->0.view() == self.view()[key@],
    {
        let k = key.to_owned();
        let mut i: usize = self.entries.len();
        while i > 0
            invariant
                i <= self.entries@.len(),
                k@ == key@,
                forall|j: int| i <= j < self.entries@.len() ==> (#[trigger] self.entries@[j]).0@
                    != key@,
            decreases i,
        {
            i = i - 1;
            if self.entries[i].0 == k {
                proof {
                    lemma_entries_view_lookup(self.entries@, key@, i as int);
                }
                return Some(&self.entries[i].1);
            }
        }
        proof {
            lemma_entries_view_absent(self.entries@, key@);
        }
        None
    }

    /// The bindings in the order in which they were made.
    pub fn entries(&self) -> (r: &Vec<(String, JsonValue)>)
        ensures
            entries_view(r@) == self.view(),
    {
        &self.entries
    }
}

} // verus!
