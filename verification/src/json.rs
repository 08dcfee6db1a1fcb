//! JSON values as plain data, and what the supervisor reads from them.
use crate::failure::Failure;
use crate::text;
use vstd::prelude::*;

verus! {

/// A JSON value. A number that is no unsigned 64-bit integer is kept as its
/// text. An object keeps each key once.
#[derive(Debug)]
pub enum Json {
    Null,
    Bool(bool),
    Number(u64),
    OtherNumber(String),
    Text(String),
    List(Vec<Json>),
    Object(Vec<(String, Json)>),
}

/// The content of a JSON value.
#[verifier::ext_equal]
pub enum JsonView {
    Null,
    Bool(bool),
    Number(u64),
    OtherNumber(Seq<char>),
    Text(Seq<char>),
    List(Seq<JsonView>),
    Object(Seq<(Seq<char>, JsonView)>),
}

pub open spec fn json_view(j: Json) -> JsonView
    decreases j,
{
    match j {
        Json::Null => JsonView::Null,
        Json::Bool(b) => JsonView::Bool(b),
        Json::Number(n) => JsonView::Number(n),
        Json::OtherNumber(t) => JsonView::OtherNumber(t@),
        Json::Text(t) => JsonView::Text(t@),
        Json::List(items) => JsonView::List(
            Seq::new(
                items@.len(),
                |i: int|
                    if 0 <= i < items@.len() {
                        json_view(items@[i])
                    } else {
                        JsonView::Null
                    },
            ),
        ),
        Json::Object(fields) => JsonView::Object(
            Seq::new(
                fields@.len(),
                |i: int|
                    if 0 <= i < fields@.len() {
                        (fields@[i].0@, json_view(fields@[i].1))
                    } else {
                        (Seq::<char>::empty(), JsonView::Null)
                    },
            ),
        ),
    }
}

impl View for Json {
    type V = JsonView;

    open spec fn view(&self) -> JsonView {
        json_view(*self)
    }
}

/// The index of the first field with the key.
pub open spec fn key_from(fields: Seq<(Seq<char>, JsonView)>, key: Seq<char>, i: int) -> Option<int>
    decreases fields.len() - i,
{
    if i < 0 || i >= fields.len() {
        None
    } else if fields[i].0 == key {
        Some(i)
    } else {
        key_from(fields, key, i + 1)
    }
}

/// The field of an object.
pub open spec fn field(j: JsonView, key: Seq<char>) -> Option<JsonView> {
    match j {
        JsonView::Object(fields) => match key_from(fields, key, 0) {
            Some(i) => Some(fields[i].1),
            None => None,
        },
        _ => None,
    }
}

/// The field of an object; `Null` for a missing field and for anything else.
pub open spec fn at(j: JsonView, key: Seq<char>) -> JsonView {
    match field(j, key) {
        Some(v) => v,
        None => JsonView::Null,
    }
}

/// Whether a name comes before another in the order of their characters.
pub open spec fn key_before(a: Seq<char>, b: Seq<char>) -> bool {
    exists|i: int|
        0 <= i <= a.len() && i < b.len() && #[trigger] a.take(i) == b.take(i) && (i == a.len()
            || a[i] < b[i])
}

/// Where a name that is new among the fields belongs: before the first of `i..` that
/// it comes before.
pub open spec fn place_from(fields: Seq<(Seq<char>, JsonView)>, key: Seq<char>, i: int) -> int
    decreases fields.len() - i,
{
    if i < 0 || i >= fields.len() {
        fields.len() as int
    } else if key_before(key, fields[i].0) {
        i
    } else {
        place_from(fields, key, i + 1)
    }
}

/// The object with the field set: replaced in place, or added where its name
/// belongs. What is no object is taken as an empty one.
pub open spec fn with_field(j: JsonView, key: Seq<char>, v: JsonView) -> JsonView {
    match j {
        JsonView::Object(fields) => match key_from(fields, key, 0) {
            Some(i) => JsonView::Object(fields.update(i, (key, v))),
            None => JsonView::Object(fields.insert(place_from(fields, key, 0), (key, v))),
        },
        _ => JsonView::Object(seq![(key, v)]),
    }
}

pub open spec fn text_of(j: JsonView) -> Option<Seq<char>> {
    match j {
        JsonView::Text(t) => Some(t),
        _ => None,
    }
}

pub open spec fn number_of(j: JsonView) -> Option<u64> {
    match j {
        JsonView::Number(n) => Some(n),
        _ => None,
    }
}

pub open spec fn flag_of(j: JsonView) -> Option<bool> {
    match j {
        JsonView::Bool(b) => Some(b),
        _ => None,
    }
}

pub open spec fn list_of(j: JsonView) -> Option<Seq<JsonView>> {
    match j {
        JsonView::List(items) => Some(items),
        _ => None,
    }
}

/// The contents of a list of values.
pub open spec fn json_views(items: Seq<Json>) -> Seq<JsonView> {
    items.map_values(|j: Json| j@)
}

/// The contents of the fields of an object.
pub open spec fn field_views(fields: Seq<(String, Json)>) -> Seq<(Seq<char>, JsonView)> {
    fields.map_values(|f: (String, Json)| (f.0@, f.1@))
}

/// The content of a list and of an object, by their items.
pub proof fn lemma_view(j: Json)
    ensures
        j matches Json::List(items) ==> j@ == JsonView::List(json_views(items@)),
        j matches Json::Object(fields) ==> j@ == JsonView::Object(field_views(fields@)),
{
    match j {
        Json::List(items) => {
            assert(j@->List_0 =~= json_views(items@));
        },
        Json::Object(fields) => {
            assert(j@->Object_0 =~= field_views(fields@));
        },
        _ => {},
    }
}

/// Setting a field is read back, and no other field changes.
pub proof fn set_field_is_read_back(j: JsonView, key: Seq<char>, v: JsonView, other: Seq<char>)
    ensures
        field(with_field(j, key, v), key) == Some(v),
        other != key && j is Object ==> field(with_field(j, key, v), other) == field(j, other),
{
    match j {
        JsonView::Object(fields) => {
            lemma_key_from(fields, key, 0);
            lemma_key_from(fields, other, 0);
            let now = with_field(j, key, v)->Object_0;
            lemma_key_from(now, key, 0);
            lemma_key_from(now, other, 0);
            match key_from(fields, key, 0) {
                Some(i) => {
                    assert(now[i].0 == key);
                    let k = key_from(now, key, 0)->0;
                    if k < i {
                        assert(fields[k].0 == key);
                    }
                },
                None => {
                    let p = place_from(fields, key, 0);
                    lemma_place_from(fields, key, 0);
                    assert(now[p].0 == key);
                    let k = key_from(now, key, 0)->0;
                    if k < p {
                        assert(fields[k].0 == key);
                    }
                },
            }
            if other != key {
                lemma_place_from(fields, key, 0);
                let p = match key_from(fields, key, 0) {
                    Some(_) => fields.len() as int,
                    None => place_from(fields, key, 0),
                };
                match key_from(fields, other, 0) {
                    Some(i) => {
                        let here = if i < p {
                            i
                        } else {
                            i + 1
                        };
                        assert(now[here] == fields[i]);
                        let k = key_from(now, other, 0)->0;
                        if k < here {
                            assert(k < p ==> fields[k].0 == other);
                            assert(k > p ==> now[k] == fields[k - 1]);
                        }
                    },
                    None => {
                        if key_from(now, other, 0) is Some {
                            let k = key_from(now, other, 0)->0;
                            if k < p {
                                assert(fields[k].0 == other);
                            } else if k > p {
                                assert(now[k] == fields[k - 1]);
                            }
                        }
                    },
                }
            }
        },
        _ => {
            let now = with_field(j, key, v)->Object_0;
            assert(now[0].0 == key);
        },
    }
}

/// Setting a field twice to the same value is setting it once.
pub proof fn set_field_is_idempotent(j: JsonView, key: Seq<char>, v: JsonView)
    ensures
        with_field(with_field(j, key, v), key, v) == with_field(j, key, v),
{
    let once = with_field(j, key, v);
    let now = once->Object_0;
    set_field_is_read_back(j, key, v, key);
    lemma_key_from(now, key, 0);
    let i = key_from(now, key, 0)->0;
    assert(now.update(i, (key, v)) =~= now);
}

proof fn lemma_place_from(fields: Seq<(Seq<char>, JsonView)>, key: Seq<char>, i: int)
    requires
        0 <= i <= fields.len(),
    ensures
        i <= place_from(fields, key, i) <= fields.len(),
    decreases fields.len() - i,
{
    if i < fields.len() && !key_before(key, fields[i].0) {
        lemma_place_from(fields, key, i + 1);
    }
}

/// What a search for a key finds.
pub proof fn lemma_key_from(fields: Seq<(Seq<char>, JsonView)>, key: Seq<char>, i: int)
    requires
        0 <= i,
    ensures
        match key_from(fields, key, i) {
            Some(k) => i <= k < fields.len() && fields[k].0 == key && (forall|j: int|
                i <= j < k ==> (#[trigger] fields[j]).0 != key),
            None => forall|j: int| i <= j < fields.len() ==> (#[trigger] fields[j]).0 != key,
        },
    decreases fields.len() - i,
{
    if i < fields.len() && fields[i].0 != key {
        lemma_key_from(fields, key, i + 1);
    }
}

impl Json {
    /// The field of an object.
    pub fn get(&self, key: &str) -> (r: Option<&Json>)
        ensures
            match r {
                Some(v) => field(self@, key@) == Some(v@),
                None => field(self@, key@) is None,
            },
    {
        proof {
            lemma_view(*self);
        }
        match self {
            Json::Object(fields) => {
                let ghost views = field_views(fields@);
                let mut i: usize = 0;
                while i < fields.len()
                    invariant
                        i <= fields@.len(),
                        views == field_views(fields@),
                        self@ == JsonView::Object(views),
                        key_from(views, key@, 0) == key_from(views, key@, i as int),
                    decreases fields@.len() - i,
                {
                    assert(views[i as int] == (fields@[i as int].0@, fields@[i as int].1@));
                    if text::same(fields[i].0.as_str(), key) {
                        return Some(&fields[i].1);
                    }
                    i = i + 1;
                }
                None
            },
            _ => None,
        }
    }

    /// Whether the field of an object holds exactly this text.
    pub fn field_is(&self, key: &str, expected: &str) -> (r: bool)
        ensures
            r == (text_of(at(self@, key@)) == Some(expected@)),
    {
        match self.get(key) {
            Some(v) => match v.as_text() {
                Some(t) => text::same(t, expected),
                None => false,
            },
            None => false,
        }
    }

    /// The text of a field.
    pub fn field_text(&self, key: &str) -> (r: Option<&str>)
        ensures
            match r {
                Some(t) => text_of(at(self@, key@)) == Some(t@),
                None => text_of(at(self@, key@)) is None,
            },
    {
        match self.get(key) {
            Some(v) => v.as_text(),
            None => None,
        }
    }

    /// The number of a field.
    pub fn field_number(&self, key: &str) -> (r: Option<u64>)
        ensures
            r == number_of(at(self@, key@)),
    {
        match self.get(key) {
            Some(v) => v.as_number(),
            None => None,
        }
    }

    /// The truth value of a field.
    pub fn field_flag(&self, key: &str) -> (r: Option<bool>)
        ensures
            r == flag_of(at(self@, key@)),
    {
        match self.get(key) {
            Some(Json::Bool(b)) => Some(*b),
            _ => None,
        }
    }

    /// The items of a field that is a list.
    pub fn field_list(&self, key: &str) -> (r: Option<&Vec<Json>>)
        ensures
            match r {
                Some(items) => list_of(at(self@, key@)) == Some(json_views(items@)),
                None => list_of(at(self@, key@)) is None,
            },
    {
        match self.get(key) {
            Some(v) => v.as_list(),
            None => None,
        }
    }

    pub fn as_text(&self) -> (r: Option<&str>)
        ensures
            match r {
                Some(t) => text_of(self@) == Some(t@),
                None => text_of(self@) is None,
            },
    {
        match self {
            Json::Text(t) => Some(t.as_str()),
            _ => None,
        }
    }

    pub fn as_number(&self) -> (r: Option<u64>)
        ensures
            r == number_of(self@),
    {
        match self {
            Json::Number(n) => Some(*n),
            _ => None,
        }
    }

    pub fn as_list(&self) -> (r: Option<&Vec<Json>>)
        ensures
            match r {
                Some(items) => list_of(self@) == Some(json_views(items@)),
                None => list_of(self@) is None,
            },
    {
        proof {
            lemma_view(*self);
        }
        match self {
            Json::List(items) => Some(items),
            _ => None,
        }
    }

    pub fn is_object(&self) -> (r: bool)
        ensures
            r == (self@ is Object),
    {
        match self {
            Json::Object(_) => true,
            _ => false,
        }
    }

    pub fn is_null(&self) -> (r: bool)
        ensures
            r == (self@ is Null),
    {
        match self {
            Json::Null => true,
            _ => false,
        }
    }

    /// A copy of the value.
    pub fn copy(&self) -> (r: Json)
        ensures
            r@ == self@,
        decreases self,
    {
        proof {
            lemma_view(*self);
        }
        match self {
            Json::Null => Json::Null,
            Json::Bool(b) => Json::Bool(*b),
            Json::Number(n) => Json::Number(*n),
            Json::OtherNumber(t) => Json::OtherNumber(t.clone()),
            Json::Text(t) => Json::Text(t.clone()),
            Json::List(items) => {
                let mut copied: Vec<Json> = Vec::new();
                for i in 0..items.len()
                    invariant
                        *self == Json::List(*items),
                        json_views(copied@) == json_views(items@).take(i as int),
                {
                    let ghost before = json_views(copied@);
                    assert(decreases_to!(*self => self->List_0@[i as int]));
                    let item = items[i].copy();
                    copied.push(item);
                    assert(json_views(copied@) == before.push(items@[i as int]@));
                }
                let r = Json::List(copied);
                proof {
                    lemma_view(r);
                    assert(json_views(copied@) == json_views(items@));
                }
                r
            },
            Json::Object(fields) => {
                let mut copied: Vec<(String, Json)> = Vec::new();
                for i in 0..fields.len()
                    invariant
                        *self == Json::Object(*fields),
                        field_views(copied@) == field_views(fields@).take(i as int),
                {
                    let ghost before = field_views(copied@);
                    assert(decreases_to!(*self => self->Object_0@[i as int].1));
                    let item = fields[i].1.copy();
                    let name = fields[i].0.clone();
                    copied.push((name, item));
                    assert(field_views(copied@) == before.push(
                        (fields@[i as int].0@, fields@[i as int].1@),
                    ));
                }
                let r = Json::Object(copied);
                proof {
                    lemma_view(r);
                    assert(field_views(copied@) == field_views(fields@));
                }
                r
            },
        }
    }
}

fn comes_before(a: &str, b: &str) -> (r: bool)
    ensures
        r == key_before(a@, b@),
{
    let x = text::chars_of(a);
    let y = text::chars_of(b);
    let mut i: usize = 0;
    assert(a@.take(0) =~= b@.take(0));
    while i < x.len() && i < y.len() && x[i] == y[i]
        invariant
            x@ == a@,
            y@ == b@,
            i <= x@.len(),
            i <= y@.len(),
            a@.take(i as int) == b@.take(i as int),
        decreases x@.len() - i,
    {
        assert(a@.take(i + 1) =~= a@.take(i as int).push(a@[i as int]));
        assert(b@.take(i + 1) =~= b@.take(i as int).push(b@[i as int]));
        i = i + 1;
    }
    let r = i < y.len() && (i == x.len() || x[i] < y[i]);
    proof {
        if key_before(a@, b@) {
            let k = choose|k: int|
                0 <= k <= a@.len() && k < b@.len() && #[trigger] a@.take(k) == b@.take(k) && (k
                    == a@.len() || a@[k] < b@[k]);
            if k < i {
                assert(a@.take(i as int)[k] == b@.take(i as int)[k]);
            } else if k > i {
                assert(a@.take(k)[i as int] == b@.take(k)[i as int]);
            }
        }
    }
    r
}

/// The object with the field set: replaced in place, or added where its name
/// belongs. What is no object is taken as an empty one.
pub fn set_field(j: Json, key: &str, value: Json) -> (r: Json)
    ensures
        r@ == with_field(j@, key@, value@),
{
    proof {
        lemma_view(j);
    }
    match j {
        Json::Object(fields) => {
            let ghost views = field_views(fields@);
            let mut fields = fields;
            let mut i: usize = 0;
            while i < fields.len()
                invariant_except_break
                    i <= fields@.len(),
                    views == field_views(fields@),
                    key_from(views, key@, 0) == key_from(views, key@, i as int),
                ensures
                    i <= fields@.len(),
                    views == field_views(fields@),
                    i < fields@.len() ==> key_from(views, key@, 0) == Some(i as int),
                    i == fields@.len() ==> key_from(views, key@, 0) is None,
                decreases fields@.len() - i,
            {
                assert(views[i as int] == (fields@[i as int].0@, fields@[i as int].1@));
                if text::same(fields[i].0.as_str(), key) {
                    break;
                }
                i = i + 1;
            }
            let ghost v = value@;
            if i < fields.len() {
                fields.set(i, (key.to_owned(), value));
                assert(field_views(fields@) == views.update(i as int, (key@, v)));
            } else {
                let mut p: usize = 0;
                while p < fields.len() && !comes_before(key, fields[p].0.as_str())
                    invariant
                        p <= fields@.len(),
                        views == field_views(fields@),
                        place_from(views, key@, 0) == place_from(views, key@, p as int),
                    decreases fields@.len() - p,
                {
                    assert(views[p as int] == (fields@[p as int].0@, fields@[p as int].1@));
                    p = p + 1;
                }
                assert(p < views.len() ==> views[p as int] == (
                    fields@[p as int].0@,
                    fields@[p as int].1@,
                ));
                fields.insert(p, (key.to_owned(), value));
                assert(field_views(fields@) =~= views.insert(p as int, (key@, v)));
            }
            let r = Json::Object(fields);
            proof {
                lemma_view(r);
            }
            r
        },
        _ => {
            let ghost v = value@;
            let mut fields: Vec<(String, Json)> = Vec::new();
            fields.push((key.to_owned(), value));
            assert(field_views(fields@) == seq![(key@, v)]);
            let r = Json::Object(fields);
            proof {
                lemma_view(r);
            }
            r
        },
    }
}

pub fn json_text(t: &str) -> (r: Json)
    ensures
        r@ == JsonView::Text(t@),
{
    Json::Text(t.to_owned())
}

/// A parsed JSON document of `serde_json`.
#[verifier::external_type_specification]
#[verifier::external_body]
pub struct ExValue(serde_json::Value);

/// What a `serde_json::Value` holds.
pub uninterp spec fn held_json(value: serde_json::Value) -> JsonView;

/// What `serde_json::from_slice` reads from a JSON text, or the words of its
/// error.
pub uninterp spec fn parsed_json(bytes: Seq<u8>) -> Result<JsonView, Seq<char>>;

/// Whether a value is a flat record: its fields are in the order of their names,
/// and each holds a text, a number or a truth value.
pub open spec fn is_flat_record(j: JsonView) -> bool {
    match j {
        JsonView::Object(f) => {
            &&& forall|i: int, k: int|
                0 <= i < k < f.len() ==> key_before(#[trigger] f[i].0, #[trigger] f[k].0)
            &&& forall|i: int|
                0 <= i < f.len() ==> ((#[trigger] f[i]).1 is Text || f[i].1 is Number
                    || f[i].1 is Bool)
        },
        _ => false,
    }
}

/// `serde_json::from_slice`: the document that the bytes hold, or the words of the
/// error where they hold none. A flat record is read back from its compact text as
/// it was written: objects are held in the order of their names.
#[verifier::external_body]
fn read_value(bytes: &[u8]) -> (r: Result<serde_json::Value, String>)
    ensures
        match r {
            Ok(value) => parsed_json(bytes@) == Ok::<JsonView, Seq<char>>(held_json(value))
                && forall|j: JsonView| #[trigger]
                is_flat_record(j) && bytes@ == vstd::utf8::encode_utf8(written_json(j))
                    ==> held_json(value) == j,
            Err(words) => parsed_json(bytes@) == Err::<JsonView, Seq<char>>(words@)
                && forall|j: JsonView| #[trigger]
                is_flat_record(j) ==> bytes@ != vstd::utf8::encode_utf8(written_json(j)),
        },
{
    match serde_json::from_slice(bytes) {
        Ok(value) => Ok(value),
        Err(error) => Err(error.to_string()),
    }
}

/// The variants and fields of a `serde_json::Value`, moved into plain data. A
/// number is taken by `as_u64` where that gives one, else by its text.
#[verifier::external_body]
fn plain(value: serde_json::Value) -> (r: Json)
    ensures
        r@ == held_json(value),
{
    match value {
        serde_json::Value::Null => Json::Null,
        serde_json::Value::Bool(b) => Json::Bool(b),
        serde_json::Value::Number(n) => match n.as_u64() {
            Some(n) => Json::Number(n),
            None => Json::OtherNumber(n.to_string()),
        },
        serde_json::Value::String(t) => Json::Text(t),
        serde_json::Value::Array(v) => Json::List(v.into_iter().map(plain).collect()),
        serde_json::Value::Object(m) => Json::Object(
            m.into_iter().map(|f| (f.0, plain(f.1))).collect(),
        ),
    }
}

/// The value of a JSON document, or why the bytes are none.
pub fn parse(bytes: &[u8]) -> (r: Result<Json, Failure>)
    ensures
        match r {
            Ok(j) => parsed_json(bytes@) == Ok::<JsonView, Seq<char>>(j@),
            Err(e) => parsed_json(bytes@) == Err::<JsonView, Seq<char>>(e.message@),
        },
        forall|j: JsonView| #[trigger]
            is_flat_record(j) && bytes@ == vstd::utf8::encode_utf8(written_json(j)) ==> (
            r matches Ok(value) && value@ == j),
{
    match read_value(bytes) {
        Ok(value) => Ok(plain(value)),
        Err(message) => Err(Failure { message }),
    }
}

/// The value of a JSON text, or why it is none.
pub fn parse_text(t: &str) -> (r: Result<Json, Failure>)
    ensures
        match r {
            Ok(j) => parsed_json(vstd::utf8::encode_utf8(t@)) == Ok::<JsonView, Seq<char>>(j@),
            Err(e) => parsed_json(vstd::utf8::encode_utf8(t@)) == Err::<JsonView, Seq<char>>(
                e.message@,
            ),
        },
{
    parse(t.as_bytes())
}

/// A field of an object in the making.
pub fn pair(key: &str, value: Json) -> (r: (String, Json))
    ensures
        r.0@ == key@,
        r.1 == value,
{
    (key.to_owned(), value)
}

/// An object with the given fields.
pub fn object(fields: Vec<(String, Json)>) -> (r: Json)
    ensures
        r@ == JsonView::Object(field_views(fields@)),
{
    let r = Json::Object(fields);
    proof {
        lemma_view(r);
    }
    r
}

/// A list of the given items.
pub fn list(items: Vec<Json>) -> (r: Json)
    ensures
        r@ == JsonView::List(json_views(items@)),
{
    let r = Json::List(items);
    proof {
        lemma_view(r);
    }
    r
}

impl crate::values::Plain for Json {
    fn duplicate(&self) -> (r: Self) {
        self.copy()
    }

    fn alike(&self, other: &Self) -> (r: bool) {
        same_json(self, other)
    }
}

/// Whether two values have the same content.
pub fn same_json(a: &Json, b: &Json) -> (r: bool)
    ensures
        r == (a@ == b@),
    decreases a,
{
    proof {
        lemma_view(*a);
        lemma_view(*b);
    }
    match (a, b) {
        (Json::Null, Json::Null) => true,
        (Json::Bool(x), Json::Bool(y)) => *x == *y,
        (Json::Number(x), Json::Number(y)) => *x == *y,
        (Json::OtherNumber(x), Json::OtherNumber(y)) => text::same(x.as_str(), y.as_str()),
        (Json::Text(x), Json::Text(y)) => text::same(x.as_str(), y.as_str()),
        (Json::List(x), Json::List(y)) => {
            if x.len() != y.len() {
                assert(json_views(x@).len() != json_views(y@).len());
                return false;
            }
            for i in 0..x.len()
                invariant
                    *a == Json::List(*x),
                    a@ == JsonView::List(json_views(x@)),
                    b@ == JsonView::List(json_views(y@)),
                    x@.len() == y@.len(),
                    forall|j: int| 0 <= j < i ==> (#[trigger] x@[j])@ == y@[j]@,
            {
                assert(decreases_to!(*a => a->List_0@[i as int]));
                if !same_json(&x[i], &y[i]) {
                    assert(json_views(x@)[i as int] != json_views(y@)[i as int]);
                    return false;
                }
            }
            assert(json_views(x@) =~= json_views(y@));
            true
        },
        (Json::Object(x), Json::Object(y)) => {
            if x.len() != y.len() {
                assert(field_views(x@).len() != field_views(y@).len());
                return false;
            }
            for i in 0..x.len()
                invariant
                    *a == Json::Object(*x),
                    a@ == JsonView::Object(field_views(x@)),
                    b@ == JsonView::Object(field_views(y@)),
                    x@.len() == y@.len(),
                    forall|j: int|
                        0 <= j < i ==> (#[trigger] x@[j]).0@ == y@[j].0@ && x@[j].1@ == y@[j].1@,
            {
                assert(decreases_to!(*a => a->Object_0@[i as int].1));
                if !text::same(x[i].0.as_str(), y[i].0.as_str()) || !same_json(&x[i].1, &y[i].1) {
                    assert(field_views(x@)[i as int] != field_views(y@)[i as int]);
                    return false;
                }
            }
            assert(field_views(x@) =~= field_views(y@));
            true
        },
        _ => false,
    }
}

/// The content of the `serde_json::Value` that is made of a value. Its maps hold
/// each name once and in order.
pub uninterp spec fn built_json(j: JsonView) -> JsonView;

/// The compact text that `serde_json` writes of a document.
pub uninterp spec fn written_json(j: JsonView) -> Seq<char>;

/// The variants and fields of a value, moved into a `serde_json::Value`. What is a
/// flat record stays one. A number that is no unsigned 64-bit integer is read from
/// its text.
#[verifier::external_body]
fn build(j: &Json) -> (r: serde_json::Value)
    ensures
        held_json(r) == built_json(j@),
        is_flat_record(j@) ==> held_json(r) == j@,
{
    match j {
        Json::Null => serde_json::Value::Null,
        Json::Bool(b) => serde_json::Value::from(*b),
        Json::Number(n) => serde_json::Value::from(*n),
        Json::OtherNumber(t) => serde_json::from_str(t).unwrap_or_default(),
        Json::Text(t) => serde_json::Value::from(t.as_str()),
        Json::List(v) => v.iter().map(build).collect(),
        Json::Object(f) => f.iter().map(|f| (f.0.clone(), build(&f.1))).collect(),
    }
}

/// `serde_json::Value::to_string`: the compact text of a document.
#[verifier::external_body]
fn write(value: &serde_json::Value) -> (r: String)
    ensures
        r@ == written_json(held_json(*value)),
{
    value.to_string()
}

/// The compact text of a value.
pub open spec fn rendered(j: JsonView) -> Seq<char> {
    written_json(built_json(j))
}

/// The compact text of a value. A flat record is written as it is.
pub fn render(j: &Json) -> (r: String)
    ensures
        r@ == rendered(j@),
        is_flat_record(j@) ==> r@ == written_json(j@),
{
    let value = build(j);
    write(&value)
}

} // verus!
