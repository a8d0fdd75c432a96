//! JSON documents as plain values: the tree that the mapping rules read and
//! write, and the reading of a text into it.

use vstd::prelude::*;

use crate::text::same_text;

verus! {

/// A JSON document. A number is held as the text that stands for it; the fields
/// of an object are held in their order, and the first field of a name is the
/// one that counts.
#[derive(Debug, PartialEq, Eq)]
pub enum Json {
    Null,
    Bool(bool),
    Number(String),
    Text(String),
    Array(Vec<Json>),
    Object(Vec<(String, Json)>),
}

/// The value of a [`Json`] document.
pub enum JsonView {
    Null,
    Bool(bool),
    Number(Seq<char>),
    Text(Seq<char>),
    Array(Seq<JsonView>),
    Object(Seq<(Seq<char>, JsonView)>),
}

/// The value of a document, item by item and field by field.
pub open spec fn document(json: Json) -> JsonView
    decreases json,
{
    match json {
        Json::Null => JsonView::Null,
        Json::Bool(b) => JsonView::Bool(b),
        Json::Number(n) => JsonView::Number(n@),
        Json::Text(s) => JsonView::Text(s@),
        Json::Array(items) => JsonView::Array(
            Seq::new(
                items@.len(),
                |i: int|
                    if 0 <= i < items@.len() {
                        document(items@[i])
                    } else {
                        JsonView::Null
                    },
            ),
        ),
        Json::Object(fields) => JsonView::Object(
            Seq::new(
                fields@.len(),
                |i: int|
                    if 0 <= i < fields@.len() {
                        (fields@[i].0@, document(fields@[i].1))
                    } else {
                        (Seq::empty(), JsonView::Null)
                    },
            ),
        ),
    }
}

impl View for Json {
    type V = JsonView;

    open spec fn view(&self) -> JsonView {
        document(*self)
    }
}

/// The values of the items of an array.
pub open spec fn item_views(items: Seq<Json>) -> Seq<JsonView> {
    Seq::new(items.len(), |i: int| items[i]@)
}

/// The values of the fields of an object.
pub open spec fn field_views(fields: Seq<(String, Json)>) -> Seq<(Seq<char>, JsonView)> {
    Seq::new(fields.len(), |i: int| (fields[i].0@, fields[i].1@))
}

/// The value of an array is made of the values of its items.
pub proof fn lemma_array_view(items: Vec<Json>)
    ensures
        Json::Array(items)@ == JsonView::Array(item_views(items@)),
{
    assert(Json::Array(items)@->Array_0 =~= item_views(items@));
}

/// The value of an object is made of the names and values of its fields.
pub proof fn lemma_object_view(fields: Vec<(String, Json)>)
    ensures
        Json::Object(fields)@ == JsonView::Object(field_views(fields@)),
{
    assert(Json::Object(fields)@->Object_0 =~= field_views(fields@));
}

#[verifier::external_type_specification]
#[verifier::external_body]
pub struct ExValue(serde_json::Value);

/// What `serde_json` reads from a text: the document, or the message of the
/// error with which it refuses the text.
pub uninterp spec fn parsed_document(text: Seq<char>) -> Result<JsonView, Seq<char>>;

/// The document that a `serde_json::Value` holds.
pub uninterp spec fn value_document(value: serde_json::Value) -> JsonView;

/// `serde_json::from_str`, read as a `Value`. What it returns depends on the text
/// alone; its error is handed on as the message that the error displays.
#[verifier::external_body]
fn read_value(text: &str) -> (r: Result<serde_json::Value, String>)
    ensures
        match r {
            Ok(value) => parsed_document(text@) == Ok::<JsonView, Seq<char>>(
                value_document(value),
            ),
            Err(message) => parsed_document(text@) == Err::<JsonView, Seq<char>>(message@),
        },
{
    serde_json::from_str::<serde_json::Value>(text).map_err(|e| e.to_string())
}

/// Copies a `serde_json::Value` into a [`Json`], variant by variant: a number as
/// the text that it displays, the items of an array and the fields of an object
/// in the order in which the value hands them out.
#[verifier::external_body]
fn copy_value(value: &serde_json::Value) -> (json: Json)
    ensures
        json@ == value_document(*value),
{
    match value {
        serde_json::Value::Null => Json::Null,
        serde_json::Value::Bool(b) => Json::Bool(*b),
        serde_json::Value::Number(n) => Json::Number(n.to_string()),
        serde_json::Value::String(s) => Json::Text(s.clone()),
        serde_json::Value::Array(items) => Json::Array(items.iter().map(copy_value).collect()),
        serde_json::Value::Object(fields) => Json::Object(
            fields.iter().map(|(name, item)| (name.clone(), copy_value(item))).collect(),
        ),
    }
}

/// The value of the first field of that name.
pub open spec fn lookup(fields: Seq<(Seq<char>, JsonView)>, name: Seq<char>) -> Option<JsonView>
    decreases fields.len(),
{
    if fields.len() == 0 {
        None
    } else if fields[0].0 == name {
        Some(fields[0].1)
    } else {
        lookup(fields.drop_first(), name)
    }
}

/// The fields with the first field of that name given a new value; with the
/// field added at the end where there is none of that name.
pub open spec fn put(fields: Seq<(Seq<char>, JsonView)>, name: Seq<char>, value: JsonView) -> Seq<
    (Seq<char>, JsonView),
>
    decreases fields.len(),
{
    if fields.len() == 0 {
        seq![(name, value)]
    } else if fields[0].0 == name {
        fields.update(0, (name, value))
    } else {
        seq![fields[0]] + put(fields.drop_first(), name, value)
    }
}

/// After a field was put, a lookup of its name finds the new value, and a lookup
/// of any other name finds what it found before.
pub proof fn lemma_lookup_put(
    fields: Seq<(Seq<char>, JsonView)>,
    name: Seq<char>,
    value: JsonView,
    other: Seq<char>,
)
    ensures
        lookup(put(fields, name, value), name) == Some(value),
        other != name ==> lookup(put(fields, name, value), other) == lookup(fields, other),
    decreases fields.len(),
{
    let after = put(fields, name, value);
    if fields.len() == 0 {
        assert(after[0] == (name, value));
        assert(after.drop_first().len() == 0);
        assert(lookup(after.drop_first(), other) is None);
    } else if fields[0].0 == name {
        assert(after[0] == (name, value));
        assert(after.drop_first() == fields.drop_first());
    } else {
        lemma_lookup_put(fields.drop_first(), name, value, other);
        assert(after[0] == fields[0]);
        assert(after.drop_first() == put(fields.drop_first(), name, value));
    }
}

/// Where the first field of a name stands, the lookup finds its value, and a
/// put changes that field alone.
pub proof fn lemma_first_field(
    fields: Seq<(Seq<char>, JsonView)>,
    name: Seq<char>,
    value: JsonView,
    at: int,
)
    requires
        0 <= at < fields.len(),
        fields[at].0 == name,
        forall|j: int| 0 <= j < at ==> (#[trigger] fields[j]).0 != name,
    ensures
        lookup(fields, name) == Some(fields[at].1),
        put(fields, name, value) == fields.update(at, (name, value)),
    decreases fields.len(),
{
    if at > 0 {
        let rest = fields.drop_first();
        assert(fields[0].0 != name);
        assert forall|j: int| 0 <= j < at - 1 implies (#[trigger] rest[j]).0 != name by {
            assert(rest[j] == fields[j + 1]);
        }
        lemma_first_field(rest, name, value, at - 1);
        assert(seq![fields[0]] + rest.update(at - 1, (name, value)) =~= fields.update(
            at,
            (name, value),
        ));
    }
}

/// Where no field has the name, the lookup finds nothing, and a put adds the
/// field at the end.
pub proof fn lemma_no_field(fields: Seq<(Seq<char>, JsonView)>, name: Seq<char>, value: JsonView)
    requires
        forall|j: int| 0 <= j < fields.len() ==> (#[trigger] fields[j]).0 != name,
    ensures
        lookup(fields, name) is None,
        put(fields, name, value) == fields.push((name, value)),
    decreases fields.len(),
{
    if fields.len() > 0 {
        let rest = fields.drop_first();
        assert(fields[0].0 != name);
        assert forall|j: int| 0 <= j < rest.len() implies (#[trigger] rest[j]).0 != name by {
            assert(rest[j] == fields[j + 1]);
        }
        lemma_no_field(rest, name, value);
        assert(seq![fields[0]] + rest.push((name, value)) =~= fields.push((name, value)));
    } else {
        assert(seq![(name, value)] =~= fields.push((name, value)));
    }
}

/// The place of the first field of that name.
fn position(fields: &Vec<(String, Json)>, name: &str) -> (r: Option<usize>)
    ensures
        match r {
            Some(at) => {
                &&& at < fields.len()
                &&& fields[at as int].0@ == name@
                &&& forall|j: int| 0 <= j < at ==> (#[trigger] fields[j]).0@ != name@
            },
            None => forall|j: int| 0 <= j < fields.len() ==> (#[trigger] fields[j]).0@ != name@,
        },
{
    let mut i: usize = 0;
    while i < fields.len()
        invariant
            0 <= i <= fields.len(),
            forall|j: int| 0 <= j < i ==> (#[trigger] fields[j]).0@ != name@,
        decreases fields.len() - i,
    {
        if same_text(fields[i].0.as_str(), name) {
            return Some(i);
        }
        i = i + 1;
    }
    None
}

impl JsonView {
    /// The value of the field of that name: `None` for a document that is no
    /// object, and for an object without the field.
    pub open spec fn field(self, name: Seq<char>) -> Option<JsonView> {
        match self {
            JsonView::Object(fields) => lookup(fields, name),
            _ => None,
        }
    }

    /// The text of a document that is a text.
    pub open spec fn text(self) -> Option<Seq<char>> {
        match self {
            JsonView::Text(s) => Some(s),
            _ => None,
        }
    }

    /// The truth value of a document that is one.
    pub open spec fn truth(self) -> Option<bool> {
        match self {
            JsonView::Bool(b) => Some(b),
            _ => None,
        }
    }

    /// The items of a document that is an array.
    pub open spec fn items(self) -> Option<Seq<JsonView>> {
        match self {
            JsonView::Array(items) => Some(items),
            _ => None,
        }
    }

    /// The text of the field of that name; `default` where the document has no
    /// such field or the field holds no text.
    pub open spec fn text_at(self, name: Seq<char>, default: Seq<char>) -> Seq<char> {
        match self.field(name) {
            Some(JsonView::Text(s)) => s,
            _ => default,
        }
    }

    /// The truth value of the field of that name; `default` where the document
    /// has no such field or the field holds no truth value.
    pub open spec fn truth_at(self, name: Seq<char>, default: bool) -> bool {
        match self.field(name) {
            Some(JsonView::Bool(b)) => b,
            _ => default,
        }
    }

    /// An object with the field set; a document that is no object unchanged.
    pub open spec fn with_field(self, name: Seq<char>, value: JsonView) -> JsonView {
        match self {
            JsonView::Object(fields) => JsonView::Object(put(fields, name, value)),
            _ => self,
        }
    }
}

impl Json {
    /// Reads a JSON text: the document that `serde_json` finds in it, or the
    /// message with which it refuses the text.
    pub fn parse(text: &str) -> (r: Result<Json, String>)
        ensures
            match r {
                Ok(json) => parsed_document(text@) == Ok::<JsonView, Seq<char>>(json@),
                Err(message) => parsed_document(text@) == Err::<JsonView, Seq<char>>(message@),
            },
    {
        match read_value(text) {
            Ok(value) => Ok(copy_value(&value)),
            Err(message) => Err(message),
        }
    }

    /// A text as a document.
    pub fn text(s: &str) -> (json: Json)
        ensures
            json@ == JsonView::Text(s@),
    {
        Json::Text(s.to_owned())
    }

    /// A copy of the document.
    #[verifier::loop_isolation(false)]
    pub fn duplicate(&self) -> (r: Json)
        ensures
            r@ == self@,
        decreases self,
    {
        match self {
            Json::Null => Json::Null,
            Json::Bool(b) => Json::Bool(*b),
            Json::Number(n) => Json::Number(n.clone()),
            Json::Text(s) => Json::Text(s.clone()),
            Json::Array(items) => {
                let mut copy: Vec<Json> = Vec::new();
                let mut i: usize = 0;
                while i < items.len()
                    invariant
                        0 <= i <= items.len(),
                        copy.len() == i,
                        forall|j: int| 0 <= j < i ==> (#[trigger] copy[j])@ == items[j]@,
                    decreases items.len() - i,
                {
                    copy.push(items[i].duplicate());
                    i = i + 1;
                }
                proof {
                    lemma_array_view(*items);
                    lemma_array_view(copy);
                    assert(item_views(copy@) =~= item_views(items@));
                }
                Json::Array(copy)
            },
            Json::Object(fields) => {
                let mut copy: Vec<(String, Json)> = Vec::new();
                let mut i: usize = 0;
                while i < fields.len()
                    invariant
                        0 <= i <= fields.len(),
                        copy.len() == i,
                        forall|j: int|
                            0 <= j < i ==> (#[trigger] copy[j]).0@ == fields[j].0@ && copy[j].1@
                                == fields[j].1@,
                    decreases fields.len() - i,
                {
                    copy.push((fields[i].0.clone(), fields[i].1.duplicate()));
                    i = i + 1;
                }
                proof {
                    lemma_object_view(*fields);
                    lemma_object_view(copy);
                    assert(field_views(copy@) =~= field_views(fields@));
                }
                Json::Object(copy)
            },
        }
    }

    /// Whether the document is an object.
    pub fn is_object(&self) -> (b: bool)
        ensures
            b == (self@ is Object),
    {
        match self {
            Json::Object(_) => true,
            _ => false,
        }
    }

    /// The field of that name, where the document is an object that has one.
    pub fn get(&self, name: &str) -> (r: Option<&Json>)
        ensures
            match r {
                Some(found) => self@.field(name@) == Some(found@),
                None => self@.field(name@) is None,
            },
    {
        match self {
            Json::Object(fields) => {
                proof {
                    lemma_object_view(*fields);
                }
                let ghost all = field_views(fields@);
                match position(fields, name) {
                    Some(at) => {
                        proof {
                            assert forall|j: int| 0 <= j < at implies (#[trigger] all[j]).0
                                != name@ by {
                                assert(fields[j].0@ != name@);
                            }
                            lemma_first_field(all, name@, JsonView::Null, at as int);
                        }
                        Some(&fields[at].1)
                    },
                    None => {
                        proof {
                            assert forall|j: int| 0 <= j < all.len() implies (#[trigger] all[j]).0
                                != name@ by {
                                assert(fields[j].0@ != name@);
                            }
                            lemma_no_field(all, name@, JsonView::Null);
                        }
                        None
                    },
                }
            },
            _ => None,
        }
    }

    /// The text of the document, where it is one.
    pub fn as_str(&self) -> (r: Option<&str>)
        ensures
            r.deep_view() == self@.text(),
    {
        match self {
            Json::Text(s) => Some(s.as_str()),
            _ => None,
        }
    }

    /// The truth value of the document, where it is one.
    pub fn as_bool(&self) -> (r: Option<bool>)
        ensures
            r == self@.truth(),
    {
        match self {
            Json::Bool(b) => Some(*b),
            _ => None,
        }
    }

    /// The items of the document, where it is an array.
    pub fn as_array(&self) -> (r: Option<&Vec<Json>>)
        ensures
            match r {
                Some(items) => self@.items() == Some(item_views(items@)),
                None => self@.items() is None,
            },
    {
        match self {
            Json::Array(items) => {
                proof {
                    lemma_array_view(*items);
                }
                Some(items)
            },
            _ => None,
        }
    }

    /// The text of the field of that name, or `default`.
    pub fn text_at(&self, name: &str, default: &str) -> (r: String)
        ensures
            r@ == self@.text_at(name@, default@),
    {
        match self.get(name) {
            Some(Json::Text(s)) => s.clone(),
            _ => default.to_owned(),
        }
    }

    /// The truth value of the field of that name, or `default`.
    pub fn truth_at(&self, name: &str, default: bool) -> (r: bool)
        ensures
            r == self@.truth_at(name@, default),
    {
        match self.get(name) {
            Some(Json::Bool(b)) => *b,
            _ => default,
        }
    }

    /// Sets a field of an object: the first field of that name takes the value,
    /// or the field is added at the end. A document that is no object is left as
    /// it is.
    pub fn set(&mut self, name: &str, value: Json)
        ensures
            final(self)@ == old(self)@.with_field(name@, value@),
    {
        match self {
            Json::Object(fields) => {
                proof {
                    lemma_object_view(*fields);
                }
                let ghost before = field_views(fields@);
                match position(fields, name) {
                    Some(at) => {
                        proof {
                            assert forall|j: int| 0 <= j < at implies (#[trigger] before[j]).0
                                != name@ by {
                                assert(fields[j].0@ != name@);
                            }
                            lemma_first_field(before, name@, value@, at as int);
                        }
                        fields.set(at, (name.to_owned(), value));
                        proof {
                            lemma_object_view(*fields);
                            assert(field_views(fields@) =~= before.update(
                                at as int,
                                (name@, value@),
                            ));
                        }
                    },
                    None => {
                        proof {
                            assert forall|j: int| 0 <= j < before.len() implies (
                            #[trigger] before[j]).0 != name@ by {
                                assert(fields[j].0@ != name@);
                            }
                            lemma_no_field(before, name@, value@);
                        }
                        fields.push((name.to_owned(), value));
                        proof {
                            lemma_object_view(*fields);
                            assert(field_views(fields@) =~= before.push((name@, value@)));
                        }
                    },
                }
            },
            _ => {},
        }
    }
}

} // verus!
