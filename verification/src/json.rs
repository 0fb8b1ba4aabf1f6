//! A tagged value for JSON documents, with the mathematical model that the
//! contracts of this crate speak of.

use vstd::prelude::*;
use vstd::string::*;

verus! {

/// A JSON document.
///
/// An object keeps its fields in the order in which they were written. Where a
/// key occurs more than once, the last field with that key is the one that
/// counts.
#[derive(Debug, PartialEq, Eq)]
pub enum JsonValue {
    Null,
    Bool(bool),
    /// A signed whole number.
    Int(i64),
    /// An unsigned whole number.
    UInt(u64),
    /// A binary64 number, held as its IEEE-754 bit pattern.
    Float(u64),
    Str(String),
    Array(Vec<JsonValue>),
    Object(Vec<(String, JsonValue)>),
}

/// The mathematical model of a JSON document.
pub enum JsonModel {
    Null,
    Bool(bool),
    /// A whole number.
    Number(int),
    /// A binary64 number, as its IEEE-754 bit pattern.
    Float(u64),
    Str(Seq<char>),
    Array(Seq<JsonModel>),
    Object(Seq<(Seq<char>, JsonModel)>),
}

impl JsonValue {
    /// The mathematical model of this document.
    pub open spec fn model(&self) -> JsonModel
        decreases self,
    {
        match self {
            JsonValue::Null => JsonModel::Null,
            JsonValue::Bool(b) => JsonModel::Bool(*b),
            JsonValue::Int(n) => JsonModel::Number(*n as int),
            JsonValue::UInt(n) => JsonModel::Number(*n as int),
            JsonValue::Float(bits) => JsonModel::Float(*bits),
            JsonValue::Str(s) => JsonModel::Str(s@),
            JsonValue::Array(items) => JsonModel::Array(
                Seq::new(
                    items@.len(),
                    |i: int|
                        if 0 <= i < items@.len() {
                            items@[i].model()
                        } else {
                            JsonModel::Null
                        },
                ),
            ),
            JsonValue::Object(fields) => JsonModel::Object(
                Seq::new(
                    fields@.len(),
                    |i: int|
                        if 0 <= i < fields@.len() {
                            (fields@[i].0@, fields@[i].1.model())
                        } else {
                            (Seq::empty(), JsonModel::Null)
                        },
                ),
            ),
        }
    }
}

impl View for JsonValue {
    type V = JsonModel;

    open spec fn view(&self) -> JsonModel {
        self.model()
    }
}

/// The models of a sequence of documents.
pub open spec fn items_view(items: Seq<JsonValue>) -> Seq<JsonModel> {
    Seq::new(items.len(), |i: int| items[i]@)
}

/// The models of a sequence of object fields.
pub open spec fn fields_view(fields: Seq<(String, JsonValue)>) -> Seq<(Seq<char>, JsonModel)> {
    Seq::new(fields.len(), |i: int| (fields[i].0@, fields[i].1@))
}

/// The views of a sequence of strings.
pub open spec fn strings_view(items: Seq<String>) -> Seq<Seq<char>> {
    Seq::new(items.len(), |i: int| items[i]@)
}

/// The views of a sequence of string pairs.
pub open spec fn pairs_view(pairs: Seq<(String, String)>) -> Seq<(Seq<char>, Seq<char>)> {
    Seq::new(pairs.len(), |i: int| (pairs[i].0@, pairs[i].1@))
}

/// The view of an optional string.
pub open spec fn option_text(s: Option<String>) -> Option<Seq<char>> {
    match s {
        Some(s) => Some(s@),
        None => None,
    }
}

/// The model of an optional document.
pub open spec fn option_json(v: Option<&JsonValue>) -> Option<JsonModel> {
    match v {
        Some(v) => Some(v@),
        None => None,
    }
}

/// The value of the last field named `key`, if there is one.
pub open spec fn find_field(fields: Seq<(Seq<char>, JsonModel)>, key: Seq<char>) -> Option<
    JsonModel,
>
    decreases fields.len(),
{
    if fields.len() == 0 {
        None
    } else if fields.last().0 == key {
        Some(fields.last().1)
    } else {
        find_field(fields.drop_last(), key)
    }
}

/// The field `key` of the document, where there is a document.
pub open spec fn at_key(value: Option<JsonModel>, key: Seq<char>) -> Option<JsonModel> {
    match value {
        Some(v) => v.member(key),
        None => None,
    }
}

/// The item at `index` of the document, where there is a document.
pub open spec fn at_index(value: Option<JsonModel>, index: int) -> Option<JsonModel> {
    match value {
        Some(v) => v.element(index),
        None => None,
    }
}

/// The text of the document, where there is a document and it is a string.
pub open spec fn text_at(value: Option<JsonModel>) -> Option<Seq<char>> {
    match value {
        Some(v) => v.as_str(),
        None => None,
    }
}

/// `item` if `present`, else nothing.
pub open spec fn only_if(present: bool, item: JsonModel) -> Seq<JsonModel> {
    if present {
        seq![item]
    } else {
        Seq::empty()
    }
}

/// The array whose items are the given texts.
pub open spec fn text_array(items: Seq<Seq<char>>) -> JsonModel {
    JsonModel::Array(Seq::new(items.len(), |i: int| JsonModel::Str(items[i])))
}

impl JsonModel {
    /// The text of a string document; nothing for any other document.
    pub open spec fn as_str(self) -> Option<Seq<char>> {
        match self {
            JsonModel::Str(s) => Some(s),
            _ => None,
        }
    }

    /// The items of an array; nothing for any other document.
    pub open spec fn as_array(self) -> Option<Seq<JsonModel>> {
        match self {
            JsonModel::Array(items) => Some(items),
            _ => None,
        }
    }

    /// The value of the field `key` of an object; nothing where the document
    /// is no object or has no such field.
    pub open spec fn member(self, key: Seq<char>) -> Option<JsonModel> {
        match self {
            JsonModel::Object(fields) => find_field(fields, key),
            _ => None,
        }
    }

    /// The item at `index` of an array; nothing where the document is no
    /// array or is shorter.
    pub open spec fn element(self, index: int) -> Option<JsonModel> {
        match self {
            JsonModel::Array(items) => if 0 <= index < items.len() {
                Some(items[index])
            } else {
                None
            },
            _ => None,
        }
    }

    /// The keys of an object, in the order of its fields.
    pub open spec fn keys(self) -> Seq<Seq<char>> {
        match self {
            JsonModel::Object(fields) => Seq::new(fields.len(), |i: int| fields[i].0),
            _ => Seq::empty(),
        }
    }
}

/// The model of an array is the sequence of its items' models.
pub proof fn lemma_array_view(items: Vec<JsonValue>)
    ensures
        JsonValue::Array(items)@ == JsonModel::Array(items_view(items@)),
{
    assert(JsonValue::Array(items)@->Array_0 =~= items_view(items@));
}

/// The model of an object is the sequence of its fields' models.
pub proof fn lemma_object_view(fields: Vec<(String, JsonValue)>)
    ensures
        JsonValue::Object(fields)@ == JsonModel::Object(fields_view(fields@)),
{
    assert(JsonValue::Object(fields)@->Object_0 =~= fields_view(fields@));
}

impl JsonValue {
    /// A string document with the text of `s`.
    pub fn text(s: &str) -> (r: JsonValue)
        ensures
            r@ == JsonModel::Str(s@),
    {
        JsonValue::Str(s.to_owned())
    }

    /// An array document with the given items.
    pub fn array(items: Vec<JsonValue>) -> (r: JsonValue)
        ensures
            r@ == JsonModel::Array(items_view(items@)),
    {
        proof {
            lemma_array_view(items);
        }
        JsonValue::Array(items)
    }

    /// An object document with the given fields.
    pub fn object(fields: Vec<(String, JsonValue)>) -> (r: JsonValue)
        ensures
            r@ == JsonModel::Object(fields_view(fields@)),
    {
        proof {
            lemma_object_view(fields);
        }
        JsonValue::Object(fields)
    }

    /// An array document of string documents, one for each text.
    pub fn text_array(items: &Vec<String>) -> (r: JsonValue)
        ensures
            r@ == text_array(strings_view(items@)),
    {
        let mut docs: Vec<JsonValue> = Vec::new();
        let mut i: usize = 0;
        while i < items.len()
            invariant
                i <= items.len(),
                docs@.len() == i,
                forall|j: int| 0 <= j < i ==> (#[trigger] docs@[j])@ == JsonModel::Str(items@[j]@),
            decreases items.len() - i,
        {
            docs.push(JsonValue::text(items[i].as_str()));
            i += 1;
        }
        let r = JsonValue::array(docs);
        assert(r@->Array_0 =~= text_array(strings_view(items@))->Array_0);
        r
    }

    /// The text of a string document; nothing for any other document.
    pub fn as_str(&self) -> (r: Option<&str>)
        ensures
            match r {
                Some(s) => self@.as_str() == Some(s@),
                None => self@.as_str() is None,
            },
    {
        match self {
            JsonValue::Str(s) => Some(s.as_str()),
            _ => None,
        }
    }

    /// The items of an array; nothing for any other document.
    pub fn as_array(&self) -> (r: Option<&Vec<JsonValue>>)
        ensures
            match r {
                Some(items) => self@.as_array() == Some(items_view(items@)),
                None => self@.as_array() is None,
            },
    {
        match self {
            JsonValue::Array(items) => {
                proof {
                    lemma_array_view(*items);
                }
                Some(items)
            },
            _ => None,
        }
    }

    /// The value of the field `key` of an object; nothing where the document
    /// is no object or has no such field.
    pub fn member(&self, key: &str) -> (r: Option<&JsonValue>)
        ensures
            option_json(r) == self@.member(key@),
    {
        match self {
            JsonValue::Object(fields) => {
                proof {
                    lemma_object_view(*fields);
                }
                lookup(fields, key)
            },
            _ => None,
        }
    }

    /// The item at `index` of an array; nothing where the document is no
    /// array or is shorter.
    pub fn element(&self, index: usize) -> (r: Option<&JsonValue>)
        ensures
            option_json(r) == self@.element(index as int),
    {
        match self {
            JsonValue::Array(items) => {
                proof {
                    lemma_array_view(*items);
                }
                if index < items.len() {
                    Some(&items[index])
                } else {
                    None
                }
            },
            _ => None,
        }
    }
}

impl Clone for JsonValue {
    /// A document with the same model.
    fn clone(&self) -> (r: JsonValue)
        ensures
            r@ == self@,
        decreases self,
    {
        match self {
            JsonValue::Null => JsonValue::Null,
            JsonValue::Bool(b) => JsonValue::Bool(*b),
            JsonValue::Int(n) => JsonValue::Int(*n),
            JsonValue::UInt(n) => JsonValue::UInt(*n),
            JsonValue::Float(bits) => JsonValue::Float(*bits),
            JsonValue::Str(s) => JsonValue::Str(s.clone()),
            JsonValue::Array(items) => {
                let mut copies: Vec<JsonValue> = Vec::new();
                let mut i: usize = 0;
                while i < items.len()
                    invariant
                        i <= items.len(),
                        *self == JsonValue::Array(*items),
                        copies@.len() == i,
                        forall|j: int| 0 <= j < i ==> (#[trigger] copies@[j])@ == items@[j]@,
                    decreases items.len() - i,
                {
                    assert(decreases_to!(*self => self->Array_0));
                    assert(decreases_to!(*self => items@[i as int]));
                    copies.push(items[i].clone());
                    i += 1;
                }
                proof {
                    lemma_array_view(*items);
                    lemma_array_view(copies);
                    assert(items_view(copies@) =~= items_view(items@));
                }
                JsonValue::Array(copies)
            },
            JsonValue::Object(fields) => {
                let mut copies: Vec<(String, JsonValue)> = Vec::new();
                let mut i: usize = 0;
                while i < fields.len()
                    invariant
                        i <= fields.len(),
                        *self == JsonValue::Object(*fields),
                        copies@.len() == i,
                        forall|j: int|
                            0 <= j < i ==> (#[trigger] copies@[j]).0@ == fields@[j].0@
                                && copies@[j].1@ == fields@[j].1@,
                    decreases fields.len() - i,
                {
                    assert(decreases_to!(*self => self->Object_0));
                    assert(decreases_to!(*self => fields@[i as int]));
                    assert(decreases_to!(*self => fields@[i as int].1));
                    copies.push((fields[i].0.clone(), fields[i].1.clone()));
                    i += 1;
                }
                proof {
                    lemma_object_view(*fields);
                    lemma_object_view(copies);
                    assert(fields_view(copies@) =~= fields_view(fields@));
                }
                JsonValue::Object(copies)
            },
        }
    }
}

/// The value of the last field named `key`, if there is one.
pub fn lookup<'a>(fields: &'a Vec<(String, JsonValue)>, key: &str) -> (r: Option<&'a JsonValue>)
    ensures
        option_json(r) == find_field(fields_view(fields@), key@),
{
    let wanted = key.to_owned();
    let mut i: usize = fields.len();
    assert(fields_view(fields@).take(i as int) =~= fields_view(fields@));
    while i > 0
        invariant
            i <= fields.len(),
            wanted@ == key@,
            find_field(fields_view(fields@), key@) == find_field(
                fields_view(fields@).take(i as int),
                key@,
            ),
        decreases i,
    {
        let ghost prefix = fields_view(fields@).take(i as int);
        assert(prefix.last() == fields_view(fields@)[i - 1]);
        assert(prefix.drop_last() =~= fields_view(fields@).take(i - 1));
        if fields[i - 1].0 == wanted {
            return Some(&fields[i - 1].1);
        }
        i -= 1;
    }
    assert(fields_view(fields@).take(0).len() == 0);
    None
}

/// The field `key` of the document, where there is a document.
pub fn field_of<'a>(value: Option<&'a JsonValue>, key: &str) -> (r: Option<&'a JsonValue>)
    ensures
        option_json(r) == at_key(option_json(value), key@),
{
    match value {
        Some(v) => v.member(key),
        None => None,
    }
}

/// The item at `index` of the document, where there is a document.
pub fn item_of<'a>(value: Option<&'a JsonValue>, index: usize) -> (r: Option<&'a JsonValue>)
    ensures
        option_json(r) == at_index(option_json(value), index as int),
{
    match value {
        Some(v) => v.element(index),
        None => None,
    }
}

/// The text of the document, where there is a document and it is a string.
pub fn text_of<'a>(value: Option<&'a JsonValue>) -> (r: Option<&'a str>)
    ensures
        match r {
            Some(s) => text_at(option_json(value)) == Some(s@),
            None => text_at(option_json(value)) is None,
        },
{
    match value {
        Some(v) => v.as_str(),
        None => None,
    }
}

/// Appends the field `key: value` to a list of object fields.
pub fn push_field(fields: &mut Vec<(String, JsonValue)>, key: &str, value: JsonValue)
    ensures
        fields_view(final(fields)@) == fields_view(old(fields)@).push((key@, value@)),
{
    fields.push((key.to_owned(), value));
    assert(fields_view(fields@) =~= fields_view(old(fields)@).push((key@, value@)));
}

/// Appends a document to a list of array items.
pub fn push_item(items: &mut Vec<JsonValue>, value: JsonValue)
    ensures
        items_view(final(items)@) == items_view(old(items)@).push(value@),
{
    items.push(value);
    assert(items_view(items@) =~= items_view(old(items)@).push(value@));
}

} // verus!
