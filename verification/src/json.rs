//! JSON values as plain data, and their reading from text.
use vstd::prelude::*;

verus! {

/// A JSON number. A number that is no 64-bit integer is kept as the bits of its IEEE 754
/// double-precision value.
#[derive(Debug, Clone, Copy, PartialEq, Eq)]
pub enum JsonNumber {
    /// An integer from zero up.
    PosInt(u64),
    /// An integer below zero.
    NegInt(i64),
    /// The bits of any other number.
    Float(u64),
}

/// A JSON value. The fields of an object stand in the order in which they were put in; those of a
/// value that was read from text, or taken from `serde_json`, in the order of its map.
#[derive(Debug, PartialEq, Eq)]
pub enum Json {
    Null,
    Bool(bool),
    Number(JsonNumber),
    Str(String),
    Array(Vec<Json>),
    Object(Vec<(String, Json)>),
}

/// What a [`Json`] value holds.
pub enum JsonView {
    Null,
    Bool(bool),
    Number(JsonNumber),
    Str(Seq<char>),
    Array(Seq<JsonView>),
    Object(Seq<(Seq<char>, JsonView)>),
}

impl JsonView {
    /// The element at position `idx` of an array; nothing of any other value.
    pub open spec fn at(self, idx: int) -> Option<JsonView> {
        match self {
            JsonView::Array(items) => if 0 <= idx < items.len() {
                Some(items[idx])
            } else {
                None
            },
            _ => None,
        }
    }

    /// The value of an object's first field of that name; nothing of any other value.
    pub open spec fn field(self, name: Seq<char>) -> Option<JsonView> {
        match self {
            JsonView::Object(fields) => first_field(fields, name),
            _ => None,
        }
    }

    /// The text of a string; nothing of any other value.
    pub open spec fn text(self) -> Option<Seq<char>> {
        match self {
            JsonView::Str(text) => Some(text),
            _ => None,
        }
    }

    /// The elements of an array; nothing of any other value.
    pub open spec fn items(self) -> Option<Seq<JsonView>> {
        match self {
            JsonView::Array(items) => Some(items),
            _ => None,
        }
    }

    /// The value of a number that is an integer from 0 to `u64::MAX`; nothing of any other value.
    pub open spec fn integer(self) -> Option<u64> {
        match self {
            JsonView::Number(JsonNumber::PosInt(n)) => Some(n),
            _ => None,
        }
    }
}

/// The value beside the first occurrence of `name`.
pub open spec fn first_field(fields: Seq<(Seq<char>, JsonView)>, name: Seq<char>) -> Option<
    JsonView,
>
    decreases fields.len(),
{
    if fields.len() == 0 {
        None
    } else if fields[0].0 == name {
        Some(fields[0].1)
    } else {
        first_field(fields.drop_first(), name)
    }
}

impl Json {
    /// What the value holds.
    pub open spec fn model(self) -> JsonView
        decreases self,
    {
        match self {
            Json::Null => JsonView::Null,
            Json::Bool(b) => JsonView::Bool(b),
            Json::Number(n) => JsonView::Number(n),
            Json::Str(s) => JsonView::Str(s@),
            Json::Array(items) => JsonView::Array(
                Seq::new(
                    items@.len(),
                    |i: int|
                        if 0 <= i < items@.len() {
                            items@[i].model()
                        } else {
                            JsonView::Null
                        },
                ),
            ),
            Json::Object(fields) => JsonView::Object(
                Seq::new(
                    fields@.len(),
                    |i: int|
                        if 0 <= i < fields@.len() {
                            (fields@[i].0@, fields@[i].1.model())
                        } else {
                            (Seq::empty(), JsonView::Null)
                        },
                ),
            ),
        }
    }
}

impl View for Json {
    type V = JsonView;

    open spec fn view(&self) -> JsonView {
        self.model()
    }
}

impl DeepView for Json {
    type V = JsonView;

    open spec fn deep_view(&self) -> JsonView {
        self@
    }
}

/// `serde_json::Value`, carried without looking inside.
#[verifier::external_type_specification]
#[verifier::external_body]
pub struct ExValue(serde_json::Value);

/// What a `serde_json::Value` holds.
pub uninterp spec fn value_model(value: serde_json::Value) -> JsonView;

/// The value of a JSON text, or else, where the text is no JSON, is nested too deeply, or holds a
/// number that is out of range, the parser's description of what is wrong with it.
pub uninterp spec fn json_of_text(text: Seq<char>) -> Result<JsonView, Seq<char>>;

/// The outermost layer of a `serde_json::Value`.
enum Layer {
    Null,
    Bool(bool),
    Number(JsonNumber),
    Str(String),
    Array(Vec<serde_json::Value>),
    Object(Vec<(String, serde_json::Value)>),
}

impl Layer {
    spec fn model(self) -> JsonView {
        match self {
            Layer::Null => JsonView::Null,
            Layer::Bool(b) => JsonView::Bool(b),
            Layer::Number(n) => JsonView::Number(n),
            Layer::Str(s) => JsonView::Str(s@),
            Layer::Array(items) => JsonView::Array(
                Seq::new(items@.len(), |i: int| value_model(items@[i])),
            ),
            Layer::Object(fields) => JsonView::Object(
                Seq::new(fields@.len(), |i: int| (fields@[i].0@, value_model(fields@[i].1))),
            ),
        }
    }
}

/// The variants of `serde_json::Value`: each becomes the layer of the same name with the same
/// contents, the fields of an object in the order of its map.
#[verifier::external_body]
fn open_value(value: serde_json::Value) -> (layer: Layer)
    ensures
        layer.model() == value_model(value),
{
    match value {
        serde_json::Value::Null => Layer::Null,
        serde_json::Value::Bool(b) => Layer::Bool(b),
        serde_json::Value::Number(n) => Layer::Number(match (n.as_u64(), n.as_i64()) {
            (Some(n), _) => JsonNumber::PosInt(n),
            (None, Some(n)) => JsonNumber::NegInt(n),
            (None, None) => JsonNumber::Float(n.as_f64().unwrap_or_default().to_bits()),
        }),
        serde_json::Value::String(s) => Layer::Str(s),
        serde_json::Value::Array(items) => Layer::Array(items),
        serde_json::Value::Object(fields) => Layer::Object(fields.into_iter().collect()),
    }
}

/// `serde_json::from_str` at `serde_json::Value`; an error comes as its `Display` text.
#[verifier::external_body]
fn value_from_text(text: &str) -> (parsed: Result<serde_json::Value, String>)
    ensures
        match parsed {
            Ok(value) => json_of_text(text@) == Ok::<JsonView, Seq<char>>(value_model(value)),
            Err(detail) => json_of_text(text@) == Err::<JsonView, Seq<char>>(detail@),
        },
{
    serde_json::from_str(text).map_err(|error| error.to_string())
}

impl Json {
    /// The same value as plain data.
    pub fn from_value(value: serde_json::Value) -> (json: Json)
        ensures
            json@ == value_model(value),
        decreases value_model(value),
    {
        let ghost whole = value_model(value);
        match open_value(value) {
            Layer::Null => Json::Null,
            Layer::Bool(b) => Json::Bool(b),
            Layer::Number(n) => Json::Number(n),
            Layer::Str(s) => Json::Str(s),
            Layer::Array(items) => {
                let ghost models = Seq::new(items@.len(), |i: int| value_model(items@[i]));
                assert(whole == JsonView::Array(models));
                let mut out: Vec<Json> = Vec::new();
                for item in it: items
                    invariant
                        whole == value_model(value),
                        whole == JsonView::Array(models),
                        models.len() == it.seq().len(),
                        forall|i: int|
                            0 <= i < models.len() ==> models[i] == value_model(it.seq()[i]),
                        out@.len() == it.index(),
                        forall|i: int| 0 <= i < out@.len() ==> (#[trigger] out@[i])@ == models[i],
                {
                    proof {
                        assert(models[it.index()] == value_model(item));
                        assert(decreases_to!(whole => whole->Array_0));
                        assert(decreases_to!(models => models[it.index()]));
                    }
                    out.push(Json::from_value(item));
                }
                let json = Json::Array(out);
                assert(json@->Array_0 =~= models);
                json
            },
            Layer::Object(fields) => {
                let ghost models = Seq::new(
                    fields@.len(),
                    |i: int| (fields@[i].0@, value_model(fields@[i].1)),
                );
                assert(whole == JsonView::Object(models));
                let mut out: Vec<(String, Json)> = Vec::new();
                for entry in it: fields
                    invariant
                        whole == value_model(value),
                        whole == JsonView::Object(models),
                        models.len() == it.seq().len(),
                        forall|i: int|
                            0 <= i < models.len() ==> models[i] == (
                                it.seq()[i].0@,
                                value_model(it.seq()[i].1),
                            ),
                        out@.len() == it.index(),
                        forall|i: int|
                            0 <= i < out@.len() ==> (
                                (#[trigger] out@[i]).0@,
                                out@[i].1@,
                            ) == models[i],
                {
                    proof {
                        assert(models[it.index()] == (entry.0@, value_model(entry.1)));
                        assert(decreases_to!(whole => whole->Object_0));
                        assert(decreases_to!(models => models[it.index()]));
                        assert(decreases_to!(models[it.index()] => models[it.index()].1));
                    }
                    let (name, inner) = entry;
                    out.push((name, Json::from_value(inner)));
                }
                let json = Json::Object(out);
                assert(json@->Object_0 =~= models);
                json
            },
        }
    }

    /// An object without fields.
    pub fn object() -> (json: Json)
        ensures
            json@ == JsonView::Object(Seq::empty()),
    {
        let json = Json::Object(Vec::new());
        assert(json@->Object_0 =~= Seq::empty());
        json
    }

    /// The object with one more field behind its others.
    pub fn with(self, name: &str, value: Json) -> (json: Json)
        requires
            self@ is Object,
        ensures
            json@ == JsonView::Object(self@->Object_0.push((name@, value@))),
    {
        match self {
            Json::Object(fields) => {
                let mut fields: Vec<(String, Json)> = fields;
                let ghost before = self@->Object_0;
                fields.push((name.to_owned(), value));
                let json = Json::Object(fields);
                assert(json@->Object_0 =~= before.push((name@, value@)));
                json
            },
            _ => self,
        }
    }

    /// Reads a JSON text, or tells what is wrong with it.
    pub fn parse(text: &str) -> (parsed: Result<Json, String>)
        ensures
            match parsed {
                Ok(json) => json_of_text(text@) == Ok::<JsonView, Seq<char>>(json@),
                Err(detail) => json_of_text(text@) == Err::<JsonView, Seq<char>>(detail@),
            },
    {
        match value_from_text(text) {
            Ok(value) => Ok(Json::from_value(value)),
            Err(detail) => Err(detail),
        }
    }

    /// The element at position `idx`, if the value is an array that has one.
    pub fn at(&self, idx: usize) -> (found: Option<&Json>)
        ensures
            match found {
                Some(json) => self@.at(idx as int) == Some(json@),
                None => self@.at(idx as int) is None,
            },
    {
        match self {
            Json::Array(items) => if idx < items.len() {
                Some(&items[idx])
            } else {
                None
            },
            _ => None,
        }
    }

    /// The first field of that name, if the value is an object that has one.
    pub fn field(&self, name: &str) -> (found: Option<&Json>)
        ensures
            match found {
                Some(json) => self@.field(name@) == Some(json@),
                None => self@.field(name@) is None,
            },
    {
        match self {
            Json::Object(fields) => {
                let wanted = name.to_owned();
                let ghost models = self@->Object_0;
                let mut i: usize = 0;
                assert(models.skip(0) =~= models);
                while i < fields.len()
                    invariant
                        i <= fields@.len(),
                        wanted@ == name@,
                        self@ == JsonView::Object(models),
                        models.len() == fields@.len(),
                        forall|j: int|
                            0 <= j < models.len() ==> models[j] == (
                                (#[trigger] fields@[j]).0@,
                                fields@[j].1@,
                            ),
                        first_field(models, name@) == first_field(models.skip(i as int), name@),
                    decreases fields@.len() - i,
                {
                    assert(models.skip(i as int)[0] == models[i as int]);
                    assert(models.skip(i as int).drop_first() =~= models.skip(i + 1));
                    if fields[i].0 == wanted {
                        return Some(&fields[i].1);
                    }
                    i = i + 1;
                }
                None
            },
            _ => None,
        }
    }

    /// The text, if the value is a string.
    pub fn as_str(&self) -> (text: Option<&String>)
        ensures
            match text {
                Some(text) => self@.text() == Some(text@),
                None => self@.text() is None,
            },
    {
        match self {
            Json::Str(text) => Some(text),
            _ => None,
        }
    }

    /// The elements, if the value is an array.
    pub fn as_array(&self) -> (items: Option<&Vec<Json>>)
        ensures
            match items {
                Some(items) => self@.items() == Some(items.deep_view()),
                None => self@.items() is None,
            },
    {
        match self {
            Json::Array(items) => {
                assert(self@->Array_0 =~= items.deep_view());
                Some(items)
            },
            _ => None,
        }
    }

    /// The number, if the value is an integer from 0 to `u64::MAX`.
    pub fn as_u64(&self) -> (number: Option<u64>)
        ensures
            number == self@.integer(),
    {
        match self {
            Json::Number(JsonNumber::PosInt(n)) => Some(*n),
            _ => None,
        }
    }
}

/// Only an array has elements, only a string a text, and only a number from zero up an integer;
/// each is what the value is made of.
pub proof fn law_json_parts(json: JsonView, idx: int)
    ensures
        json is Array ==> json.items() == Some(json->Array_0),
        !(json is Array) ==> json.items() is None,
        json is Array && 0 <= idx < json->Array_0.len() ==> json.at(idx) == Some(
            json->Array_0[idx],
        ),
        !(json is Array && 0 <= idx < json->Array_0.len()) ==> json.at(idx) is None,
        json is Str ==> json.text() == Some(json->Str_0),
        !(json is Str) ==> json.text() is None,
        json is Number && json->Number_0 is PosInt ==> json.integer() == Some(
            json->Number_0->PosInt_0,
        ),
        !(json is Number && json->Number_0 is PosInt) ==> json.integer() is None,
{
}

/// Whether `value` stands in the first field of that name.
pub open spec fn has_field(json: JsonView, name: Seq<char>, value: JsonView) -> bool {
    &&& json is Object
    &&& exists|i: int|
        0 <= i < json->Object_0.len() && #[trigger] json->Object_0[i] == (name, value) && forall|
            k: int,
        |
            0 <= k < i ==> (#[trigger] json->Object_0[k]).0 != name
}

proof fn lemma_first_field(fields: Seq<(Seq<char>, JsonView)>, name: Seq<char>) -> (at: int)
    ensures
        match first_field(fields, name) {
            Some(value) => {
                &&& 0 <= at < fields.len()
                &&& fields[at] == (name, value)
                &&& forall|k: int| 0 <= k < at ==> (#[trigger] fields[k]).0 != name
            },
            None => forall|k: int| 0 <= k < fields.len() ==> (#[trigger] fields[k]).0 != name,
        },
    decreases fields.len(),
{
    if fields.len() == 0 || fields[0].0 == name {
        0
    } else {
        let rest = fields.drop_first();
        let at = lemma_first_field(rest, name);
        assert forall|k: int| 0 < k < fields.len() implies #[trigger] fields[k] == rest[k - 1] by {}
        if first_field(rest, name) is None {
            assert forall|k: int| 0 <= k < fields.len() implies (
            #[trigger] fields[k]).0 != name by {
                if k > 0 {
                    assert(rest[k - 1].0 != name);
                }
            }
        } else {
            assert forall|k: int| 0 <= k < at + 1 implies (#[trigger] fields[k]).0 != name by {
                if k > 0 {
                    assert(rest[k - 1].0 != name);
                }
            }
        }
        at + 1
    }
}

/// A field is looked up by its name: the first of that name counts, and where there is none, or no
/// object, there is nothing.
pub proof fn law_json_field(json: JsonView, name: Seq<char>, value: JsonView)
    ensures
        json.field(name) == Some(value) <==> has_field(json, name, value),
{
    if json is Object {
        let fields = json->Object_0;
        let at = lemma_first_field(fields, name);
        if json.field(name) == Some(value) {
            assert(fields[at] == (name, value));
        }
        if has_field(json, name, value) {
            let i = choose|i: int|
                0 <= i < fields.len() && #[trigger] fields[i] == (name, value) && forall|k: int|
                    0 <= k < i ==> (#[trigger] fields[k]).0 != name;
            assert(fields[i].0 == name);
            assert(json.field(name) is Some);
            assert(fields[at].0 == name);
            assert(i == at);
        }
    }
}

/// What a value holds is what it is made of, down to its elements and fields.
pub proof fn law_json_view(json: Json, i: int)
    ensures
        json is Null ==> json@ is Null,
        json is Bool ==> json@ == JsonView::Bool(json->Bool_0),
        json is Number ==> json@ == JsonView::Number(json->Number_0),
        json is Str ==> json@ == JsonView::Str(json->Str_0@),
        json is Array ==> json@ is Array && json@->Array_0.len() == json->Array_0@.len(),
        json is Array && 0 <= i < json->Array_0@.len() ==> json@->Array_0[i] == json->Array_0@[i]@,
        json is Object ==> json@ is Object && json@->Object_0.len() == json->Object_0@.len(),
        json is Object && 0 <= i < json->Object_0@.len() ==> json@->Object_0[i] == (
            json->Object_0@[i].0@,
            json->Object_0@[i].1@,
        ),
{
}

} // verus!
