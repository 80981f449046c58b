//! JSON values as plain data, parsed and printed by serde_json.
use vstd::prelude::*;
use crate::text::same_text;

verus! {

/// A JSON value; numbers keep their text form.
#[derive(Debug)]
pub enum JsonValue {
    Null,
    Bool(bool),
    Number(String),
    Str(String),
    Array(Vec<JsonValue>),
    Object(Vec<(String, JsonValue)>),
}

/// The meaning of a JSON value: texts as character sequences.
pub enum JsonView {
    Null,
    Bool(bool),
    Number(Seq<char>),
    Str(Seq<char>),
    Array(Seq<JsonView>),
    Object(Seq<(Seq<char>, JsonView)>),
}

/// The view of a JSON value.
pub open spec fn view_of(v: JsonValue) -> JsonView
    decreases v,
{
    match v {
        JsonValue::Null => JsonView::Null,
        JsonValue::Bool(b) => JsonView::Bool(b),
        JsonValue::Number(n) => JsonView::Number(n@),
        JsonValue::Str(s) => JsonView::Str(s@),
        JsonValue::Array(items) => JsonView::Array(
            Seq::new(
                items@.len(),
                |i: int|
                    if 0 <= i < items@.len() {
                        view_of(items@[i])
                    } else {
                        JsonView::Null
                    },
            ),
        ),
        JsonValue::Object(fields) => JsonView::Object(
            Seq::new(
                fields@.len(),
                |i: int|
                    if 0 <= i < fields@.len() {
                        (fields@[i].0@, view_of(fields@[i].1))
                    } else {
                        (Seq::empty(), JsonView::Null)
                    },
            ),
        ),
    }
}

/// serde_json's dynamic JSON value, carried through the conversions only.
#[verifier::external_type_specification]
#[verifier::external_body]
pub struct ExValue(serde_json::Value);

/// What serde_json parses a text into, if it is JSON.
pub uninterp spec fn json_parse_of(text: Seq<char>) -> Option<JsonView>;

/// How serde_json prints a value.
pub uninterp spec fn json_text_of(v: JsonView) -> Seq<char>;

/// Relies on serde_json::from_str: the value a JSON text denotes; members of
/// an object come sorted by key, each key once.
#[verifier::external_body]
pub fn parse_json(text: &str) -> (r: Option<JsonValue>)
    ensures
        r is None <==> json_parse_of(text@) is None,
        r matches Some(v) ==> json_parse_of(text@) == Some(view_of(v)),
{
    serde_json::from_str::<serde_json::Value>(text).ok().map(|v| JsonValue::from_serde(v))
}

/// Relies on serde_json::to_string: the compact JSON text of a value.
#[verifier::external_body]
pub fn print_json(v: &JsonValue) -> (r: String)
    ensures
        r@ == json_text_of(view_of(*v)),
{
    serde_json::Value::to_string(&v.to_serde())
}

impl JsonValue {
    /// Converts a serde_json value, variant for variant.
    #[verifier::external_body]
    fn from_serde(v: serde_json::Value) -> JsonValue {
        match v {
            serde_json::Value::Null => JsonValue::Null,
            serde_json::Value::Bool(b) => JsonValue::Bool(b),
            serde_json::Value::Number(n) => JsonValue::Number(n.to_string()),
            serde_json::Value::String(s) => JsonValue::Str(s),
            serde_json::Value::Array(a) => JsonValue::Array(a.into_iter().map(JsonValue::from_serde).collect()),
            serde_json::Value::Object(m) => JsonValue::Object(m.into_iter().map(|(k, v)| (k, JsonValue::from_serde(v))).collect()),
        }
    }

    /// Converts to a serde_json value, variant for variant.
    #[verifier::external_body]
    fn to_serde(&self) -> serde_json::Value {
        match self {
            JsonValue::Null => serde_json::Value::Null,
            JsonValue::Bool(b) => serde_json::Value::Bool(*b),
            JsonValue::Number(n) => serde_json::from_str(n).unwrap_or(serde_json::Value::Null),
            JsonValue::Str(s) => serde_json::Value::String(s.clone()),
            JsonValue::Array(a) => serde_json::Value::Array(a.iter().map(JsonValue::to_serde).collect()),
            JsonValue::Object(m) => serde_json::Value::Object(m.iter().map(|(k, v)| (k.clone(), v.to_serde())).collect()),
        }
    }
}

/// The first member of `fields` named `name`.
pub open spec fn member_of(fields: Seq<(Seq<char>, JsonView)>, name: Seq<char>) -> Option<JsonView>
    decreases fields.len(),
{
    if fields.len() == 0 {
        None
    } else if fields[0].0 == name {
        Some(fields[0].1)
    } else {
        member_of(fields.drop_first(), name)
    }
}

/// The member `name` of an object value; none for other values.
pub open spec fn get_spec(v: JsonView, name: Seq<char>) -> Option<JsonView> {
    match v {
        JsonView::Object(fields) => member_of(fields, name),
        _ => None,
    }
}

/// Looks up member `name` of an object value.
pub fn get<'a>(v: &'a JsonValue, name: &str) -> (r: Option<&'a JsonValue>)
    ensures
        r matches Some(x) ==> get_spec(view_of(*v), name@) == Some(view_of(*x)),
        r is None ==> get_spec(view_of(*v), name@) is None,
{
    match v {
        JsonValue::Object(fields) => {
            let ghost views = match view_of(*v) {
                JsonView::Object(x) => x,
                _ => Seq::empty(),
            };
            assert(view_of(*v) == JsonView::Object(views));
            let mut i: usize = 0;
            assert(views.subrange(0, views.len() as int) == views);
            while i < fields.len()
                invariant
                    i <= fields@.len(),
                    views.len() == fields@.len(),
                    forall|k: int| 0 <= k < fields@.len() ==> #[trigger] views[k] == (fields@[k].0@, view_of(fields@[k].1)),
                    get_spec(view_of(*v), name@) == member_of(views, name@),
                    member_of(views, name@) == member_of(views.subrange(i as int, views.len() as int), name@),
                decreases fields@.len() - i,
            {
                let ghost rest = views.subrange(i as int, views.len() as int);
                assert(rest.drop_first() == views.subrange(i + 1, views.len() as int));
                assert(rest[0] == views[i as int]);
                if same_text(fields[i].0.as_str(), name) {
                    return Some(&fields[i].1);
                }
                i += 1;
            }
            None
        },
        _ => None,
    }
}

/// The text of a string value.
pub open spec fn str_spec(v: Option<JsonView>) -> Option<Seq<char>> {
    match v {
        Some(JsonView::Str(s)) => Some(s),
        _ => None,
    }
}

/// A value and its view are of the same kind.
pub proof fn lemma_view_of_kind(v: JsonValue)
    ensures
        (view_of(v) is Str) <==> (v is Str),
        (view_of(v) is Array) <==> (v is Array),
        (view_of(v) is Object) <==> (v is Object),
        (view_of(v) is Null) <==> (v is Null),
        (view_of(v) is Bool) <==> (v is Bool),
        v matches JsonValue::Str(s) ==> view_of(v) == JsonView::Str(s@),
        v matches JsonValue::Bool(b) ==> view_of(v) == JsonView::Bool(b),
{
    match v {
        JsonValue::Null => {},
        JsonValue::Bool(_) => {},
        JsonValue::Number(_) => {},
        JsonValue::Str(_) => {},
        JsonValue::Array(_) => {},
        JsonValue::Object(_) => {},
    }
}

/// The views of an object's members.
pub open spec fn members_view(fields: Seq<(String, JsonValue)>) -> Seq<(Seq<char>, JsonView)> {
    Seq::new(fields.len(), |i: int| (fields[i].0@, view_of(fields[i].1)))
}

/// The views of an array's items.
pub open spec fn items_view(items: Seq<JsonValue>) -> Seq<JsonView> {
    Seq::new(items.len(), |i: int| view_of(items[i]))
}

/// The view of an object is the object of its members' views.
pub proof fn lemma_view_of_object(fields: Vec<(String, JsonValue)>)
    ensures
        view_of(JsonValue::Object(fields)) == JsonView::Object(members_view(fields@)),
{
    let v = JsonValue::Object(fields);
    let a = match view_of(v) {
        JsonView::Object(x) => x,
        _ => Seq::empty(),
    };
    assert(a =~= members_view(fields@));
}

/// The view of an array is the array of its items' views.
pub proof fn lemma_view_of_array(items: Vec<JsonValue>)
    ensures
        view_of(JsonValue::Array(items)) == JsonView::Array(items_view(items@)),
{
    let v = JsonValue::Array(items);
    let a = match view_of(v) {
        JsonView::Array(x) => x,
        _ => Seq::empty(),
    };
    assert(a =~= items_view(items@));
}

/// Removes the first member named `name` and returns its value.
pub fn take_first(fields: Vec<(String, JsonValue)>, name: &str) -> (r: Option<JsonValue>)
    ensures
        r matches Some(x) ==> member_of(members_view(fields@), name@) == Some(view_of(x)),
        r is None ==> member_of(members_view(fields@), name@) is None,
{
    let ghost views = members_view(fields@);
    let mut i: usize = 0;
    assert(views.subrange(0, views.len() as int) == views);
    while i < fields.len()
        invariant
            i <= fields@.len(),
            views == members_view(fields@),
            member_of(views, name@) == member_of(views.subrange(i as int, views.len() as int), name@),
        decreases fields@.len() - i,
    {
        let ghost rest = views.subrange(i as int, views.len() as int);
        assert(rest.drop_first() == views.subrange(i + 1, views.len() as int));
        assert(rest[0] == views[i as int]);
        if same_text(fields[i].0.as_str(), name) {
            let mut fields = fields;
            let (_, x) = fields.remove(i);
            return Some(x);
        }
        i += 1;
    }
    None
}

} // verus!
