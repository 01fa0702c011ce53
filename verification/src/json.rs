use vstd::prelude::*;
use vstd::string::*;
use crate::error::ClientError;
use crate::request::{Body, BodyView};
use crate::text::texts;

verus! {

/// `serde_json::Value`: a JSON value. What one holds is known through `json_doc`
/// alone.
#[verifier::external_type_specification]
#[verifier::external_body]
pub struct ExValue(serde_json::Value);

/// `serde_json::Error`: why the serializer failed. Nothing is known of one.
#[verifier::external_type_specification]
#[verifier::external_body]
pub struct ExError(serde_json::Error);

/// A JSON document, as far as this library builds one.
pub enum JsonDoc {
    Number(int),
    Text(Seq<char>),
    List(Seq<JsonDoc>),
    Object(Map<Seq<char>, JsonDoc>),
}

/// The document that a `serde_json::Value` holds.
pub uninterp spec fn json_doc(value: serde_json::Value) -> JsonDoc;

/// The text that `serde_json::to_string` gives for a value that holds `doc`, or
/// `None` where it fails.
pub uninterp spec fn json_text(doc: JsonDoc) -> Option<Seq<char>>;

/// The members of an object that is collected from `fields`, each under its name.
pub open spec fn members(fields: Seq<(&str, serde_json::Value)>) -> Map<Seq<char>, JsonDoc>
    decreases fields.len(),
{
    if fields.len() == 0 {
        Map::empty()
    } else {
        members(fields.drop_last()).insert(fields.last().0@, json_doc(fields.last().1))
    }
}

/// No two fields have the same name.
pub open spec fn distinct_names(fields: Seq<(&str, serde_json::Value)>) -> bool {
    forall|i: int, j: int| 0 <= i < j < fields.len() ==> fields[i].0@ != fields[j].0@
}

/// The documents that a list of values holds.
pub open spec fn json_docs(items: Seq<serde_json::Value>) -> Seq<JsonDoc> {
    items.map_values(|item: serde_json::Value| json_doc(item))
}

/// `serde_json::Value::from` on a `&str`: a JSON string with the same characters.
#[verifier::external_body]
fn json_string(text: &str) -> (value: serde_json::Value)
    ensures
        json_doc(value) == JsonDoc::Text(text@),
{
    serde_json::Value::from(text)
}

/// `serde_json::Value::from` on an `i32`: a JSON number of the same value.
#[verifier::external_body]
fn json_number(n: i32) -> (value: serde_json::Value)
    ensures
        json_doc(value) == JsonDoc::Number(n as int),
{
    serde_json::Value::from(n)
}

/// `serde_json::Value::from` on a `Vec` of values: a JSON array of them, in order.
#[verifier::external_body]
fn json_array(items: Vec<serde_json::Value>) -> (value: serde_json::Value)
    ensures
        json_doc(value) == JsonDoc::List(json_docs(items@)),
{
    serde_json::Value::from(items)
}

/// `serde_json::Value::from_iter` on pairs of a name and a value: a JSON object
/// with each value under its name. Stated for distinct names only.
#[verifier::external_body]
fn json_object(fields: Vec<(&str, serde_json::Value)>) -> (value: serde_json::Value)
    ensures
        distinct_names(fields@) ==> json_doc(value) == JsonDoc::Object(members(fields@)),
{
    serde_json::Value::from_iter(fields)
}

/// `serde_json::to_string` on a value: a text, or an error, that depends on the
/// document alone. The members of an object are written in the order of their
/// names, so the order in which they were collected does not show.
#[verifier::external_body]
fn json_render(value: &serde_json::Value) -> (rendered: Result<String, serde_json::Error>)
    ensures
        match rendered {
            Ok(text) => json_text(json_doc(*value)) == Some(text@),
            Err(_) => json_text(json_doc(*value)) is None,
        },
{
    serde_json::to_string(value)
}

/// The filter of an alert: the addresses and networks to watch, under `ip`.
pub open spec fn filters_doc(ips: Seq<Seq<char>>) -> JsonDoc {
    JsonDoc::Object(
        map!["ip"@ => JsonDoc::List(ips.map_values(|ip: Seq<char>| JsonDoc::Text(ip)))],
    )
}

/// What creates an alert: its name, its filter, and the seconds it stays active.
pub open spec fn alert_doc(name: Seq<char>, ips: Seq<Seq<char>>, expires: i32) -> JsonDoc {
    JsonDoc::Object(
        map![
            "name"@ => JsonDoc::Text(name),
            "filters"@ => filters_doc(ips),
            "expires"@ => JsonDoc::Number(expires as int),
        ],
    )
}

/// What replaces the filter of an alert.
pub open spec fn alert_edit_doc(ips: Seq<Seq<char>>) -> JsonDoc {
    JsonDoc::Object(map!["filters"@ => filters_doc(ips)])
}

/// The document that creates an alert is one object of three members, whatever the
/// order in which they are named.
pub proof fn law_alert_doc_order(name: Seq<char>, ips: Seq<Seq<char>>, expires: i32)
    ensures
        alert_doc(name, ips, expires) == JsonDoc::Object(
            map![
                "expires"@ => JsonDoc::Number(expires as int),
                "filters"@ => filters_doc(ips),
                "name"@ => JsonDoc::Text(name),
            ],
        ),
        alert_doc(name, ips, expires)->Object_0.dom() =~= set!["name"@, "filters"@, "expires"@],
        alert_doc(name, ips, expires)->Object_0.len() == 3,
{
    reveal_strlit("name");
    reveal_strlit("filters");
    reveal_strlit("expires");
    assert("filters"@[0] != "expires"@[0]);
    let given = map![
        "name"@ => JsonDoc::Text(name),
        "filters"@ => filters_doc(ips),
        "expires"@ => JsonDoc::Number(expires as int),
    ];
    let sorted = map![
        "expires"@ => JsonDoc::Number(expires as int),
        "filters"@ => filters_doc(ips),
        "name"@ => JsonDoc::Text(name),
    ];
    assert(given =~= sorted);
    assert(set!["name"@, "filters"@, "expires"@].len() == 3);
}

fn filters_value(ips: &Vec<&str>) -> (value: serde_json::Value)
    ensures
        json_doc(value) == filters_doc(texts(ips@)),
{
    let mut items: Vec<serde_json::Value> = Vec::new();
    let mut i: usize = 0;
    while i < ips.len()
        invariant
            i <= ips.len(),
            items@.len() == i,
            forall|k: int| 0 <= k < i ==> json_doc(#[trigger] items@[k]) == JsonDoc::Text(ips@[k]@),
        decreases ips.len() - i,
    {
        items.push(json_string(ips[i]));
        i += 1;
    }
    assert(json_docs(items@) =~= texts(ips@).map_values(|ip: Seq<char>| JsonDoc::Text(ip)));
    let list = json_array(items);
    let fields: Vec<(&str, serde_json::Value)> = vec![("ip", list)];
    proof {
        assert(members(fields@.drop_last()) =~= Map::empty());
    }
    json_object(fields)
}

/// The body that creates an alert, as `serde_json` writes it.
pub fn alert_json(name: &str, ips: &Vec<&str>, expires: i32) -> (rendered: Result<
    String,
    serde_json::Error,
>)
    ensures
        match rendered {
            Ok(text) => json_text(alert_doc(name@, texts(ips@), expires)) == Some(text@),
            Err(_) => json_text(alert_doc(name@, texts(ips@), expires)) is None,
        },
{
    let name_value = json_string(name);
    let filters = filters_value(ips);
    let expires_value = json_number(expires);
    let fields: Vec<(&str, serde_json::Value)> = vec![
        ("name", name_value),
        ("filters", filters),
        ("expires", expires_value),
    ];
    proof {
        reveal_strlit("name");
        reveal_strlit("filters");
        reveal_strlit("expires");
        assert("filters"@[0] != "expires"@[0]);
        let first = fields@.drop_last().drop_last();
        assert(members(first.drop_last()) =~= Map::empty());
        assert(members(fields@.drop_last()) =~= members(first).insert(
            "filters"@,
            json_doc(filters),
        ));
    }
    let document = json_object(fields);
    json_render(&document)
}

/// The body that replaces the filter of an alert, as `serde_json` writes it.
pub fn alert_edit_json(ips: &Vec<&str>) -> (rendered: Result<String, serde_json::Error>)
    ensures
        match rendered {
            Ok(text) => json_text(alert_edit_doc(texts(ips@))) == Some(text@),
            Err(_) => json_text(alert_edit_doc(texts(ips@))) is None,
        },
{
    let filters = filters_value(ips);
    let fields: Vec<(&str, serde_json::Value)> = vec![("filters", filters)];
    proof {
        assert(members(fields@.drop_last()) =~= Map::empty());
    }
    let document = json_object(fields);
    json_render(&document)
}

/// The body of a request from what the serializer gave: its text as a JSON body, or
/// an encoding error where it gave none. No failure is passed over and no empty
/// body is sent in its place.
pub fn json_body(rendered: Result<String, serde_json::Error>) -> (body: Result<Body, ClientError>)
    ensures
        match rendered {
            Ok(text) => body matches Ok(b) && b@ == BodyView::Json(text@),
            Err(_) => body == Err::<Body, ClientError>(ClientError::Encoding),
        },
{
    match rendered {
        Ok(text) => Ok(Body::Json(text)),
        Err(_) => Err(ClientError::Encoding),
    }
}

} // verus!
