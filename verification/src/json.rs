//! The list as a JSON array of objects, one object per entry.

use vstd::prelude::*;
use vstd::string::StringExecFns;
use crate::item::{Item, ItemView};

verus! {

/// Declares `serde_json::Error`, the serializer's error, as a type of which
/// nothing is known.
#[verifier::external_type_specification]
#[verifier::external_body]
pub struct ExJsonError(serde_json::Error);

/// What the serializer makes of an array of objects whose fields all hold text:
/// the pretty-printed JSON text, or `None` where it fails. Each object is given
/// as its fields, in the order in which they are written: the key and the text.
pub uninterp spec fn pretty_json(objects: Seq<Seq<(Seq<char>, Seq<char>)>>) -> Option<Seq<char>>;

/// No key occurs twice among the fields of an object.
pub open spec fn distinct_keys(fields: Seq<(Seq<char>, Seq<char>)>) -> bool {
    forall|i: int, j: int|
        0 <= i < j < fields.len() ==> (#[trigger] fields[i]).0 != (#[trigger] fields[j]).0
}

/// Calls `serde_json::to_string_pretty` on a `Vec<serde_json::Value>` that holds
/// one `Value::Object` for each row; the object has one `Value::String` for each
/// pair of the row, put in with `serde_json::Map::insert` in the row's order.
/// Trusted: whether the call succeeds, and the text it then returns, depend on
/// the rows alone. With the crate's feature `preserve_order` a map keeps its
/// keys in the order of insertion, so each object is written with its fields in
/// the row's order. Nothing is claimed of when the call succeeds.
#[verifier::external_body]
fn pretty_print_objects(rows: &Vec<Vec<(String, String)>>) -> (out: Result<
    String,
    serde_json::Error,
>)
    requires
        forall|i: int| 0 <= i < rows.len() ==> distinct_keys(#[trigger] rows.deep_view()[i]),
    ensures
        match out {
            Ok(text) => pretty_json(rows.deep_view()) == Some(text@),
            Err(_) => pretty_json(rows.deep_view()) is None,
        },
{
    let mut values: Vec<serde_json::Value> = Vec::with_capacity(rows.len());
    for row in rows {
        let mut object = serde_json::Map::new();
        for (key, text) in row {
            object.insert(key.clone(), serde_json::Value::String(text.clone()));
        }
        values.push(serde_json::Value::Object(object));
    }
    serde_json::to_string_pretty(&values)
}

/// Calls `serde_json::Error`'s `to_string`: the error's own description.
/// Nothing is claimed of the text.
#[verifier::external_body]
fn describe(error: &serde_json::Error) -> String {
    error.to_string()
}

/// The list could not be written as JSON.
#[derive(Debug, Clone)]
pub struct SerializeError {
    /// What the serializer said.
    pub message: String,
}

/// The fields of the JSON object that stands for an entry, in the order in
/// which they are written.
pub open spec fn item_fields(item: ItemView) -> Seq<(Seq<char>, Seq<char>)> {
    seq![
        ("mod_filename"@, item.filename),
        ("action"@, item.action.canonical()),
        ("download_link"@, item.download_link),
    ]
}

/// The JSON objects that stand for a list: one for each entry, in list order.
pub open spec fn json_rows(items: Seq<ItemView>) -> Seq<Seq<(Seq<char>, Seq<char>)>> {
    Seq::new(items.len(), |i: int| item_fields(items[i]))
}

/// The objects follow the list: there is one for each entry, in list order, and
/// the object of an entry holds the entry's filename, the canonical text of its
/// action and its link, under the keys `mod_filename`, `action` and
/// `download_link`, in this order.
pub proof fn law_rows_follow_the_list(items: Seq<ItemView>, i: int)
    requires
        0 <= i < items.len(),
    ensures
        json_rows(items).len() == items.len(),
        json_rows(items)[i].len() == 3,
        json_rows(items)[i][0] == ("mod_filename"@, items[i].filename),
        json_rows(items)[i][1] == ("action"@, items[i].action.canonical()),
        json_rows(items)[i][2] == ("download_link"@, items[i].download_link),
{
}

/// The keys of an entry's object differ from one another.
pub proof fn lemma_item_keys_distinct(item: ItemView)
    ensures
        distinct_keys(item_fields(item)),
{
    reveal_strlit("mod_filename");
    reveal_strlit("action");
    reveal_strlit("download_link");
    assert("mod_filename"@[0] == 'm');
    assert("action"@[0] == 'a');
    assert("download_link"@[0] == 'd');
}

/// The fields of the JSON object that stands for an entry.
pub fn fields_of(item: &Item) -> (fields: Vec<(String, String)>)
    ensures
        fields.deep_view() == item_fields(item@),
{
    let mut fields: Vec<(String, String)> = Vec::new();
    fields.push((String::from_str("mod_filename"), item.filename.clone()));
    fields.push((String::from_str("action"), String::from_str(item.action.to_str())));
    fields.push((String::from_str("download_link"), item.download_link.clone()));
    assert(fields.deep_view() =~= item_fields(item@));
    fields
}

/// The rows handed to the serializer for a list.
pub fn rows_of(items: &Vec<Item>) -> (rows: Vec<Vec<(String, String)>>)
    ensures
        rows.deep_view() == json_rows(items.deep_view()),
{
    let mut rows: Vec<Vec<(String, String)>> = Vec::new();
    let n: usize = items.len();
    let mut i: usize = 0;
    while i < n
        invariant
            n == items@.len(),
            i <= n,
            rows@.len() == i,
            forall|j: int|
                0 <= j < i ==> (#[trigger] rows@[j]).deep_view() == item_fields(items@[j]@),
        decreases n - i,
    {
        rows.push(fields_of(&items[i]));
        i += 1;
    }
    assert(rows.deep_view() =~= json_rows(items.deep_view()));
    rows
}

/// What the serializer's answer means for the caller: its text, or its
/// description of what went wrong.
pub fn json_outcome(answer: Result<String, serde_json::Error>) -> (r: Result<
    String,
    SerializeError,
>)
    ensures
        match answer {
            Ok(text) => r == Ok::<String, SerializeError>(text),
            Err(_) => r is Err,
        },
{
    match answer {
        Ok(text) => Ok(text),
        Err(error) => Err(SerializeError { message: describe(&error) }),
    }
}

/// The JSON text of a list: what the serializer makes of one object for each
/// entry, in list order, each with the fields `mod_filename`, `action` and
/// `download_link` in that order.
pub open spec fn list_json(items: Seq<ItemView>) -> Option<Seq<char>> {
    pretty_json(json_rows(items))
}

/// The list as pretty-printed JSON: an array with one object for each entry, in
/// list order, each with the fields `mod_filename`, `action` and
/// `download_link` in that order. Fails where the serializer does.
pub fn to_json(items: &Vec<Item>) -> (r: Result<String, SerializeError>)
    ensures
        match list_json(items.deep_view()) {
            Some(json) => r matches Ok(text) && text@ == json,
            None => r is Err,
        },
{
    let rows = rows_of(items);
    proof {
        assert(rows.deep_view().len() == rows@.len());
        assert(json_rows(items.deep_view()).len() == items.deep_view().len());
        assert forall|i: int| 0 <= i < rows.len() implies distinct_keys(
            #[trigger] rows.deep_view()[i],
        ) by {
            assert(rows.deep_view()[i] == item_fields(items.deep_view()[i]));
            lemma_item_keys_distinct(items.deep_view()[i]);
        }
    }
    json_outcome(pretty_print_objects(&rows))
}

} // verus!
