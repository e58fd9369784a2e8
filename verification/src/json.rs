//! JSON: the bodies of requests, and what is looked up in the bodies of replies.

use crate::text::{decimal, text_option};
use vstd::prelude::*;
use vstd::utf8::*;

verus! {

/// The text of a JSON object with text fields and number fields.
pub uninterp spec fn json_object_text(
    texts: Seq<(Seq<char>, Seq<char>)>,
    numbers: Seq<(Seq<char>, usize)>,
) -> Seq<char>;

/// The names and values of text fields.
pub open spec fn json_pairs(texts: Seq<(String, String)>) -> Seq<(Seq<char>, Seq<char>)> {
    texts.map_values(|field: (String, String)| (field.0@, field.1@))
}

/// The names and values of number fields.
pub open spec fn json_numbers(numbers: Seq<(String, usize)>) -> Seq<(Seq<char>, usize)> {
    numbers.map_values(|field: (String, usize)| (field.0@, field.1))
}

/// A field of a JSON object.
#[derive(Debug, PartialEq, Eq)]
pub struct JsonMember {
    /// The text, where the field holds text.
    pub text: Option<String>,
    /// The field as JSON.
    pub json: String,
}

/// The text of a field, where it holds text, and the field as JSON.
pub open spec fn member_option(member: Option<JsonMember>) -> Option<
    (Option<Seq<char>>, Seq<char>),
> {
    match member {
        Some(m) => Some((text_option(m.text), m.json@)),
        None => None,
    }
}

/// What was looked up, or the reason why it could not be.
pub open spec fn member_view(looked_up: Result<Option<JsonMember>, String>) -> Result<
    Option<(Option<Seq<char>>, Seq<char>)>,
    Seq<char>,
> {
    match looked_up {
        Ok(member) => Ok(member_option(member)),
        Err(message) => Err(message@),
    }
}

/// The field of the JSON object that the bytes hold: its text, where it holds text, and the field as
/// JSON. An error says why the bytes are not JSON.
pub uninterp spec fn json_member(body: Seq<u8>, name: Seq<char>) -> Result<
    Option<(Option<Seq<char>>, Seq<char>)>,
    Seq<char>,
>;

/// No other field has the name of the text field `i`.
pub open spec fn only_field(
    texts: Seq<(Seq<char>, Seq<char>)>,
    numbers: Seq<(Seq<char>, usize)>,
    i: int,
) -> bool {
    &&& 0 <= i < texts.len()
    &&& forall|j: int| 0 <= j < texts.len() && j != i ==> (#[trigger] texts[j]).0 != texts[i].0
    &&& forall|j: int| 0 <= j < numbers.len() ==> (#[trigger] numbers[j]).0 != texts[i].0
}

/// The bytes are a JSON object with a text field of that name and text.
pub open spec fn says(body: Seq<u8>, name: Seq<char>, text: Seq<char>) -> bool {
    json_member(body, name) matches Ok(Some((t, _))) && t == Some(text)
}

/// No other field has the name of the number field `i`.
pub open spec fn only_number(
    texts: Seq<(Seq<char>, Seq<char>)>,
    numbers: Seq<(Seq<char>, usize)>,
    i: int,
) -> bool {
    &&& 0 <= i < numbers.len()
    &&& forall|j: int| 0 <= j < numbers.len() && j != i ==> (#[trigger] numbers[j]).0 != numbers[i].0
    &&& forall|j: int| 0 <= j < texts.len() ==> (#[trigger] texts[j]).0 != numbers[i].0
}

/// The bytes are a JSON object with a number field of that name and number.
pub open spec fn says_number(body: Seq<u8>, name: Seq<char>, number: usize) -> bool {
    json_member(body, name) == Ok::<_, Seq<char>>(
        Some((None::<Seq<char>>, decimal(number as nat))),
    )
}

/// `Value::to_string` of a `Value::Object` with the given fields writes the object as JSON. A field
/// that is the only one of its name is read back by `json_lookup`, a number in decimal notation.
#[verifier::external_body]
pub(crate) fn json_object(texts: &Vec<(String, String)>, numbers: &Vec<(String, usize)>) -> (text:
    String)
    ensures
        text@ == json_object_text(json_pairs(texts@), json_numbers(numbers@)),
        forall|i: int| #[trigger]
            only_field(json_pairs(texts@), json_numbers(numbers@), i) ==> says(
                encode_utf8(text@),
                json_pairs(texts@)[i].0,
                json_pairs(texts@)[i].1,
            ),
        forall|i: int| #[trigger]
            only_number(json_pairs(texts@), json_numbers(numbers@), i) ==> says_number(
                encode_utf8(text@),
                json_numbers(numbers@)[i].0,
                json_numbers(numbers@)[i].1,
            ),
{
    let mut object: serde_json::Map<String, serde_json::Value> = serde_json::Map::new();
    object.extend(texts.iter().map(|field| (field.0.clone(), field.1.as_str().into())));
    object.extend(numbers.iter().map(|field| (field.0.clone(), field.1.into())));
    serde_json::Value::Object(object).to_string()
}

/// `serde_json::from_slice` reads bytes as a `Value`, `Value::get` looks a field up, `Value::as_str`
/// gives its text and `Value::to_string` the field as JSON. The result depends on the bytes and
/// the name alone.
#[verifier::external_body]
pub(crate) fn json_lookup(body: &[u8], name: &str) -> (looked_up: Result<
    Option<JsonMember>,
    String,
>)
    ensures
        member_view(looked_up) == json_member(body@, name@),
{
    serde_json::from_slice::<serde_json::Value>(body).map_err(|e| e.to_string()).map(
        |value| value.get(name).map(
            |member| JsonMember {
                text: member.as_str().map(String::from),
                json: member.to_string(),
            },
        ),
    )
}

/// A field of every item of the JSON list that the bytes hold. Without a list there is nothing. An
/// item without the field, or with something else than an unsigned number in it, shows as such.
/// An error says why the bytes are not JSON.
pub uninterp spec fn json_column(body: Seq<u8>, name: Seq<char>) -> Result<
    Option<Seq<Option<Option<u64>>>>,
    Seq<char>,
>;

/// What was looked up in a list, or the reason why it could not be.
pub open spec fn column_view(looked_up: Result<Option<Vec<Option<Option<u64>>>>, String>) -> Result<
    Option<Seq<Option<Option<u64>>>>,
    Seq<char>,
> {
    match looked_up {
        Ok(Some(list)) => Ok(Some(list@)),
        Ok(None) => Ok(None),
        Err(message) => Err(message@),
    }
}

/// `serde_json::from_slice` reads bytes as a `Value`, `Value::as_array` gives its items, `Value::get`
/// looks a field of each up and `Value::as_u64` gives its number. The result depends on the bytes
/// and the name alone.
#[verifier::external_body]
pub(crate) fn json_lookup_all(body: &[u8], name: &str) -> (looked_up: Result<
    Option<Vec<Option<Option<u64>>>>,
    String,
>)
    ensures
        column_view(looked_up) == json_column(body@, name@),
{
    serde_json::from_slice::<serde_json::Value>(body).map_err(|e| e.to_string()).map(
        |value| value.as_array().map(
            |items| items.iter().map(|item| item.get(name).map(|n| n.as_u64())).collect(),
        ),
    )
}

/// A field that is read back is there in the object, as text or as a number.
pub proof fn what_is_said_is_in_the_object(body: Seq<u8>, name: Seq<char>, text: Seq<char>, n: usize)
    ensures
        says(body, name, text) <==> (json_member(body, name) matches Ok(Some((Some(t), _))) && t
            == text),
        says_number(body, name, n) <==> (json_member(body, name) matches Ok(Some((None, json)))
            && json == decimal(n as nat)),
{
}

/// What was looked up is seen as it is.
pub proof fn members_are_seen_as_they_are(member: JsonMember, message: String)
    ensures
        member_view(Ok(None)) == Ok::<Option<(Option<Seq<char>>, Seq<char>)>, Seq<char>>(None),
        member_view(Err(message)) == Err::<Option<(Option<Seq<char>>, Seq<char>)>, _>(message@),
        member_view(Ok(Some(member))) matches Ok(Some((text, json))) && json == member.json@ && (
        member.text matches Some(t) ==> text == Some(t@)) && (member.text is None ==> text is None),
{
}

/// Fields are seen in their order, with their names and values.
pub proof fn fields_are_seen_in_order(
    texts: Seq<(String, String)>,
    numbers: Seq<(String, usize)>,
    i: int,
)
    ensures
        json_pairs(texts).len() == texts.len(),
        0 <= i < texts.len() ==> json_pairs(texts)[i] == (texts[i].0@, texts[i].1@),
        json_numbers(numbers).len() == numbers.len(),
        0 <= i < numbers.len() ==> json_numbers(numbers)[i] == (numbers[i].0@, numbers[i].1),
{
}

} // verus!
