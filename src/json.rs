use vstd::prelude::*;
use vstd::string::StringExecFns;

verus! {

/// A JSON value held as plain data.
///
/// A number keeps the text that serde_json writes for it; an object keeps
/// its members in the order serde_json hands them out.
#[derive(Debug)]
pub enum Json {
    Null,
    Bool(bool),
    Number(String),
    Str(String),
    Array(Vec<Json>),
    Object(Vec<(String, Json)>),
}

#[verifier::external_type_specification]
#[verifier::external_body]
pub struct ExValue(serde_json::Value);

/// What `serde_json::from_str` makes of a text: `None` where it is not JSON.
pub uninterp spec fn json_parse(s: Seq<char>) -> Option<Json>;

/// The compact text that serde_json writes for a value.
pub uninterp spec fn json_text_of(j: Json) -> Seq<char>;

/// The whole number that `serde_json::Number::as_f64`, cast with `as i64`,
/// gives for a number's text.
pub uninterp spec fn number_whole(text: Seq<char>) -> Option<i64>;

/// Moves a parsed serde_json value into the plain model, member by member.
#[verifier::external_body]
fn json_of_value(v: serde_json::Value) -> Json {
    match v {
        serde_json::Value::Null => Json::Null,
        serde_json::Value::Bool(b) => Json::Bool(b),
        serde_json::Value::Number(n) => Json::Number(n.to_string()),
        serde_json::Value::String(s) => Json::Str(s),
        serde_json::Value::Array(a) => Json::Array(a.into_iter().map(json_of_value).collect()),
        serde_json::Value::Object(m) => Json::Object(
            m.into_iter().map(|(k, x)| (k, json_of_value(x))).collect(),
        ),
    }
}

/// Builds the serde_json value that the plain model stands for (a number
/// whose text serde_json does not read as a number becomes null).
#[verifier::external_body]
fn value_of_json(j: &Json) -> serde_json::Value {
    match j {
        Json::Null => serde_json::Value::Null,
        Json::Bool(b) => serde_json::Value::Bool(*b),
        Json::Number(t) => t.parse().map_or(serde_json::Value::Null, serde_json::Value::Number),
        Json::Str(s) => serde_json::Value::String(s.clone()),
        Json::Array(a) => serde_json::Value::Array(a.iter().map(value_of_json).collect()),
        Json::Object(m) => serde_json::Value::Object(
            m.iter().map(|(k, x)| (k.clone(), value_of_json(x))).collect(),
        ),
    }
}

/// Relies on serde_json::from_str: the same text always parses to the same value.
#[verifier::external_body]
pub(crate) fn parse_json(s: &str) -> (r: Option<Json>)
    ensures
        r == json_parse(s@),
{
    match serde_json::from_str::<serde_json::Value>(s) {
        Ok(v) => Some(json_of_value(v)),
        Err(_) => None,
    }
}

/// Texts joined with commas.
pub open spec fn comma_joined(items: Seq<Seq<char>>) -> Seq<char>
    decreases items.len(),
{
    if items.len() == 0 {
        Seq::empty()
    } else if items.len() == 1 {
        items[0]
    } else {
        comma_joined(items.drop_last()) + ","@ + items.last()
    }
}

/// The compact text of an array with these items: its items' texts between
/// brackets, separated by commas.
pub open spec fn array_text_of(items: Seq<Json>) -> Seq<char> {
    "["@ + comma_joined(items.map_values(|x: Json| json_text_of(x))) + "]"@
}

/// Relies on serde_json's `Display` for `Value` (compact output): the text
/// depends on the value alone, and the compact formatter writes an array as
/// `[`, the items separated by `,`, and `]`.
#[verifier::external_body]
pub(crate) fn json_text(j: &Json) -> (r: String)
    ensures
        r@ == json_text_of(*j),
        j matches Json::Array(v) ==> r@ == array_text_of(v@),
{
    value_of_json(j).to_string()
}

/// Relies on `serde_json::Number::from_str` and `Number::as_f64`, whose
/// value the `as i64` cast truncates toward zero (saturating at the bounds).
#[verifier::external_body]
pub(crate) fn whole_of_number(text: &str) -> (r: Option<i64>)
    ensures
        r == number_whole(text@),
{
    text.parse::<serde_json::Number>().ok().and_then(|n| n.as_f64()).map(|x| x as i64)
}

/// The value of the first member named `k`.
pub open spec fn field_of(fields: Seq<(String, Json)>, k: Seq<char>) -> Option<Json>
    decreases fields.len(),
{
    if fields.len() == 0 {
        None
    } else if fields[0].0@ == k {
        Some(fields[0].1)
    } else {
        field_of(fields.drop_first(), k)
    }
}

/// The member `k` of an object; `None` for a missing member or a non-object.
pub open spec fn member(j: Json, k: Seq<char>) -> Option<Json> {
    match j {
        Json::Object(fields) => field_of(fields@, k),
        _ => None,
    }
}

/// The member `k` where it is a boolean.
pub open spec fn bool_member(j: Json, k: Seq<char>) -> Option<bool> {
    match member(j, k) {
        Some(Json::Bool(b)) => Some(b),
        _ => None,
    }
}

/// The strings among a sequence of values, in order.
pub open spec fn strings_in(items: Seq<Json>) -> Seq<Seq<char>>
    decreases items.len(),
{
    if items.len() == 0 {
        Seq::empty()
    } else {
        let rest = strings_in(items.drop_last());
        match items.last() {
            Json::Str(s) => rest.push(s@),
            _ => rest,
        }
    }
}

/// `j` is an array whose items are the strings `strs`.
pub open spec fn is_string_array(j: Json, strs: Seq<String>) -> bool {
    match j {
        Json::Array(v) => v@.len() == strs.len() && forall|i: int|
            0 <= i < strs.len() ==> #[trigger] v@[i] == Json::Str(strs[i]),
        _ => false,
    }
}

proof fn lemma_field_of_suffix(fields: Seq<(String, Json)>, i: int, k: Seq<char>)
    requires
        0 <= i < fields.len(),
    ensures
        field_of(fields.subrange(i, fields.len() as int), k) == if fields[i].0@ == k {
            Some(fields[i].1)
        } else {
            field_of(fields.subrange(i + 1, fields.len() as int), k)
        },
{
    let s = fields.subrange(i, fields.len() as int);
    assert(s.drop_first() =~= fields.subrange(i + 1, fields.len() as int));
}

/// The index of the first member named `k`.
pub(crate) fn find_member(fields: &Vec<(String, Json)>, k: &str) -> (r: Option<usize>)
    ensures
        match r {
            Some(i) => i < fields@.len() && field_of(fields@, k@) == Some(fields@[i as int].1),
            None => field_of(fields@, k@) is None,
        },
{
    let key = String::from_str(k);
    let mut i: usize = 0;
    proof {
        assert(fields@.subrange(0, fields@.len() as int) =~= fields@);
    }
    while i < fields.len()
        invariant
            i <= fields@.len(),
            key@ == k@,
            field_of(fields@, k@) == field_of(fields@.subrange(i as int, fields@.len() as int), k@),
        decreases fields@.len() - i,
    {
        proof {
            lemma_field_of_suffix(fields@, i as int, k@);
        }
        if fields[i].0 == key {
            return Some(i);
        }
        i = i + 1;
    }
    proof {
        assert(fields@.subrange(i as int, fields@.len() as int).len() == 0);
    }
    None
}

/// The member `k` of an object, by reference.
pub(crate) fn get_member<'a>(j: &'a Json, k: &str) -> (r: Option<&'a Json>)
    ensures
        match r {
            Some(x) => member(*j, k@) == Some(*x),
            None => member(*j, k@) is None,
        },
{
    match j {
        Json::Object(fields) => match find_member(fields, k) {
            Some(i) => Some(&fields[i].1),
            None => None,
        },
        _ => None,
    }
}

/// The member `k` of an object, moved out of it.
pub(crate) fn take_member(j: Json, k: &str) -> (r: Option<Json>)
    ensures
        r == member(j, k@),
{
    match j {
        Json::Object(fields) => match find_member(&fields, k) {
            Some(i) => {
                let mut fields = fields;
                let (_, x) = fields.remove(i);
                Some(x)
            },
            None => None,
        },
        _ => None,
    }
}

/// The member `k` where it is a boolean.
pub(crate) fn get_bool_member(j: &Json, k: &str) -> (r: Option<bool>)
    ensures
        r == bool_member(*j, k@),
{
    match get_member(j, k) {
        Some(Json::Bool(b)) => Some(*b),
        _ => None,
    }
}

/// An array of strings, one item for each string of `strs`.
pub(crate) fn string_array(strs: &Vec<String>) -> (r: Json)
    ensures
        is_string_array(r, strs@),
{
    let mut v: Vec<Json> = Vec::new();
    let mut i: usize = 0;
    while i < strs.len()
        invariant
            i <= strs@.len(),
            v@.len() == i,
            forall|j: int| 0 <= j < i ==> #[trigger] v@[j] == Json::Str(strs@[j]),
        decreases strs@.len() - i,
    {
        v.push(Json::Str(strs[i].clone()));
        i = i + 1;
    }
    Json::Array(v)
}

} // verus!
