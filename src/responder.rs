use vstd::prelude::*;
use vstd::string::StringExecFns;

use crate::json::{
    bool_member, get_bool_member, get_member, whole_of_number, is_string_array, json_parse,
    json_text, json_text_of, member, number_whole, parse_json, string_array, take_member, Json,
};
use crate::resolver::texts;
use crate::text::concat3;

verus! {

/// The callee's side of one call: the request read at start-up and what has
/// been emitted since.
///
/// `data` stays empty until a request with a payload has been read; an
/// emission on an empty `data` reports that the responder was never set up.
pub struct OutputManagerData {
    pub request_json: String,
    pub key: String,
    pub data: String,
    pub optional_output: bool,
    pub is_unique: bool,
    pub request_status: bool,
    pub request_status_set: bool,
    pub unique_state: bool,
    pub unique_state_set: bool,
    pub init_error: bool,
    pub errors: Vec<String>,
    pub warnings: Vec<String>,
}

impl OutputManagerData {
    /// A responder that has read no request.
    pub fn new() -> (r: Self)
        ensures
            r.request_json@.len() == 0,
            r.key@.len() == 0,
            r.data@.len() == 0,
            r.optional_output,
            r.is_unique,
            !r.request_status,
            !r.request_status_set,
            !r.unique_state,
            !r.unique_state_set,
            !r.init_error,
            r.errors@.len() == 0,
            r.warnings@.len() == 0,
    {
        OutputManagerData {
            request_json: String::new(),
            key: String::new(),
            data: String::new(),
            optional_output: true,
            is_unique: true,
            request_status: false,
            request_status_set: false,
            unique_state: false,
            unique_state_set: false,
            init_error: false,
            errors: Vec::new(),
            warnings: Vec::new(),
        }
    }
}

/// The request's key: its `key` member where that is a string, else empty.
pub open spec fn request_key(req: Option<Json>) -> Seq<char> {
    match req {
        Some(j) => match member(j, "key"@) {
            Some(Json::Str(k)) => k@,
            _ => Seq::empty(),
        },
        None => Seq::empty(),
    }
}

/// The request's payload as JSON text: empty where the request has no `data` member.
pub open spec fn request_data(req: Option<Json>) -> Seq<char> {
    match req {
        Some(j) => match member(j, "data"@) {
            Some(d) => json_text_of(d),
            None => Seq::empty(),
        },
        None => Seq::empty(),
    }
}

/// A boolean member of the request, `dflt` where it is missing or not a boolean.
pub open spec fn request_flag(req: Option<Json>, k: Seq<char>, dflt: bool) -> bool {
    match req {
        Some(j) => match bool_member(j, k) {
            Some(b) => b,
            None => dflt,
        },
        None => dflt,
    }
}

/// Reads the request envelope from its text. Missing or malformed members
/// fall back to defaults (optional output, unique, empty data, empty key);
/// errors, warnings and the emission flags are reset.
pub fn init(m: &mut OutputManagerData, request_json: String)
    ensures
        final(m).request_json == request_json,
        final(m).key@ == request_key(json_parse(request_json@)),
        final(m).data@ == request_data(json_parse(request_json@)),
        final(m).optional_output == request_flag(json_parse(request_json@), "optionalOutput"@, true),
        final(m).is_unique == request_flag(json_parse(request_json@), "isUnique"@, true),
        final(m).request_status == old(m).request_status,
        final(m).unique_state == old(m).unique_state,
        !final(m).request_status_set,
        !final(m).unique_state_set,
        !final(m).init_error,
        final(m).errors@.len() == 0,
        final(m).warnings@.len() == 0,
{
    let mut key = String::new();
    let mut data = String::new();
    let mut optional_output = true;
    let mut is_unique = true;
    match parse_json(request_json.as_str()) {
        Some(req) => {
            match get_member(&req, "key") {
                Some(Json::Str(k)) => {
                    key = k.clone();
                },
                _ => {},
            }
            match get_bool_member(&req, "optionalOutput") {
                Some(b) => {
                    optional_output = b;
                },
                None => {},
            }
            match get_bool_member(&req, "isUnique") {
                Some(b) => {
                    is_unique = b;
                },
                None => {},
            }
            match take_member(req, "data") {
                Some(d) => {
                    data = json_text(&d);
                },
                None => {},
            }
        },
        None => {},
    }
    m.request_json = request_json;
    m.key = key;
    m.data = data;
    m.optional_output = optional_output;
    m.is_unique = is_unique;
    m.errors.clear();
    m.warnings.clear();
    m.init_error = false;
    m.request_status_set = false;
    m.unique_state_set = false;
}

/// The request's payload as JSON text.
pub fn get_data(m: &OutputManagerData) -> (r: String)
    ensures
        r@ == m.data@,
{
    m.data.clone()
}

/// The payload as an integer: a JSON number truncated toward zero, else 0.
pub open spec fn payload_int(data: Seq<char>) -> i64 {
    match json_parse(data) {
        Some(Json::Number(t)) => match number_whole(t@) {
            Some(i) => i,
            None => 0,
        },
        _ => 0,
    }
}

/// The payload as a string: a JSON string, else empty.
pub open spec fn payload_string(data: Seq<char>) -> Seq<char> {
    match json_parse(data) {
        Some(Json::Str(s)) => s@,
        _ => Seq::empty(),
    }
}

/// The payload as a boolean: a JSON boolean, else false.
pub open spec fn payload_bool(data: Seq<char>) -> bool {
    match json_parse(data) {
        Some(Json::Bool(b)) => b,
        _ => false,
    }
}

/// Best-effort integer reader: 0 where the payload is not a number.
pub fn get_int(m: &OutputManagerData) -> (r: i64)
    ensures
        r == payload_int(m.data@),
{
    match parse_json(m.data.as_str()) {
        Some(Json::Number(t)) => match whole_of_number(t.as_str()) {
            Some(i) => i,
            None => 0,
        },
        _ => 0,
    }
}

/// Best-effort string reader: empty where the payload is not a string.
pub fn get_string(m: &OutputManagerData) -> (r: String)
    ensures
        r@ == payload_string(m.data@),
{
    match parse_json(m.data.as_str()) {
        Some(Json::Str(s)) => s,
        _ => String::new(),
    }
}

/// Best-effort boolean reader: false where the payload is not a boolean.
pub fn get_bool(m: &OutputManagerData) -> (r: bool)
    ensures
        r == payload_bool(m.data@),
{
    match parse_json(m.data.as_str()) {
        Some(Json::Bool(b)) => b,
        _ => false,
    }
}

pub open spec fn uninitialized_error() -> Seq<char> {
    "Error: OutputManager isn't initialized."@
}

pub open spec fn bool_text(b: bool) -> Seq<char> {
    if b {
        "true"@
    } else {
        "false"@
    }
}

pub open spec fn out_of_bound_error(state: bool) -> Seq<char> {
    "Error: outputs out of bound (isUnique: "@ + bool_text(state) + ")."@
}

/// The value emitted for a payload text: null where it is not JSON.
pub open spec fn emitted_payload(data: Seq<char>) -> Json {
    match json_parse(data) {
        Some(j) => j,
        None => Json::Null,
    }
}

/// `e` is a response envelope with these members (a `None` key or
/// uniqueness is written as null).
pub open spec fn is_response(
    e: Json,
    key: Option<Seq<char>>,
    status: bool,
    data: Json,
    optional_output: bool,
    is_unique: Option<bool>,
    errors: Seq<String>,
    warnings: Seq<String>,
) -> bool {
    match e {
        Json::Object(f) => f@.len() == 7
            && f@[0].0@ == "data"@ && f@[0].1 == data
            && f@[1].0@ == "errors"@ && is_string_array(f@[1].1, errors)
            && f@[2].0@ == "isUnique"@ && f@[2].1 == (match is_unique {
                Some(b) => Json::Bool(b),
                None => Json::Null,
            })
            && f@[3].0@ == "key"@ && (match key {
                Some(k) => f@[3].1 matches Json::Str(s) && s@ == k,
                None => f@[3].1 == Json::Null,
            })
            && f@[4].0@ == "optionalOutput"@ && f@[4].1 == Json::Bool(optional_output)
            && f@[5].0@ == "request_status"@ && f@[5].1 == Json::Bool(status)
            && f@[6].0@ == "warnings"@ && is_string_array(f@[6].1, warnings),
        _ => false,
    }
}

/// The line is the text of an envelope with these members.
pub open spec fn writes_response(
    line: Seq<char>,
    key: Option<Seq<char>>,
    status: bool,
    data: Json,
    optional_output: bool,
    is_unique: Option<bool>,
    errors: Seq<String>,
    warnings: Seq<String>,
) -> bool {
    exists|e: Json|
        is_response(e, key, status, data, optional_output, is_unique, errors, warnings) && line
            == #[trigger] json_text_of(e)
}

/// The members of the responder other than its error list, its status and
/// its emission flags are those of `m0`.
pub open spec fn same_request(m0: OutputManagerData, m1: OutputManagerData) -> bool {
    &&& m1.request_json == m0.request_json
    &&& m1.key == m0.key
    &&& m1.data == m0.data
    &&& m1.optional_output == m0.optional_output
    &&& m1.is_unique == m0.is_unique
    &&& m1.request_status_set == m0.request_status_set
    &&& m1.warnings == m0.warnings
}

/// What one emission of payload text `data` does: `m0` before, `m1` after,
/// `r` the line written (if any).
pub open spec fn emitted(m0: OutputManagerData, data: Seq<char>, m1: OutputManagerData, r: Option<String>) -> bool {
    if m0.data@.len() == 0 {
        if !m0.init_error {
            &&& same_request(m0, m1)
            &&& texts(m1.errors@) == texts(m0.errors@).push(uninitialized_error())
            &&& !m1.request_status && m1.init_error
            &&& m1.unique_state == m0.unique_state && m1.unique_state_set == m0.unique_state_set
            &&& r matches Some(line) && writes_response(line@, None, false, Json::Null, m0.optional_output, None, m1.errors@, m1.warnings@)
        } else {
            m1 == m0 && r is None
        }
    } else {
        &&& m1.init_error == m0.init_error
        &&& same_request(m0, m1)
        &&& m1.unique_state == m0.is_unique && m1.unique_state_set
        &&& if !m0.unique_state_set || !m0.is_unique {
            &&& m1.request_status
            &&& m1.errors == m0.errors
            &&& r matches Some(line) && writes_response(line@, Some(m0.key@), true, emitted_payload(data), m0.optional_output, Some(m0.is_unique), Seq::empty(), Seq::empty())
        } else {
            &&& !m1.request_status
            &&& texts(m1.errors@) == texts(m0.errors@).push(out_of_bound_error(m0.unique_state))
            &&& r matches Some(line) && writes_response(line@, Some(m0.key@), false, emitted_payload(data), m0.optional_output, Some(m0.is_unique), m1.errors@, m1.warnings@)
        }
    }
}

/// Of a unique request, the first emission succeeds and the second is an
/// out-of-bound error.
pub proof fn lemma_second_unique_emission_fails(
    m0: OutputManagerData,
    d1: Seq<char>,
    m1: OutputManagerData,
    r1: Option<String>,
    d2: Seq<char>,
    m2: OutputManagerData,
    r2: Option<String>,
)
    requires
        m0.data@.len() > 0,
        m0.is_unique,
        !m0.unique_state_set,
        emitted(m0, d1, m1, r1),
        emitted(m1, d2, m2, r2),
    ensures
        r1 matches Some(l1) && writes_response(l1@, Some(m0.key@), true, emitted_payload(d1), m0.optional_output, Some(true), Seq::empty(), Seq::empty()),
        r2 matches Some(l2) && writes_response(l2@, Some(m0.key@), false, emitted_payload(d2), m0.optional_output, Some(true), m2.errors@, m2.warnings@),
        !m2.request_status,
        texts(m2.errors@).last() == out_of_bound_error(true),
{
}

/// Builds a response envelope from its members.
fn response_envelope(
    key: Json,
    status: bool,
    data: Json,
    optional_output: bool,
    is_unique: Json,
    errors: &Vec<String>,
    warnings: &Vec<String>,
) -> (r: Json)
    ensures
        r matches Json::Object(f) && f@.len() == 7
            && f@[0].0@ == "data"@ && f@[0].1 == data
            && f@[1].0@ == "errors"@ && is_string_array(f@[1].1, errors@)
            && f@[2].0@ == "isUnique"@ && f@[2].1 == is_unique
            && f@[3].0@ == "key"@ && f@[3].1 == key
            && f@[4].0@ == "optionalOutput"@ && f@[4].1 == Json::Bool(optional_output)
            && f@[5].0@ == "request_status"@ && f@[5].1 == Json::Bool(status)
            && f@[6].0@ == "warnings"@ && is_string_array(f@[6].1, warnings@),
{
    let mut f: Vec<(String, Json)> = Vec::new();
    f.push((String::from_str("data"), data));
    f.push((String::from_str("errors"), string_array(errors)));
    f.push((String::from_str("isUnique"), is_unique));
    f.push((String::from_str("key"), key));
    f.push((String::from_str("optionalOutput"), Json::Bool(optional_output)));
    f.push((String::from_str("request_status"), Json::Bool(status)));
    f.push((String::from_str("warnings"), string_array(warnings)));
    Json::Object(f)
}

/// Emits one response for payload text `data` and returns the line to write
/// on standard output, or `None` where nothing is to be written.
///
/// Before a request was read, the first emission reports that and later
/// ones write nothing. After that, every emission succeeds while the
/// request is not unique; of a unique request only the first does, and
/// each later one is an out-of-bound error.
pub fn output(m: &mut OutputManagerData, data: &str) -> (r: Option<String>)
    ensures
        emitted(*old(m), data@, *final(m), r),
{
    if m.data.as_str().is_empty() {
        if !m.init_error {
            m.request_status = false;
            let ghost before = texts(m.errors@);
            m.errors.push(String::from_str("Error: OutputManager isn't initialized."));
            assert(texts(m.errors@) =~= before.push(uninitialized_error()));
            let e = response_envelope(
                Json::Null,
                false,
                Json::Null,
                m.optional_output,
                Json::Null,
                &m.errors,
                &m.warnings,
            );
            let line = json_text(&e);
            assert(is_response(e, None, false, Json::Null, m.optional_output, None, m.errors@, m.warnings@));
            m.init_error = true;
            return Some(line);
        }
        return None;
    }
    let payload = match parse_json(data) {
        Some(j) => j,
        None => Json::Null,
    };
    let line;
    if !m.unique_state_set || !m.is_unique {
        m.request_status = true;
        let none: Vec<String> = Vec::new();
        let e = response_envelope(
            Json::Str(m.key.clone()),
            true,
            payload,
            m.optional_output,
            Json::Bool(m.is_unique),
            &none,
            &none,
        );
        line = json_text(&e);
        assert(is_response(e, Some(m.key@), true, emitted_payload(data@), m.optional_output, Some(m.is_unique), Seq::empty(), Seq::empty()));
    } else {
        m.request_status = false;
        let state = if m.unique_state {
            "true"
        } else {
            "false"
        };
        let ghost before = texts(m.errors@);
        m.errors.push(concat3("Error: outputs out of bound (isUnique: ", state, ")."));
        assert(texts(m.errors@) =~= before.push(out_of_bound_error(m.unique_state)));
        let e = response_envelope(
            Json::Str(m.key.clone()),
            false,
            payload,
            m.optional_output,
            Json::Bool(m.is_unique),
            &m.errors,
            &m.warnings,
        );
        line = json_text(&e);
        assert(is_response(e, Some(m.key@), false, emitted_payload(data@), m.optional_output, Some(m.is_unique), m.errors@, m.warnings@));
    }
    m.unique_state = m.is_unique;
    m.unique_state_set = true;
    Some(line)
}

/// Clears the accumulated errors and warnings; the emission state stays.
pub fn cleanup(m: &mut OutputManagerData)
    ensures
        final(m).errors@.len() == 0,
        final(m).warnings@.len() == 0,
        final(m).request_json == old(m).request_json,
        final(m).key == old(m).key,
        final(m).data == old(m).data,
        final(m).optional_output == old(m).optional_output,
        final(m).is_unique == old(m).is_unique,
        final(m).request_status == old(m).request_status,
        final(m).request_status_set == old(m).request_status_set,
        final(m).unique_state == old(m).unique_state,
        final(m).unique_state_set == old(m).unique_state_set,
        final(m).init_error == old(m).init_error,
{
    m.errors.clear();
    m.warnings.clear();
}

} // verus!
