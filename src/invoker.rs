use vstd::prelude::*;
use vstd::string::{StrSliceExecFns, StringExecFns};

use crate::json::{
    array_text_of, bool_member, comma_joined, get_bool_member, get_member, json_parse, json_text, json_text_of, member,
    parse_json, strings_in, take_member, Json,
};
use crate::resolver::{get_command, resolution, texts, FileStatus};
use crate::text::{
    chars_of, concat2, concat3, decimal, decimal_of, is_blank, string_of_chars, text_is_blank,
};
use vstd::slice::slice_subrange;

verus! {

/// The unified result of one call.
#[derive(Debug, Clone)]
pub struct InputManagerResponse {
    pub request_status_set: bool,
    pub request_status: bool,
    pub data: String,
    pub optional_output: bool,
    pub is_unique: bool,
    pub warnings: Vec<String>,
    pub errors: Vec<String>,
}

/// The unified result as plain values.
pub struct ResponseView {
    pub status_set: bool,
    pub status: bool,
    pub data: Seq<char>,
    pub optional_output: bool,
    pub is_unique: bool,
    pub warnings: Seq<Seq<char>>,
    pub errors: Seq<Seq<char>>,
}

impl View for InputManagerResponse {
    type V = ResponseView;

    open spec fn view(&self) -> ResponseView {
        ResponseView {
            status_set: self.request_status_set,
            status: self.request_status,
            data: self.data@,
            optional_output: self.optional_output,
            is_unique: self.is_unique,
            warnings: texts(self.warnings@),
            errors: texts(self.errors@),
        }
    }
}

pub open spec fn file_warning() -> Seq<char> {
    "Warning: targeted file not found or can't be executed, consider checking file informations and language dependencies."@
}

pub open spec fn script_warning() -> Seq<char> {
    "Warning: these kind of errors result from an error in the targeted script."@
}

pub open spec fn no_output_warning() -> Seq<char> {
    "Warning: the output setting is set to optional, and the targeted program didn't gave any output."@
}

pub open spec fn unused_error() -> Seq<char> {
    "Error: OutputManager might not be used or not correctly."@
}

pub open spec fn count_error(n: nat) -> Seq<char> {
    "Error: Expected 1 output (isUnique=True) but received "@ + decimal_of(n) + "."@
}

/// A result on which nothing is decided yet.
pub open spec fn pending(optional_output: bool, is_unique: bool) -> ResponseView {
    ResponseView {
        status_set: false,
        status: false,
        data: Seq::empty(),
        optional_output,
        is_unique,
        warnings: Seq::empty(),
        errors: Seq::empty(),
    }
}

/// `r0` with a definite failure and the given errors and warnings appended.
pub open spec fn failed_with(r0: ResponseView, errors: Seq<Seq<char>>, warnings: Seq<Seq<char>>) -> ResponseView {
    ResponseView {
        status_set: true,
        status: false,
        data: r0.data,
        optional_output: r0.optional_output,
        is_unique: r0.is_unique,
        warnings: r0.warnings + warnings,
        errors: r0.errors + errors,
    }
}

/// A lower-case hexadecimal digit.
pub open spec fn is_hex_digit(c: char) -> bool {
    ('0' <= c && c <= '9') || ('a' <= c && c <= 'f')
}

/// A correlation key: 32 lower-case hexadecimal digits (128 bits).
pub open spec fn is_key(k: Seq<char>) -> bool {
    k.len() == 32 && forall|i: int| 0 <= i < k.len() ==> is_hex_digit(#[trigger] k[i])
}

/// A hexadecimal digit's character, lower case.
pub open spec fn hex_char(d: nat) -> char {
    if d < 10 {
        ('0' as u8 + d) as char
    } else {
        ('a' as u8 + (d - 10)) as char
    }
}

/// `k` writes the bytes `b` in hexadecimal, two lower-case digits per byte,
/// high digit first.
pub open spec fn is_hex_of(k: Seq<char>, b: Seq<u8>) -> bool {
    &&& k.len() == 2 * b.len()
    &&& forall|i: int|
        0 <= i < b.len() ==> k[2 * i] == hex_char((#[trigger] b[i] / 16) as nat) && k[2 * i + 1]
            == hex_char((b[i] % 16) as nat)
}

/// Relies on `rand::random` for an array of 16 random bytes.
#[verifier::external_body]
fn random_bytes() -> (r: Vec<u8>)
    ensures
        r@.len() == 16,
{
    rand::random::<[u8; 16]>().to_vec()
}

fn hex_digit_text(d: u8) -> (r: &'static str)
    requires
        d < 16,
    ensures
        r@ == seq![hex_char(d as nat)],
{
    proof {
        reveal_strlit("0");
        reveal_strlit("1");
        reveal_strlit("2");
        reveal_strlit("3");
        reveal_strlit("4");
        reveal_strlit("5");
        reveal_strlit("6");
        reveal_strlit("7");
        reveal_strlit("8");
        reveal_strlit("9");
        reveal_strlit("a");
        reveal_strlit("b");
        reveal_strlit("c");
        reveal_strlit("d");
        reveal_strlit("e");
        reveal_strlit("f");
    }
    match d {
        0 => "0",
        1 => "1",
        2 => "2",
        3 => "3",
        4 => "4",
        5 => "5",
        6 => "6",
        7 => "7",
        8 => "8",
        9 => "9",
        10 => "a",
        11 => "b",
        12 => "c",
        13 => "d",
        14 => "e",
        _ => "f",
    }
}

/// The bytes written in hexadecimal, two lower-case digits per byte.
pub fn hex_key(b: &Vec<u8>) -> (r: String)
    ensures
        is_hex_of(r@, b@),
{
    let mut r = String::new();
    let mut i: usize = 0;
    while i < b.len()
        invariant
            i <= b@.len(),
            is_hex_of(r@, b@.subrange(0, i as int)),
        decreases b@.len() - i,
    {
        let ghost before = r@;
        let x = b[i];
        r.append(hex_digit_text(x / 16));
        r.append(hex_digit_text(x % 16));
        proof {
            let bs = b@.subrange(0, i + 1);
            assert forall|j: int| 0 <= j < bs.len() implies r@[2 * j] == hex_char(
                (#[trigger] bs[j] / 16) as nat,
            ) && r@[2 * j + 1] == hex_char((bs[j] % 16) as nat) by {
                if j < i {
                    assert(bs[j] == b@.subrange(0, i as int)[j]);
                }
            }
        }
        i = i + 1;
    }
    assert(b@.subrange(0, i as int) =~= b@);
    r
}

/// A hexadecimal text is a correlation key where it writes 16 bytes.
proof fn lemma_hex_is_key(k: Seq<char>, b: Seq<u8>)
    requires
        is_hex_of(k, b),
        b.len() == 16,
    ensures
        is_key(k),
{
    assert forall|i: int| 0 <= i < k.len() implies is_hex_digit(#[trigger] k[i]) by {
        let j = i / 2;
        assert(b[j] / 16 < 16 && b[j] % 16 < 16);
        if i % 2 == 0 {
            assert(i == 2 * j);
        } else {
            assert(i == 2 * j + 1);
        }
    }
}

/// The payload sent for the caller's data text: null where it is empty or not JSON.
pub open spec fn request_payload(data: Seq<char>) -> Json {
    if data.len() == 0 {
        Json::Null
    } else {
        match json_parse(data) {
            Some(j) => j,
            None => Json::Null,
        }
    }
}

/// `e` is the request envelope for these values.
pub open spec fn is_request(e: Json, key: Seq<char>, optional_output: bool, is_unique: bool, payload: Json) -> bool {
    match e {
        Json::Object(f) => f@.len() == 4
            && f@[0].0@ == "data"@ && f@[0].1 == payload
            && f@[1].0@ == "isUnique"@ && f@[1].1 == Json::Bool(is_unique)
            && f@[2].0@ == "key"@ && (f@[2].1 matches Json::Str(k) && k@ == key)
            && f@[3].0@ == "optionalOutput"@ && f@[3].1 == Json::Bool(optional_output),
        _ => false,
    }
}

// ---- reading the child's output ----

pub open spec fn strip_cr(l: Seq<char>) -> Seq<char> {
    if l.len() > 0 && l.last() == '\r' {
        l.drop_last()
    } else {
        l
    }
}

/// The lines of `s` from position `i` on, where the current line began at `start`.
pub open spec fn lines_from(s: Seq<char>, start: int, i: int) -> Seq<Seq<char>>
    decreases s.len() - i,
{
    if i >= s.len() {
        if start < s.len() {
            seq![s.subrange(start, s.len() as int)]
        } else {
            Seq::empty()
        }
    } else if s[i] == '\n' {
        seq![strip_cr(s.subrange(start, i))] + lines_from(s, i + 1, i + 1)
    } else {
        lines_from(s, start, i + 1)
    }
}

/// The lines of a text: split at `\n` (a `\r` before it is dropped); a last
/// line needs no line end.
pub open spec fn lines_of(s: Seq<char>) -> Seq<Seq<char>> {
    lines_from(s, 0, 0)
}

/// The lines of a text.
pub fn split_lines(s: &str) -> (r: Vec<String>)
    ensures
        texts(r@) == lines_of(s@),
{
    let cs = chars_of(s);
    let n = cs.len();
    let mut out: Vec<String> = Vec::new();
    let mut start: usize = 0;
    let mut i: usize = 0;
    while i < n
        invariant
            cs@ == s@,
            n == s@.len(),
            start <= i <= n,
            texts(out@) + lines_from(s@, start as int, i as int) == lines_of(s@),
        decreases n - i,
    {
        if cs[i] == '\n' {
            let end = if i > start && cs[i - 1] == '\r' {
                i - 1
            } else {
                i
            };
            let line = string_of_chars(slice_subrange(cs.as_slice(), start, end));
            assert(line@ =~= strip_cr(s@.subrange(start as int, i as int)));
            let ghost before = texts(out@);
            out.push(line);
            proof {
                assert(texts(out@) =~= before.push(strip_cr(s@.subrange(start as int, i as int))));
                assert(before + lines_from(s@, start as int, i as int) =~= texts(out@)
                    + lines_from(s@, i + 1, i + 1));
            }
            start = i + 1;
        }
        i = i + 1;
    }
    if start < n {
        let ghost before = texts(out@);
        let line = string_of_chars(slice_subrange(cs.as_slice(), start, n));
        assert(line@ =~= s@.subrange(start as int, n as int));
        out.push(line);
        proof {
            assert(texts(out@) =~= before + lines_from(s@, start as int, i as int));
        }
    } else {
        proof {
            assert(texts(out@) =~= texts(out@) + lines_from(s@, start as int, i as int));
        }
    }
    out
}

/// An envelope is taken when its `key` member is null or equals the call's key.
pub open spec fn accepted(j: Json, key: Seq<char>) -> bool {
    match member(j, "key"@) {
        Some(Json::Null) => true,
        Some(Json::Str(k)) => k@ == key,
        _ => false,
    }
}

/// The envelope that a line of output holds for `key`, if any.
pub open spec fn envelope_of_line(line: Seq<char>, key: Seq<char>) -> Option<Json> {
    if is_blank(line) {
        None
    } else {
        match json_parse(line) {
            Some(j) => if accepted(j, key) {
                Some(j)
            } else {
                None
            },
            None => None,
        }
    }
}

/// The envelopes for `key` among lines of output, in order.
pub open spec fn collected(lines: Seq<Seq<char>>, key: Seq<char>) -> Seq<Json>
    decreases lines.len(),
{
    if lines.len() == 0 {
        Seq::empty()
    } else {
        let prev = collected(lines.drop_last(), key);
        match envelope_of_line(lines.last(), key) {
            Some(j) => prev.push(j),
            None => prev,
        }
    }
}

/// Some envelope reports `request_status: false`.
pub open spec fn any_failure(envs: Seq<Json>) -> bool
    decreases envs.len(),
{
    envs.len() > 0 && (any_failure(envs.drop_last()) || bool_member(envs.last(), "request_status"@)
        == Some(false))
}

/// The strings of an envelope's `errors` array.
pub open spec fn error_texts(j: Json) -> Seq<Seq<char>> {
    match member(j, "errors"@) {
        Some(Json::Array(v)) => strings_in(v@),
        _ => Seq::empty(),
    }
}

/// The errors of all envelopes, in order.
pub open spec fn all_errors(envs: Seq<Json>) -> Seq<Seq<char>>
    decreases envs.len(),
{
    if envs.len() == 0 {
        Seq::empty()
    } else {
        all_errors(envs.drop_last()) + error_texts(envs.last())
    }
}

/// An envelope's `data` member, null where it has none.
pub open spec fn payload(j: Json) -> Json {
    match member(j, "data"@) {
        Some(d) => d,
        None => Json::Null,
    }
}

/// The payloads of all envelopes, in order.
pub open spec fn payloads(envs: Seq<Json>) -> Seq<Json>
    decreases envs.len(),
{
    if envs.len() == 0 {
        Seq::empty()
    } else {
        payloads(envs.drop_last()).push(payload(envs.last()))
    }
}

/// The uniqueness setting that governs aggregation: the first envelope's
/// `isUnique` where it holds a boolean, else the caller's.
pub open spec fn effective_unique(envs: Seq<Json>, requested: bool) -> bool {
    match bool_member(envs[0], "isUnique"@) {
        Some(b) => b,
        None => requested,
    }
}

/// The unified result after aggregating `envs` onto `r0`.
pub open spec fn aggregated(r0: ResponseView, envs: Seq<Json>) -> ResponseView {
    if envs.len() > 0 {
        let uniq = effective_unique(envs, r0.is_unique);
        let errs = r0.errors + all_errors(envs);
        if uniq && envs.len() == 1 {
            ResponseView {
                status_set: true,
                status: !any_failure(envs),
                data: json_text_of(payload(envs[0])),
                optional_output: r0.optional_output,
                is_unique: true,
                warnings: r0.warnings,
                errors: errs,
            }
        } else if uniq {
            ResponseView {
                status_set: true,
                status: false,
                data: Seq::empty(),
                optional_output: r0.optional_output,
                is_unique: true,
                warnings: r0.warnings,
                errors: errs.push(count_error(envs.len())),
            }
        } else {
            ResponseView {
                status_set: true,
                status: !any_failure(envs),
                data: array_text_of(payloads(envs)),
                optional_output: r0.optional_output,
                is_unique: false,
                warnings: r0.warnings,
                errors: errs,
            }
        }
    } else if r0.optional_output {
        ResponseView {
            status_set: false,
            status: r0.status,
            data: r0.data,
            optional_output: r0.optional_output,
            is_unique: r0.is_unique,
            warnings: r0.warnings.push(no_output_warning()),
            errors: r0.errors,
        }
    } else {
        failed_with(r0, seq![unused_error()], Seq::empty())
    }
}

/// The result after a process exited with failure.
pub open spec fn exit_failure(r0: ResponseView, code: Option<i32>, stderr: Seq<char>) -> ResponseView {
    failed_with(
        r0,
        if stderr.len() == 0 {
            seq!["Process exited with code "@ + exit_code_text(code)]
        } else {
            seq!["Process exited with code "@ + exit_code_text(code), "stderr: "@ + stderr]
        },
        seq![script_warning()],
    )
}

/// A unique call answered by exactly one envelope that reports success (and
/// does not claim to be non-unique) succeeds with that envelope's payload.
pub proof fn lemma_unique_single_reply(optional_output: bool, envs: Seq<Json>)
    requires
        envs.len() == 1,
        bool_member(envs[0], "request_status"@) == Some(true),
        bool_member(envs[0], "isUnique"@) != Some(false),
    ensures
        ({
            let r = aggregated(pending(optional_output, true), envs);
            r.status_set && r.status && r.data == json_text_of(payload(envs[0]))
        }),
{
    assert(envs.drop_last().len() == 0);
    assert(!any_failure(envs.drop_last()));
}

/// A unique call answered by two envelopes fails, with the count error last.
pub proof fn lemma_unique_two_replies(optional_output: bool, envs: Seq<Json>)
    requires
        envs.len() == 2,
        bool_member(envs[0], "isUnique"@) != Some(false),
    ensures
        ({
            let r = aggregated(pending(optional_output, true), envs);
            r.status_set && !r.status && r.data.len() == 0 && r.errors.last() == count_error(2)
        }),
{
}

/// A non-unique call gathers the payloads of all its envelopes, in the
/// order they came, into one array.
pub proof fn lemma_multiple_replies_in_order(optional_output: bool, envs: Seq<Json>)
    requires
        envs.len() == 3,
        bool_member(envs[0], "isUnique"@) != Some(true),
    ensures
        aggregated(pending(optional_output, false), envs).data == array_text_of(payloads(envs)),
        payloads(envs) == seq![payload(envs[0]), payload(envs[1]), payload(envs[2])],
        aggregated(pending(optional_output, false), envs).data == "["@ + json_text_of(
            payload(envs[0]),
        ) + ","@ + json_text_of(payload(envs[1])) + ","@ + json_text_of(payload(envs[2])) + "]"@,
{
    let e2 = envs.drop_last();
    let e1 = e2.drop_last();
    assert(e1.drop_last().len() == 0);
    assert(e1.last() == envs[0]);
    assert(e2.last() == envs[1]);
    assert(payloads(e1.drop_last()) =~= Seq::<Json>::empty());
    assert(payloads(e1) =~= seq![payload(envs[0])]);
    assert(payloads(e2) =~= seq![payload(envs[0]), payload(envs[1])]);
    assert(payloads(envs) =~= seq![payload(envs[0]), payload(envs[1]), payload(envs[2])]);
    let t = payloads(envs).map_values(|x: Json| json_text_of(x));
    let (a, b, c) = (
        json_text_of(payload(envs[0])),
        json_text_of(payload(envs[1])),
        json_text_of(payload(envs[2])),
    );
    assert(t =~= seq![a, b, c]);
    assert(comma_joined(seq![a]) == a);
    assert(comma_joined(seq![a, b]) == comma_joined(seq![a]) + ","@ + b) by {
        assert(seq![a, b].drop_last() =~= seq![a]);
    }
    assert(comma_joined(seq![a, b, c]) == comma_joined(seq![a, b]) + ","@ + c) by {
        assert(seq![a, b, c].drop_last() =~= seq![a, b]);
    }
    assert(array_text_of(payloads(envs)) =~= "["@ + a + ","@ + b + ","@ + c + "]"@);
}

/// An optional call with no envelope has no definite status and a warning,
/// no error.
pub proof fn lemma_optional_silence(is_unique: bool)
    ensures
        ({
            let r = aggregated(pending(true, is_unique), Seq::empty());
            !r.status_set && r.warnings == seq![no_output_warning()] && r.errors.len() == 0
        }),
{
    assert(Seq::<Seq<char>>::empty().push(no_output_warning()) =~= seq![no_output_warning()]);
}

/// A process that exited with failure and wrote to standard error fails;
/// its errors name the exit code and hold what it wrote.
pub proof fn lemma_exit_failure_reported(r0: ResponseView, code: Option<i32>, stderr: Seq<char>)
    requires
        stderr.len() > 0,
    ensures
        ({
            let r = exit_failure(r0, code, stderr);
            &&& r.status_set && !r.status
            &&& r.errors.contains("Process exited with code "@ + exit_code_text(code))
            &&& r.errors.contains("stderr: "@ + stderr)
        }),
{
    let r = exit_failure(r0, code, stderr);
    assert(r.errors[r0.errors.len() as int] == "Process exited with code "@ + exit_code_text(code));
    assert(r.errors[r0.errors.len() as int + 1] == "stderr: "@ + stderr);
}

/// The text of an exit code as `Option<i32>`'s `Debug` writes it.
pub open spec fn exit_code_text(code: Option<i32>) -> Seq<char> {
    match code {
        None => "None"@,
        Some(c) => if c < 0 {
            "Some(-"@ + decimal_of((-c) as nat) + ")"@
        } else {
            "Some("@ + decimal_of(c as nat) + ")"@
        },
    }
}

fn exit_code_string(code: Option<i32>) -> (r: String)
    ensures
        r@ == exit_code_text(code),
{
    match code {
        None => String::from_str("None"),
        Some(c) => {
            if c < 0 {
                let d = decimal((-(c as i64)) as u64);
                concat3("Some(-", d.as_str(), ")")
            } else {
                let d = decimal(c as u64);
                concat3("Some(", d.as_str(), ")")
            }
        },
    }
}

/// Appends the strings among `items`.
fn append_strings(out: &mut Vec<String>, items: &Vec<Json>)
    ensures
        texts(final(out)@) == texts(old(out)@) + strings_in(items@),
{
    let mut i: usize = 0;
    proof {
        assert(texts(out@) =~= texts(old(out)@) + strings_in(items@.subrange(0, 0)));
    }
    while i < items.len()
        invariant
            i <= items@.len(),
            texts(out@) == texts(old(out)@) + strings_in(items@.subrange(0, i as int)),
        decreases items@.len() - i,
    {
        let ghost before = texts(out@);
        proof {
            assert(items@.subrange(0, i + 1).drop_last() =~= items@.subrange(0, i as int));
        }
        match &items[i] {
            Json::Str(s) => {
                out.push(s.clone());
                proof {
                    assert(texts(out@) =~= before.push(s@));
                }
            },
            _ => {},
        }
        i = i + 1;
    }
    proof {
        assert(items@.subrange(0, i as int) =~= items@);
    }
}

/// Manages one outgoing call: its key, the request text and the unified result.
///
/// The process itself is run by the caller of this type: `prepare` resolves
/// the target and builds the request, and one of `spawn_failed`,
/// `wait_failed`, `exited_with_failure` or `collect_output` records how the
/// run ended.
pub struct InputManager {
    pub key: String,
    pub request: String,
    pub response: InputManagerResponse,
}

impl InputManager {
    /// A manager with no call made yet.
    pub fn new() -> (r: Self)
        ensures
            r.key@.len() == 0,
            r.request@.len() == 0,
            r.response@ == pending(true, true),
    {
        InputManager {
            key: String::new(),
            request: String::new(),
            response: InputManagerResponse::new(),
        }
    }

    /// The correlation key of the current call.
    pub fn key(&self) -> (r: &String)
        ensures
            r@ == self.key@,
    {
        &self.key
    }

    /// The request envelope text of the current call.
    pub fn request_text(&self) -> (r: &String)
        ensures
            r@ == self.request@,
    {
        &self.request
    }

    /// Starts a call: draws a fresh key and resolves the target. Where
    /// resolution fails the result records it and `None` is returned; else
    /// the request envelope is built and the argument vector returned.
    pub fn prepare(
        &mut self,
        is_unique: bool,
        optional_output: bool,
        data: &str,
        language: &str,
        file: &str,
        status: FileStatus,
    ) -> (r: Option<Vec<String>>)
        ensures
            is_key(final(self).key@),
            match resolution(language@, file@, status) {
                Err(e) => r is None && final(self).response@ == failed_with(
                    pending(optional_output, is_unique),
                    seq!["Error: "@ + e],
                    seq![file_warning()],
                ),
                Ok(cmd) => r matches Some(v) && texts(v@) == cmd && final(self).response@
                    == pending(optional_output, is_unique) && exists|e: Json|
                    is_request(e, final(self).key@, optional_output, is_unique, request_payload(data@))
                        && final(self).request@ == #[trigger] json_text_of(e),
            },
    {
        let bytes = random_bytes();
        self.key = hex_key(&bytes);
        proof {
            lemma_hex_is_key(self.key@, bytes@);
        }
        match get_command(language, file, status) {
            Err(e) => {
                let mut warnings: Vec<String> = Vec::new();
                warnings.push(String::from_str("Warning: targeted file not found or can't be executed, consider checking file informations and language dependencies."));
                let mut errors: Vec<String> = Vec::new();
                errors.push(concat2("Error: ", e.as_str()));
                self.response = InputManagerResponse {
                    request_status_set: true,
                    request_status: false,
                    data: String::new(),
                    optional_output,
                    is_unique,
                    warnings,
                    errors,
                };
                proof {
                    assert(self.response@.warnings =~= seq![file_warning()]);
                    assert(self.response@.errors =~= seq!["Error: "@ + e@]);
                    assert(self.response@ == failed_with(
                        pending(optional_output, is_unique),
                        seq!["Error: "@ + e@],
                        seq![file_warning()],
                    ));
                }
                None
            },
            Ok(cmd) => {
                self.response = InputManagerResponse {
                    request_status_set: false,
                    request_status: false,
                    data: String::new(),
                    optional_output,
                    is_unique,
                    warnings: Vec::new(),
                    errors: Vec::new(),
                };
                proof {
                    assert(self.response@.warnings =~= Seq::<Seq<char>>::empty());
                    assert(self.response@.errors =~= Seq::<Seq<char>>::empty());
                    assert(self.response@ == pending(optional_output, is_unique));
                }
                let payload = if data.unicode_len() == 0 {
                    Json::Null
                } else {
                    match parse_json(data) {
                        Some(j) => j,
                        None => Json::Null,
                    }
                };
                let mut f: Vec<(String, Json)> = Vec::new();
                f.push((String::from_str("data"), payload));
                f.push((String::from_str("isUnique"), Json::Bool(is_unique)));
                f.push((String::from_str("key"), Json::Str(self.key.clone())));
                f.push((String::from_str("optionalOutput"), Json::Bool(optional_output)));
                let e = Json::Object(f);
                self.request = json_text(&e);
                assert(is_request(e, self.key@, optional_output, is_unique, request_payload(data@)));
                Some(cmd)
            },
        }
    }

    /// Records that the process could not be started.
    pub fn spawn_failed(&mut self, reason: &str)
        ensures
            final(self).key@ == old(self).key@,
            final(self).response@ == failed_with(
                old(self).response@,
                seq!["Failed to start process: "@ + reason@],
                Seq::empty(),
            ),
    {
        self.fail_with(concat2("Failed to start process: ", reason));
    }

    /// Records that waiting for the process failed.
    pub fn wait_failed(&mut self, reason: &str)
        ensures
            final(self).key@ == old(self).key@,
            final(self).response@ == failed_with(
                old(self).response@,
                seq!["Process error: "@ + reason@],
                Seq::empty(),
            ),
    {
        self.fail_with(concat2("Process error: ", reason));
    }

    fn fail_with(&mut self, msg: String)
        ensures
            final(self).key@ == old(self).key@,
            final(self).response@ == failed_with(old(self).response@, seq![msg@], Seq::empty()),
    {
        self.response.request_status = false;
        self.response.request_status_set = true;
        let ghost before = self.response@;
        self.response.errors.push(msg);
        proof {
            assert(self.response@.errors =~= before.errors + seq![msg@]);
            assert(self.response@.warnings =~= before.warnings + Seq::<Seq<char>>::empty());
        }
    }

    /// Records a process that exited with failure: its exit code, what it
    /// wrote to standard error (where anything), and a warning. Its output is
    /// not read.
    pub fn exited_with_failure(&mut self, code: Option<i32>, stderr: &str)
        ensures
            final(self).key@ == old(self).key@,
            final(self).response@ == exit_failure(old(self).response@, code, stderr@),
    {
        self.response.request_status = false;
        self.response.request_status_set = true;
        let ghost before = self.response@;
        let c = exit_code_string(code);
        self.response.errors.push(concat2("Process exited with code ", c.as_str()));
        if stderr.unicode_len() != 0 {
            self.response.errors.push(concat2("stderr: ", stderr));
        }
        self.response.warnings.push(
            String::from_str("Warning: these kind of errors result from an error in the targeted script."),
        );
        proof {
            if stderr@.len() == 0 {
                assert(self.response@.errors =~= before.errors + seq!["Process exited with code "@ + exit_code_text(code)]);
            } else {
                assert(self.response@.errors =~= before.errors + seq![
                    "Process exited with code "@ + exit_code_text(code),
                    "stderr: "@ + stderr@,
                ]);
            }
            assert(self.response@.warnings =~= before.warnings + seq![script_warning()]);
        }
    }

    /// Reads the standard output of a process that exited with success:
    /// takes the envelopes for this call's key and aggregates them.
    pub fn collect_output(&mut self, stdout: &str)
        ensures
            final(self).key@ == old(self).key@,
            final(self).response@ == aggregated(
                old(self).response@,
                collected(lines_of(stdout@), old(self).key@),
            ),
    {
        let lines = split_lines(stdout);
        let mut envs: Vec<Json> = Vec::new();
        let mut i: usize = 0;
        while i < lines.len()
            invariant
                i <= lines@.len(),
                texts(lines@) == lines_of(stdout@),
                envs@ == collected(texts(lines@).subrange(0, i as int), self.key@),
            decreases lines@.len() - i,
        {
            proof {
                assert(texts(lines@).subrange(0, i + 1).drop_last() =~= texts(lines@).subrange(
                    0,
                    i as int,
                ));
            }
            let line = lines[i].as_str();
            if !text_is_blank(line) {
                match parse_json(line) {
                    Some(j) => {
                        if self.is_accepted(&j) {
                            envs.push(j);
                        }
                    },
                    None => {},
                }
            }
            i = i + 1;
        }
        proof {
            assert(texts(lines@).subrange(0, i as int) =~= texts(lines@));
        }
        self.aggregate(envs);
    }

    fn is_accepted(&self, j: &Json) -> (r: bool)
        ensures
            r == accepted(*j, self.key@),
    {
        match get_member(j, "key") {
            Some(Json::Null) => true,
            Some(Json::Str(k)) => *k == self.key,
            _ => false,
        }
    }

    /// Aggregates the envelopes taken for this call into the unified result.
    pub fn aggregate(&mut self, envs: Vec<Json>)
        ensures
            final(self).key@ == old(self).key@,
            final(self).response@ == aggregated(old(self).response@, envs@),
    {
        let n = envs.len();
        let ghost r0 = self.response@;
        let ghost all = envs@;
        if n == 0 {
            if self.response.optional_output {
                self.response.request_status_set = false;
                self.response.warnings.push(
                    String::from_str("Warning: the output setting is set to optional, and the targeted program didn't gave any output."),
                );
                proof {
                    assert(self.response@.warnings =~= r0.warnings.push(no_output_warning()));
                }
            } else {
                self.fail_with(String::from_str("Error: OutputManager might not be used or not correctly."));
            }
            assert(self.response@ == aggregated(r0, all));
            return;
        }
        let uniq = match get_bool_member(&envs[0], "isUnique") {
            Some(b) => b,
            None => self.response.is_unique,
        };
        let mut failure = false;
        let mut data_list: Vec<Json> = Vec::new();
        let mut rest = envs;
        let mut i: usize = 0;
        proof {
            assert(rest@ =~= all.subrange(0, n as int));
            assert(texts(self.response.errors@) =~= r0.errors + all_errors(all.subrange(0, 0)));
            assert(data_list@ =~= payloads(all.subrange(0, 0)));
        }
        while i < n
            invariant
                n == all.len(),
                i <= n,
                rest@ == all.subrange(i as int, n as int),
                data_list@ == payloads(all.subrange(0, i as int)),
                failure == any_failure(all.subrange(0, i as int)),
                texts(self.response.errors@) == r0.errors + all_errors(all.subrange(0, i as int)),
                self.key@ == old(self).key@,
                self.response.request_status == r0.status,
                self.response.request_status_set == r0.status_set,
                self.response.data@ == r0.data,
                self.response.optional_output == r0.optional_output,
                self.response.is_unique == r0.is_unique,
                texts(self.response.warnings@) == r0.warnings,
            decreases n - i,
        {
            proof {
                let s = all.subrange(0, i + 1);
                assert(s.drop_last() =~= all.subrange(0, i as int));
                assert(s.last() == all[i as int]);
            }
            let env = rest.remove(0);
            match get_bool_member(&env, "request_status") {
                Some(false) => {
                    failure = true;
                },
                _ => {},
            }
            match get_member(&env, "errors") {
                Some(Json::Array(items)) => {
                    append_strings(&mut self.response.errors, items);
                },
                _ => {},
            }
            let d = match take_member(env, "data") {
                Some(d) => d,
                None => Json::Null,
            };
            data_list.push(d);
            proof {
                assert(rest@ =~= all.subrange(i + 1, n as int));
                assert(texts(self.response.errors@) =~= r0.errors + all_errors(all.subrange(0, i + 1)));
            }
            i = i + 1;
        }
        proof {
            assert(all.subrange(0, n as int) =~= all);
        }
        self.response.request_status = !failure;
        self.response.request_status_set = true;
        self.response.is_unique = uniq;
        if uniq {
            if n == 1 {
                self.response.data = json_text(&data_list[0]);
                proof {
                    assert(payloads(all)[0] == payload(all[0])) by {
                        assert(all.drop_last().len() == 0);
                    }
                }
                assert(self.response@ == aggregated(r0, all));
            } else {
                self.response.request_status = false;
                self.response.data = String::new();
                let count = decimal(n as u64);
                let ghost before = texts(self.response.errors@);
                self.response.errors.push(concat3(
                    "Error: Expected 1 output (isUnique=True) but received ",
                    count.as_str(),
                    ".",
                ));
                proof {
                    assert(texts(self.response.errors@) =~= before.push(count_error(n as nat)));
                }
                assert(self.response@ == aggregated(r0, all));
            }
        } else {
            let arr = Json::Array(data_list);
            self.response.data = json_text(&arr);
            assert(self.response@ == aggregated(r0, all));
        }
    }

    /// The full unified result.
    pub fn get_response(&self) -> (r: &InputManagerResponse)
        ensures
            *r == self.response,
    {
        &self.response
    }

    /// The result's data where the call is known to have succeeded; else empty.
    pub fn get_data(&self) -> (r: String)
        ensures
            r@ == if self.response.request_status_set && self.response.request_status {
                self.response.data@
            } else {
                Seq::empty()
            },
    {
        if self.response.request_status_set && self.response.request_status {
            self.response.data.clone()
        } else {
            String::new()
        }
    }
}

impl InputManagerResponse {
    /// A result on which nothing is decided yet, for an optional, unique call.
    pub fn new() -> (r: Self)
        ensures
            r@ == pending(true, true),
    {
        let r = InputManagerResponse {
            request_status_set: false,
            request_status: false,
            data: String::new(),
            optional_output: true,
            is_unique: true,
            warnings: Vec::new(),
            errors: Vec::new(),
        };
        proof {
            assert(r@.warnings =~= Seq::<Seq<char>>::empty());
            assert(r@.errors =~= Seq::<Seq<char>>::empty());
        }
        r
    }
}

} // verus!
