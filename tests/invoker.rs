use mangledotdev::{split_lines, FileStatus, InputManager, InputManagerResponse, Json};

fn manager_with_key(key: &str, is_unique: bool, optional_output: bool) -> InputManager {
    let mut im = InputManager::new();
    im.key = key.to_string();
    im.response.is_unique = is_unique;
    im.response.optional_output = optional_output;
    im
}

fn reply(key: &str, status: bool, data: &str, is_unique: bool) -> String {
    format!(
        "{{\"key\":\"{}\",\"request_status\":{},\"data\":{},\"optionalOutput\":false,\"isUnique\":{},\"errors\":[],\"warnings\":[]}}",
        key, status, data, is_unique
    )
}

#[test]
fn new_response_is_pending() {
    let r = InputManagerResponse::new();
    assert!(!r.request_status_set);
    assert!(!r.request_status);
    assert!(r.optional_output);
    assert!(r.is_unique);
    assert!(r.data.is_empty() && r.errors.is_empty() && r.warnings.is_empty());
}

#[test]
fn unique_call_single_reply_succeeds() {
    let mut im = manager_with_key("k1", true, false);
    let out = format!("{}\n", reply("k1", true, "{\"x\":[1,2]}", true));
    im.collect_output(&out);
    let r = im.get_response();
    assert!(r.request_status_set);
    assert!(r.request_status);
    assert_eq!(r.data, "{\"x\":[1,2]}");
    assert_eq!(im.get_data(), "{\"x\":[1,2]}");
    assert!(r.errors.is_empty());
}

#[test]
fn unique_call_two_replies_fails() {
    let mut im = manager_with_key("k1", true, false);
    let out = format!("{}\n{}\n", reply("k1", true, "1", true), reply("k1", true, "2", true));
    im.collect_output(&out);
    let r = im.get_response();
    assert!(r.request_status_set);
    assert!(!r.request_status);
    assert_eq!(r.data, "");
    assert_eq!(
        r.errors,
        vec!["Error: Expected 1 output (isUnique=True) but received 2.".to_string()]
    );
    assert_eq!(im.get_data(), "");
}

#[test]
fn multiple_replies_form_array_in_order() {
    let mut im = manager_with_key("k9", false, false);
    let out = format!(
        "{}\n{}\n{}\n",
        reply("k9", true, "1", false),
        reply("k9", true, "2", false),
        reply("k9", true, "3", false)
    );
    im.collect_output(&out);
    let r = im.get_response();
    assert!(r.request_status_set && r.request_status);
    assert!(!r.is_unique);
    assert_eq!(r.data, "[1,2,3]");
}

#[test]
fn optional_call_without_output_warns() {
    let mut im = manager_with_key("k1", true, true);
    im.collect_output("");
    let r = im.get_response();
    assert!(!r.request_status_set);
    assert!(r.errors.is_empty());
    assert_eq!(
        r.warnings,
        vec!["Warning: the output setting is set to optional, and the targeted program didn't gave any output.".to_string()]
    );
}

#[test]
fn required_output_missing_is_error() {
    let mut im = manager_with_key("k1", true, false);
    im.collect_output("log line\n\n");
    let r = im.get_response();
    assert!(r.request_status_set && !r.request_status);
    assert_eq!(
        r.errors,
        vec!["Error: OutputManager might not be used or not correctly.".to_string()]
    );
}

#[test]
fn failed_exit_reports_code_and_stderr() {
    let mut im = manager_with_key("k1", true, false);
    im.exited_with_failure(Some(3), "boom");
    let r = im.get_response();
    assert!(r.request_status_set && !r.request_status);
    assert_eq!(
        r.errors,
        vec!["Process exited with code Some(3)".to_string(), "stderr: boom".to_string()]
    );
    assert_eq!(
        r.warnings,
        vec!["Warning: these kind of errors result from an error in the targeted script.".to_string()]
    );
}

#[test]
fn failed_exit_without_code_or_stderr() {
    let mut im = manager_with_key("k1", true, false);
    im.exited_with_failure(None, "");
    assert_eq!(im.response.errors, vec!["Process exited with code None".to_string()]);
    let mut im2 = manager_with_key("k1", true, false);
    im2.exited_with_failure(Some(-2), "");
    assert_eq!(im2.response.errors, vec!["Process exited with code Some(-2)".to_string()]);
}

#[test]
fn spawn_and_wait_failures_recorded() {
    let mut im = manager_with_key("k1", true, false);
    im.spawn_failed("no such file");
    assert_eq!(im.response.errors, vec!["Failed to start process: no such file".to_string()]);
    assert!(im.response.request_status_set && !im.response.request_status);
    let mut im2 = manager_with_key("k1", true, false);
    im2.wait_failed("broken pipe");
    assert_eq!(im2.response.errors, vec!["Process error: broken pipe".to_string()]);
}

#[test]
fn foreign_and_malformed_lines_are_ignored() {
    let mut im = manager_with_key("mine", true, false);
    let out = format!(
        "not json\n[1,2]\n{{\"nokey\":1}}\n{{\"key\":5}}\n{}\r\n{}\n",
        reply("other", true, "7", true),
        reply("mine", true, "8", true)
    );
    im.collect_output(&out);
    assert!(im.response.request_status);
    assert_eq!(im.response.data, "8");
}

#[test]
fn null_key_reply_is_taken_and_its_errors_gathered() {
    let mut im = manager_with_key("mine", true, false);
    let out = "{\"key\":null,\"request_status\":false,\"data\":null,\"isUnique\":null,\"errors\":[\"Error: OutputManager isn't initialized.\"],\"warnings\":[]}\n";
    im.collect_output(out);
    let r = im.get_response();
    assert!(r.request_status_set && !r.request_status);
    assert_eq!(r.errors, vec!["Error: OutputManager isn't initialized.".to_string()]);
    assert_eq!(r.data, "null");
}

#[test]
fn reply_can_override_uniqueness() {
    let mut im = manager_with_key("k", true, false);
    let out = format!("{}\n{}\n", reply("k", true, "1", false), reply("k", true, "2", false));
    im.collect_output(&out);
    assert!(!im.response.is_unique);
    assert!(im.response.request_status);
    assert_eq!(im.response.data, "[1,2]");
}

#[test]
fn aggregate_takes_parsed_envelopes() {
    let mut im = manager_with_key("k", false, false);
    let env = Json::Object(vec![
        ("data".to_string(), Json::Str("hi".to_string())),
        ("errors".to_string(), Json::Array(vec![Json::Str("e1".to_string()), Json::Null])),
        ("request_status".to_string(), Json::Bool(false)),
    ]);
    im.aggregate(vec![env]);
    assert!(im.response.request_status_set && !im.response.request_status);
    assert_eq!(im.response.errors, vec!["e1".to_string()]);
    assert_eq!(im.response.data, "[\"hi\"]");
}

#[test]
fn prepare_fails_on_resolution_error() {
    let mut im = InputManager::new();
    let cmd = im.prepare(true, false, "1", "python", "gone.py", FileStatus::Missing);
    assert!(cmd.is_none());
    assert_eq!(im.key().len(), 32);
    let r = im.get_response();
    assert!(r.request_status_set && !r.request_status);
    assert_eq!(r.errors, vec!["Error: File not found: gone.py".to_string()]);
    assert_eq!(r.warnings.len(), 1);
}

#[test]
fn prepare_builds_request_envelope() {
    let mut im = InputManager::new();
    let cmd = im.prepare(
        true,
        false,
        "{\"b\":2,\"a\":1}",
        "python",
        "s.py",
        FileStatus::Regular { executable: false },
    );
    assert_eq!(cmd, Some(vec!["python".to_string(), "s.py".to_string()]));
    let key = im.key().clone();
    assert_eq!(key.len(), 32);
    assert!(key.chars().all(|c| c.is_ascii_hexdigit() && !c.is_ascii_uppercase()));
    assert_eq!(
        im.request_text(),
        &format!(
            "{{\"data\":{{\"a\":1,\"b\":2}},\"isUnique\":true,\"key\":\"{}\",\"optionalOutput\":false}}",
            key
        )
    );
    assert!(!im.response.request_status_set);
}

#[test]
fn prepare_sends_null_for_empty_or_bad_data() {
    let mut im = InputManager::new();
    im.prepare(false, true, "", "js", "a.js", FileStatus::Regular { executable: true });
    assert!(im.request_text().starts_with("{\"data\":null,"));
    let mut im2 = InputManager::new();
    im2.prepare(false, true, "{oops", "js", "a.js", FileStatus::Regular { executable: true });
    assert!(im2.request_text().starts_with("{\"data\":null,"));
    assert_ne!(im.key(), im2.key());
}

#[test]
fn lines_split_like_std() {
    assert_eq!(split_lines("a\r\nb\n\nc"), vec!["a", "b", "", "c"]);
    assert_eq!(split_lines("x\n"), vec!["x"]);
    assert_eq!(split_lines(""), Vec::<String>::new());
    assert_eq!(split_lines("end\r"), vec!["end\r"]);
}

#[test]
fn key_writes_bytes_in_hex() {
    assert_eq!(mangledotdev::invoker::hex_key(&vec![0x00, 0x0f, 0xa5, 0xff]), "000fa5ff");
    assert_eq!(mangledotdev::invoker::hex_key(&vec![]), "");
}

#[test]
fn non_unique_single_reply_is_one_item_array() {
    let mut im = manager_with_key("k", false, false);
    let out = format!("{}\n", reply("k", true, "{\"a\":[true,null]}", false));
    im.collect_output(&out);
    assert_eq!(im.response.data, "[{\"a\":[true,null]}]");
}
