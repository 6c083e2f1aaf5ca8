use mangledotdev::{cleanup, get_bool, get_data, get_int, get_string, init, output, OutputManagerData};

fn ready(request: &str) -> OutputManagerData {
    let mut m = OutputManagerData::new();
    init(&mut m, request.to_string());
    m
}

#[test]
fn integer_payload_reads_back() {
    let m = ready("{\"key\":\"k\",\"optionalOutput\":false,\"isUnique\":true,\"data\":42}");
    assert_eq!(get_int(&m), 42);
    assert!(!get_bool(&m));
    assert_eq!(get_string(&m), "");
    assert_eq!(get_data(&m), "42");
}

#[test]
fn typed_readers_fall_back_to_defaults() {
    let m = ready("{\"key\":\"k\",\"data\":\"hello\"}");
    assert_eq!(get_string(&m), "hello");
    assert_eq!(get_int(&m), 0);
    let b = ready("{\"key\":\"k\",\"data\":true}");
    assert!(get_bool(&b));
    let f = ready("{\"key\":\"k\",\"data\":2.5}");
    assert_eq!(get_int(&f), 2);
    let n = OutputManagerData::new();
    assert_eq!(get_int(&n), 0);
    assert_eq!(get_data(&n), "");
}

#[test]
fn init_reads_members_and_defaults() {
    let m = ready("{\"key\":\"abc\",\"optionalOutput\":false,\"isUnique\":false,\"data\":[1]}");
    assert_eq!(m.key, "abc");
    assert!(!m.optional_output);
    assert!(!m.is_unique);
    assert_eq!(m.data, "[1]");
    let d = ready("garbage");
    assert_eq!(d.key, "");
    assert!(d.optional_output && d.is_unique);
    assert_eq!(d.data, "");
}

#[test]
fn unique_request_second_emit_is_out_of_bound() {
    let mut m = ready("{\"key\":\"k\",\"optionalOutput\":false,\"isUnique\":true,\"data\":1}");
    let first = output(&mut m, "5");
    assert_eq!(
        first,
        Some("{\"data\":5,\"errors\":[],\"isUnique\":true,\"key\":\"k\",\"optionalOutput\":false,\"request_status\":true,\"warnings\":[]}".to_string())
    );
    let second = output(&mut m, "6");
    assert_eq!(
        second,
        Some("{\"data\":6,\"errors\":[\"Error: outputs out of bound (isUnique: true).\"],\"isUnique\":true,\"key\":\"k\",\"optionalOutput\":false,\"request_status\":false,\"warnings\":[]}".to_string())
    );
    assert!(!m.request_status);
}

#[test]
fn non_unique_request_emits_freely() {
    let mut m = ready("{\"key\":\"k\",\"isUnique\":false,\"data\":0}");
    for i in 0..3 {
        let line = output(&mut m, &i.to_string()).unwrap();
        assert!(line.contains("\"request_status\":true"));
        assert!(line.contains(&format!("\"data\":{}", i)));
    }
    let bad = output(&mut m, "not json").unwrap();
    assert!(bad.contains("\"data\":null"));
}

#[test]
fn emit_before_init_reports_once() {
    let mut m = OutputManagerData::new();
    let first = output(&mut m, "1");
    assert_eq!(
        first,
        Some("{\"data\":null,\"errors\":[\"Error: OutputManager isn't initialized.\"],\"isUnique\":null,\"key\":null,\"optionalOutput\":true,\"request_status\":false,\"warnings\":[]}".to_string())
    );
    assert_eq!(output(&mut m, "1"), None);
}

#[test]
fn cleanup_keeps_emission_state() {
    let mut m = ready("{\"key\":\"k\",\"data\":1}");
    output(&mut m, "1");
    output(&mut m, "2");
    assert_eq!(m.errors.len(), 1);
    cleanup(&mut m);
    assert!(m.errors.is_empty() && m.warnings.is_empty());
    assert!(m.unique_state_set);
    let third = output(&mut m, "3").unwrap();
    assert!(third.contains("\"request_status\":false"));
}

#[test]
fn reinit_resets_emission_state() {
    let mut m = ready("{\"key\":\"k\",\"data\":1}");
    output(&mut m, "1");
    init(&mut m, "{\"key\":\"k2\",\"data\":2}".to_string());
    let line = output(&mut m, "1").unwrap();
    assert!(line.contains("\"request_status\":true"));
    assert!(line.contains("\"key\":\"k2\""));
}

#[test]
fn integer_reader_truncates_numbers() {
    assert_eq!(get_int(&ready("{\"key\":\"k\",\"data\":-2.9}")), -2);
    assert_eq!(get_int(&ready("{\"key\":\"k\",\"data\":1e3}")), 1000);
    assert_eq!(get_int(&ready("{\"key\":\"k\",\"data\":1e30}")), i64::MAX);
    assert_eq!(get_int(&ready("{\"key\":\"k\",\"data\":[1]}")), 0);
}
