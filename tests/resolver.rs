use mangledotdev::{get_command, FileStatus};

fn regular() -> FileStatus {
    FileStatus::Regular { executable: true }
}

#[test]
fn python_script_runs_under_interpreter() {
    let r = get_command("python", "script.py", regular());
    assert_eq!(r, Ok(vec!["python".to_string(), "script.py".to_string()]));
}

#[test]
fn language_aliases_and_case_are_folded() {
    assert_eq!(
        get_command("Js", "app.js", regular()),
        Ok(vec!["node".to_string(), "app.js".to_string()])
    );
    assert_eq!(
        get_command("rb", "tool.rb", regular()),
        Ok(vec!["ruby".to_string(), "tool.rb".to_string()])
    );
    assert_eq!(
        get_command("java", "app.jar", regular()),
        Ok(vec!["java".to_string(), "-jar".to_string(), "app.jar".to_string()])
    );
}

#[test]
fn extension_is_compared_in_lower_case() {
    assert_eq!(
        get_command("PYTHON", "SCRIPT.PY", regular()),
        Ok(vec!["python".to_string(), "SCRIPT.PY".to_string()])
    );
}

#[test]
fn wrong_extension_reported_before_existence() {
    let r = get_command("python", "missing.js", FileStatus::Missing);
    assert_eq!(
        r,
        Err("Invalid file 'missing.js' for language 'python'. Expected: e.g. 'file.py'".to_string())
    );
}

#[test]
fn missing_file_reported() {
    assert_eq!(
        get_command("python", "gone.py", FileStatus::Missing),
        Err("File not found: gone.py".to_string())
    );
}

#[test]
fn directory_reported() {
    assert_eq!(
        get_command("ruby", "dir.rb", FileStatus::NotAFile),
        Err("Path is not a file: dir.rb".to_string())
    );
}

#[test]
fn unreadable_metadata_reported() {
    assert_eq!(
        get_command("ruby", "x.rb", FileStatus::Unreadable("denied".to_string())),
        Err("denied".to_string())
    );
}

#[test]
fn native_binary_gets_relative_prefix() {
    assert_eq!(get_command("c", "prog", regular()), Ok(vec!["./prog".to_string()]));
    assert_eq!(get_command("C++", "./prog.out", regular()), Ok(vec!["./prog.out".to_string()]));
    assert_eq!(get_command("rust", "/usr/bin/tool", regular()), Ok(vec!["/usr/bin/tool".to_string()]));
}

#[test]
fn native_binary_must_be_executable() {
    assert_eq!(
        get_command("cpp", "prog", FileStatus::Regular { executable: false }),
        Err("File is not executable: prog".to_string())
    );
}

#[test]
fn go_source_and_go_binary() {
    assert_eq!(
        get_command("golang", "main.go", regular()),
        Ok(vec!["go".to_string(), "run".to_string(), "./main.go".to_string()])
    );
    assert_eq!(get_command("go", "server", regular()), Ok(vec!["./server".to_string()]));
}

#[test]
fn unknown_language_reported_last() {
    assert_eq!(
        get_command("cobol", "x.cbl", FileStatus::Missing),
        Err("File not found: x.cbl".to_string())
    );
    assert_eq!(
        get_command("cobol", "x.cbl", regular()),
        Err("Unsupported language: cobol".to_string())
    );
}

#[test]
fn go_source_runs_via_go_run_and_binary_directly() {
    assert_eq!(
        get_command("go", "main.go", regular()),
        Ok(vec!["go".to_string(), "run".to_string(), "./main.go".to_string()])
    );
    assert_eq!(get_command("golang", "/opt/srv", regular()), Ok(vec!["/opt/srv".to_string()]));
}

#[test]
fn resolution_from_folded_inputs() {
    assert_eq!(
        mangledotdev::resolver::resolve_with("Py", "a.py", "PY", "py", false, regular()),
        Ok(vec!["python".to_string(), "a.py".to_string()])
    );
    assert_eq!(
        mangledotdev::resolver::resolve_with("c", "bin/tool", "C", "", true, regular()),
        Ok(vec!["bin/tool".to_string()])
    );
    assert_eq!(
        mangledotdev::resolver::resolve_with("c", "bin/tool", "C", "", false, regular()),
        Ok(vec!["./bin/tool".to_string()])
    );
}
