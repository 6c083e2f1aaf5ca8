use vstd::prelude::*;
use vstd::string::StringExecFns;

use crate::text::{
    absolute_of, concat2, concat3, extension_of, lower_of, path_extension, path_is_absolute, same_text, starts_with, text_starts_with,
    to_lower, to_upper, upper_of,
};

verus! {

/// The languages and runtimes that a target program can be written in.
#[derive(Debug, Clone, Copy, PartialEq, Eq, Structural)]
pub enum Language {
    Python,
    JavaScript,
    Ruby,
    C,
    CSharp,
    Cpp,
    Java,
    Rust,
    Go,
}

/// What is known of the target path on disk.
#[derive(Debug)]
pub enum FileStatus {
    /// Nothing exists at the path.
    Missing,
    /// Something exists, but its metadata could not be read; the text says why.
    Unreadable(String),
    /// Something exists that is not a regular file.
    NotAFile,
    /// A regular file; `executable` where any execute bit is set (or where the
    /// platform has no such bits).
    Regular { executable: bool },
}

/// The language that an upper-case name stands for.
pub open spec fn language_named(u: Seq<char>) -> Option<Language> {
    if u == "PYTHON"@ || u == "PY"@ {
        Some(Language::Python)
    } else if u == "JAVASCRIPT"@ || u == "JS"@ || u == "NODE"@ || u == "NODEJS"@ {
        Some(Language::JavaScript)
    } else if u == "RUBY"@ || u == "RB"@ {
        Some(Language::Ruby)
    } else if u == "C"@ {
        Some(Language::C)
    } else if u == "CS"@ || u == "C#"@ || u == "CSHARP"@ {
        Some(Language::CSharp)
    } else if u == "CPP"@ || u == "C++"@ || u == "CPLUSPLUS"@ || u == "EXE"@ {
        Some(Language::Cpp)
    } else if u == "JAR"@ || u == "JAVA"@ {
        Some(Language::Java)
    } else if u == "RUST"@ || u == "RS"@ {
        Some(Language::Rust)
    } else if u == "GO"@ || u == "GOLANG"@ {
        Some(Language::Go)
    } else {
        None
    }
}

/// Native targets: run directly, and must be executable.
pub open spec fn is_compiled(l: Language) -> bool {
    l == Language::C || l == Language::CSharp || l == Language::Cpp || l == Language::Rust
        || l == Language::Go
}

/// The one extension (with its dot) that a script language accepts.
/// Native targets accept any extension, none included.
pub open spec fn script_extension(l: Language) -> Seq<char> {
    match l {
        Language::Python => ".py"@,
        Language::JavaScript => ".js"@,
        Language::Ruby => ".rb"@,
        Language::Java => ".jar"@,
        _ => ""@,
    }
}

/// `ext` (lower case, without its dot) is acceptable for `l`.
pub open spec fn extension_accepted(l: Language, ext: Seq<char>) -> bool {
    is_compiled(l) || "."@ + ext == script_extension(l)
}

/// The path to launch: native targets get a `./` prefix unless the path is
/// absolute or already starts with an explicit relative prefix.
pub open spec fn launch_path(l: Language, file: Seq<char>, absolute: bool) -> Seq<char> {
    if is_compiled(l) && !absolute && !starts_with(file, "./"@) && !starts_with(
        file,
        ".\\"@,
    ) {
        "./"@ + file
    } else {
        file
    }
}

/// The argument vector that launches `path` for `l`; `ext` is the lower-case extension.
pub open spec fn command_for(l: Language, ext: Seq<char>, path: Seq<char>) -> Seq<Seq<char>> {
    match l {
        Language::Python => seq!["python"@, path],
        Language::JavaScript => seq!["node"@, path],
        Language::Ruby => seq!["ruby"@, path],
        Language::Java => seq!["java"@, "-jar"@, path],
        Language::Go => if ext == "go"@ {
            seq!["go"@, "run"@, path]
        } else {
            seq![path]
        },
        _ => seq![path],
    }
}

pub open spec fn bad_extension_message(file: Seq<char>, language: Seq<char>, l: Language) -> Seq<
    char,
> {
    "Invalid file '"@ + file + "' for language '"@ + language + "'. Expected: e.g. 'file"@
        + script_extension(l) + "'"@
}

/// The outcome of resolving `file` for `language`, given the language's
/// upper-case name and the file's lower-case extension.
pub open spec fn resolution_with(
    language: Seq<char>,
    file: Seq<char>,
    upper: Seq<char>,
    ext: Seq<char>,
    absolute: bool,
    status: FileStatus,
) -> Result<Seq<Seq<char>>, Seq<char>> {
    let lang = language_named(upper);
    if lang is Some && !extension_accepted(lang->0, ext) {
        Err(bad_extension_message(file, language, lang->0))
    } else {
        match status {
            FileStatus::Missing => Err("File not found: "@ + file),
            FileStatus::Unreadable(e) => Err(e@),
            FileStatus::NotAFile => Err("Path is not a file: "@ + file),
            FileStatus::Regular { executable } => {
                if lang is Some && is_compiled(lang->0) && !executable {
                    Err("File is not executable: "@ + file)
                } else {
                    match lang {
                        None => Err("Unsupported language: "@ + language),
                        Some(l) => Ok(command_for(l, ext, launch_path(l, file, absolute))),
                    }
                }
            },
        }
    }
}

/// The outcome of resolving `file` for `language`: the argument vector or the error text.
pub open spec fn resolution(language: Seq<char>, file: Seq<char>, status: FileStatus) -> Result<
    Seq<Seq<char>>,
    Seq<char>,
> {
    resolution_with(
        language,
        file,
        upper_of(language),
        lower_of(extension_of(file)),
        absolute_of(file),
        status,
    )
}

/// A known language, an acceptable extension and a regular file that may be
/// run (executable, where the language is native): resolution succeeds with
/// the launcher table's argument vector for the language.
pub proof fn lemma_supported_target_resolves(language: Seq<char>, file: Seq<char>, status: FileStatus)
    requires
        language_named(upper_of(language)) is Some,
        extension_accepted(language_named(upper_of(language))->0, lower_of(extension_of(file))),
        status matches FileStatus::Regular { executable } && (executable || !is_compiled(
            language_named(upper_of(language))->0,
        )),
    ensures
        ({
            let l = language_named(upper_of(language))->0;
            resolution(language, file, status) == Ok::<Seq<Seq<char>>, Seq<char>>(
                command_for(l, lower_of(extension_of(file)), launch_path(l, file, absolute_of(file))),
            )
        }),
{
}

/// A known language and an extension it does not accept: resolution fails
/// with the extension error, whatever is on disk.
pub proof fn lemma_bad_extension_rejected(language: Seq<char>, file: Seq<char>, status: FileStatus)
    requires
        language_named(upper_of(language)) is Some,
        !extension_accepted(language_named(upper_of(language))->0, lower_of(extension_of(file))),
    ensures
        resolution(language, file, status) == Err::<Seq<Seq<char>>, Seq<char>>(
            bad_extension_message(file, language, language_named(upper_of(language))->0),
        ),
{
}

/// The texts of a vector of strings.
pub open spec fn texts(v: Seq<String>) -> Seq<Seq<char>> {
    v.map_values(|s: String| s@)
}

/// The view of a resolution's result.
pub open spec fn resolved_view(r: Result<Vec<String>, String>) -> Result<Seq<Seq<char>>, Seq<char>> {
    match r {
        Ok(v) => Ok(texts(v@)),
        Err(e) => Err(e@),
    }
}

/// The language that an upper-case name stands for.
pub fn language_of_name(u: &str) -> (r: Option<Language>)
    ensures
        r == language_named(u@),
{
    if same_text(u, "PYTHON") || same_text(u, "PY") {
        Some(Language::Python)
    } else if same_text(u, "JAVASCRIPT") || same_text(u, "JS") || same_text(u, "NODE")
        || same_text(u, "NODEJS") {
        Some(Language::JavaScript)
    } else if same_text(u, "RUBY") || same_text(u, "RB") {
        Some(Language::Ruby)
    } else if same_text(u, "C") {
        Some(Language::C)
    } else if same_text(u, "CS") || same_text(u, "C#") || same_text(u, "CSHARP") {
        Some(Language::CSharp)
    } else if same_text(u, "CPP") || same_text(u, "C++") || same_text(u, "CPLUSPLUS")
        || same_text(u, "EXE") {
        Some(Language::Cpp)
    } else if same_text(u, "JAR") || same_text(u, "JAVA") {
        Some(Language::Java)
    } else if same_text(u, "RUST") || same_text(u, "RS") {
        Some(Language::Rust)
    } else if same_text(u, "GO") || same_text(u, "GOLANG") {
        Some(Language::Go)
    } else {
        None
    }
}

impl Language {
    /// Whether the language names a native target.
    pub fn compiled(&self) -> (r: bool)
        ensures
            r == is_compiled(*self),
    {
        match self {
            Language::C | Language::CSharp | Language::Cpp | Language::Rust | Language::Go => true,
            _ => false,
        }
    }

    /// The one extension a script language accepts (empty for native targets).
    pub fn script_extension(&self) -> (r: &'static str)
        ensures
            r@ == script_extension(*self),
    {
        match self {
            Language::Python => ".py",
            Language::JavaScript => ".js",
            Language::Ruby => ".rb",
            Language::Java => ".jar",
            _ => "",
        }
    }

    /// Whether a lower-case extension (without its dot) is acceptable.
    pub fn accepts_extension(&self, ext: &str) -> (r: bool)
        ensures
            r == extension_accepted(*self, ext@),
    {
        if self.compiled() {
            true
        } else {
            let dotted = concat2(".", ext);
            same_text(dotted.as_str(), self.script_extension())
        }
    }
}

/// The path to launch for `l`.
pub fn launch_path_for(l: Language, file: &str, absolute: bool) -> (r: String)
    ensures
        r@ == launch_path(l, file@, absolute),
{
    if l.compiled() && !absolute && !text_starts_with(file, "./")
        && !text_starts_with(file, ".\\") {
        concat2("./", file)
    } else {
        String::from_str(file)
    }
}

/// The argument vector for `l`, `ext` and `path`.
pub fn command_vector(l: Language, ext: &str, path: String) -> (r: Vec<String>)
    ensures
        texts(r@) == command_for(l, ext@, path@),
{
    let mut v: Vec<String> = Vec::new();
    match l {
        Language::Python => v.push(String::from_str("python")),
        Language::JavaScript => v.push(String::from_str("node")),
        Language::Ruby => v.push(String::from_str("ruby")),
        Language::Java => {
            v.push(String::from_str("java"));
            v.push(String::from_str("-jar"));
        },
        Language::Go => {
            if same_text(ext, "go") {
                v.push(String::from_str("go"));
                v.push(String::from_str("run"));
            }
        },
        _ => {},
    }
    v.push(path);
    assert(texts(v@) =~= command_for(l, ext@, path@));
    v
}

/// Validates `file` for `language` and builds the argument vector that launches it.
///
/// The checks run in a fixed order: the extension (before anything is known
/// of the disk), existence, file type, the execute bit of native targets,
/// and last whether the language is known at all.
pub fn get_command(language: &str, file: &str, status: FileStatus) -> (r: Result<Vec<String>, String>)
    ensures
        resolved_view(r) == resolution(language@, file@, status),
{
    let upper = to_upper(language);
    let raw_ext = path_extension(file);
    let ext = to_lower(raw_ext.as_str());
    let absolute = path_is_absolute(file);
    resolve_with(language, file, upper.as_str(), ext.as_str(), absolute, status)
}

/// The resolution steps of `get_command`, given the language's upper-case
/// name `upper`, the file's lower-case extension `ext` and whether its path
/// is absolute.
pub fn resolve_with(
    language: &str,
    file: &str,
    upper: &str,
    ext: &str,
    absolute: bool,
    status: FileStatus,
) -> (r: Result<Vec<String>, String>)
    ensures
        resolved_view(r) == resolution_with(language@, file@, upper@, ext@, absolute, status),
{
    let lang = language_of_name(upper);
    if let Some(l) = lang {
        if !l.accepts_extension(ext) {
            let mut m = concat3("Invalid file '", file, "' for language '");
            m.append(language);
            m.append("'. Expected: e.g. 'file");
            m.append(l.script_extension());
            m.append("'");
            return Err(m);
        }
    }
    match status {
        FileStatus::Missing => Err(concat2("File not found: ", file)),
        FileStatus::Unreadable(e) => Err(e),
        FileStatus::NotAFile => Err(concat2("Path is not a file: ", file)),
        FileStatus::Regular { executable } => {
            match lang {
                None => Err(concat2("Unsupported language: ", language)),
                Some(l) => {
                    if l.compiled() && !executable {
                        Err(concat2("File is not executable: ", file))
                    } else {
                        let path = launch_path_for(l, file, absolute);
                        Ok(command_vector(l, ext, path))
                    }
                },
            }
        },
    }
}

} // verus!
