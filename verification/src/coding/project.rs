//! What kind of project the workspace holds, told by its manifest files, and how it is tested.

use vstd::prelude::*;

use crate::text::lines::{blank, is_blank};
use crate::text::{opt_str, outcome, text};

verus! {

#[derive(Debug, Clone, Copy, PartialEq, Eq, Structural)]
pub enum Language {
    Rust,
    Node,
    Python,
    Go,
    Unknown,
}

impl Language {
    /// The conventional test command for a language, if there is one.
    pub open spec fn test_command(self) -> Option<Seq<char>> {
        match self {
            Language::Rust => Some("cargo test"@),
            Language::Node => Some("npm test"@),
            Language::Python => Some("pytest"@),
            Language::Go => Some("go test ./..."@),
            Language::Unknown => None,
        }
    }

    /// The conventional test command for this language, if known.
    pub fn default_test_command(self) -> (r: Option<&'static str>)
        ensures
            opt_str(r) == self.test_command(),
    {
        match self {
            Language::Rust => Some("cargo test"),
            Language::Node => Some("npm test"),
            Language::Python => Some("pytest"),
            Language::Go => Some("go test ./..."),
            Language::Unknown => None,
        }
    }
}

/// The manifest files in the order in which they are looked for, each with the language that it
/// tells of. The last three are those of a Python project without a `pyproject.toml`.
pub open spec fn markers() -> Seq<(Seq<char>, Language)> {
    seq![
        ("Cargo.toml"@, Language::Rust),
        ("package.json"@, Language::Node),
        ("pyproject.toml"@, Language::Python),
        ("go.mod"@, Language::Go),
        ("setup.py"@, Language::Python),
        ("requirements.txt"@, Language::Python),
        ("pytest.ini"@, Language::Python),
    ]
}

/// The manifest file with number `i`, and its language.
fn marker(i: usize) -> (r: (&'static str, Language))
    requires
        i < 7,
    ensures
        (r.0@, r.1) == markers()[i as int],
{
    match i {
        0 => ("Cargo.toml", Language::Rust),
        1 => ("package.json", Language::Node),
        2 => ("pyproject.toml", Language::Python),
        3 => ("go.mod", Language::Go),
        4 => ("setup.py", Language::Python),
        5 => ("requirements.txt", Language::Python),
        _ => ("pytest.ini", Language::Python),
    }
}

/// How the search for a manifest file goes on.
#[derive(Debug)]
pub enum Search<T> {
    /// Look whether this file can be read.
    Probe(&'static str),
    Known(T),
}

/// The first of the files looked for that was found.
pub open spec fn first_found(found: Seq<bool>, from: int) -> Option<int>
    decreases found.len() - from,
{
    if from < 0 || from >= found.len() {
        None
    } else if found[from] {
        Some(from)
    } else {
        first_found(found, from + 1)
    }
}

/// The language of the project, given which manifest files were found; none while the search is
/// not over. The first manifest found decides.
pub open spec fn detected(found: Seq<bool>) -> Option<Language> {
    match first_found(found, 0) {
        Some(i) => if i < markers().len() {
            Some(markers()[i].1)
        } else {
            Some(Language::Unknown)
        },
        None => if found.len() >= markers().len() {
            Some(Language::Unknown)
        } else {
            None
        },
    }
}

/// Detects the language of the project. `found` says of the manifest files looked for so far
/// whether they could be read.
pub fn detect(found: &Vec<bool>) -> (r: Search<Language>)
    ensures
        match r {
            Search::Known(language) => detected(found@) == Some(language),
            Search::Probe(file) => {
                &&& detected(found@) is None
                &&& found@.len() < markers().len()
                &&& file@ == markers()[found@.len() as int].0
            },
        },
{
    let mut i: usize = 0;
    while i < found.len()
        invariant
            i <= found@.len(),
            first_found(found@, 0) == first_found(found@, i as int),
        decreases found@.len() - i,
    {
        if found[i] {
            return Search::Known(
                if i < 7 {
                    marker(i).1
                } else {
                    Language::Unknown
                },
            );
        }
        i += 1;
    }
    if found.len() >= 7 {
        Search::Known(Language::Unknown)
    } else {
        Search::Probe(marker(found.len()).0)
    }
}

/// The command that is given, unless it is blank.
pub open spec fn given_command(override_cmd: Option<Seq<char>>) -> Option<Seq<char>> {
    match override_cmd {
        Some(cmd) => if is_blank(cmd) {
            None
        } else {
            Some(cmd)
        },
        None => None,
    }
}

/// The conventional test command, or that there is none.
pub open spec fn conventional(language: Language) -> Result<Seq<char>, Seq<char>> {
    match language.test_command() {
        Some(cmd) => Ok(cmd),
        None => Err(
            "could not detect project type; pass an explicit `command` to run_tests"@,
        ),
    }
}

/// The test command of the project: the one that is given, else the conventional one; none while
/// the search for the language is not over.
pub open spec fn command_for(override_cmd: Option<Seq<char>>, found: Seq<bool>) -> Option<
    Result<Seq<char>, Seq<char>>,
> {
    match given_command(override_cmd) {
        Some(cmd) => Some(Ok(cmd)),
        None => match detected(found) {
            Some(language) => Some(conventional(language)),
            None => None,
        },
    }
}

/// Resolves the test command of the project.
pub fn test_command(override_cmd: Option<&str>, found: &Vec<bool>) -> (r: Search<
    Result<String, String>,
>)
    ensures
        match r {
            Search::Known(command) => command_for(opt_str(override_cmd), found@) == Some(
                outcome(command),
            ),
            Search::Probe(file) => {
                &&& command_for(opt_str(override_cmd), found@) is None
                &&& found@.len() < markers().len()
                &&& file@ == markers()[found@.len() as int].0
            },
        },
{
    match override_cmd {
        Some(cmd) => if !blank(cmd) {
            return Search::Known(Ok(text(cmd)));
        },
        None => {},
    }
    match detect(found) {
        Search::Probe(file) => Search::Probe(file),
        Search::Known(language) => Search::Known(
            match language.default_test_command() {
                Some(cmd) => Ok(text(cmd)),
                None => Err(
                    text("could not detect project type; pass an explicit `command` to run_tests"),
                ),
            },
        ),
    }
}

/// An earlier manifest file decides, whatever stands beside it.
pub proof fn first_manifest_wins(found: Seq<bool>, i: int)
    requires
        0 <= i < found.len(),
        i < markers().len(),
        found[i],
        forall|j: int| 0 <= j < i ==> !found[j],
    ensures
        detected(found) == Some(markers()[i].1),
{
    first_found_skips(found, 0, i);
}

proof fn first_found_skips(found: Seq<bool>, from: int, i: int)
    requires
        0 <= from <= i < found.len(),
        forall|j: int| from <= j < i ==> !found[j],
        found[i],
    ensures
        first_found(found, from) == Some(i),
    decreases i - from,
{
    if from < i {
        first_found_skips(found, from + 1, i);
    }
}

} // verus!
