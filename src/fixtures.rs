//! Model of the test fixtures that exercise generated parsers on each
//! runtime: the tests, their selection, and the names and outcomes that the
//! runtimes' executors deal in.
use vstd::prelude::*;
use vstd::string::StrSliceExecFns;
use vstd::string::StringExecFns;
use vstd::string::StringSliceAdditionalSpecFns;
use vstd::utf8::encode_utf8;

use crate::naming::{
    ascii_text, contains, contains_exec, converted, occurs_at, to_snake_case, to_upper_camel_case,
    NamingStyle,
};

verus! {

/// A fixture definition: its name and its content
pub struct FixtureDef(pub &'static str, pub &'static [u8]);

/// A test in a fixture
pub enum Test {
    /// An output test
    Output(OutputTest),
    /// A parsing test
    Parsing(ParsingTest),
}

/// An output test
pub struct OutputTest {
    /// The test name
    pub name: String,
    /// The input for the parser
    pub input: String,
    /// The expected output
    pub output: Vec<String>,
}

/// The verb for a parsing test
#[derive(Clone, Copy, Debug, PartialEq, Eq, Structural)]
pub enum ParsingTestVerb {
    /// The produced AST matches the expected one
    Matches,
    /// The produced AST does NOT match the provided one
    NoMatch,
    /// The parsing fails
    Fails,
}

/// A parsing test
pub struct ParsingTest {
    /// The test name
    pub name: String,
    /// The verb for this test
    pub verb: ParsingTestVerb,
    /// The input for the parser
    pub input: String,
    /// The string serialization of the reference AST
    pub tree: String,
}

/// How the run of a test on one runtime ended
#[derive(Clone, Copy, Debug, PartialEq, Eq, Structural)]
pub enum TestResultStatus {
    /// The test passed
    Success,
    /// The test failed
    Failure,
    /// The executor could not run the test
    Error,
}

/// Whether `pattern` occurs in `text`, on their UTF-8 bytes.
fn occurs_in(text: &str, pattern: &str) -> (r: bool)
    ensures
        r == contains(text.spec_bytes(), pattern.spec_bytes()),
{
    let t = text.as_bytes_vec();
    let p = pattern.as_bytes_vec();
    if p.len() == 0 {
        assert(t@.subrange(0, 0) =~= p@);
        assert(occurs_at(t@, p@, 0));
        true
    } else {
        contains_exec(&t, &p)
    }
}

impl Test {
    /// The name of the test.
    pub open spec fn spec_name(&self) -> Seq<char> {
        match self {
            Test::Output(inner) => inner.name@,
            Test::Parsing(inner) => inner.name@,
        }
    }

    /// Checks whether this test should be executed: always without a
    /// filter, else when the filter occurs in the test's name
    pub fn is_selected(&self, filter: Option<&str>) -> (r: bool)
        ensures
            r == match filter {
                None => true,
                Some(f) => contains(encode_utf8(self.spec_name()), f.spec_bytes()),
            },
    {
        match filter {
            None => true,
            Some(filter) => match self {
                Test::Output(inner) => occurs_in(inner.name.as_str(), filter),
                Test::Parsing(inner) => occurs_in(inner.name.as_str(), filter),
            },
        }
    }
}

impl ParsingTestVerb {
    /// Gets the string representation for the verb
    pub fn as_str(&self) -> (r: &'static str)
        ensures
            r@ == match self {
                ParsingTestVerb::Matches => "matches"@,
                ParsingTestVerb::NoMatch => "nomatches"@,
                ParsingTestVerb::Fails => "fails"@,
            },
    {
        match self {
            ParsingTestVerb::Matches => "matches",
            ParsingTestVerb::NoMatch => "nomatches",
            ParsingTestVerb::Fails => "fails",
        }
    }
}

impl TestResultStatus {
    /// The status of a run from the exit code of its executor: 0 on
    /// success, 1 on failure, anything else (or none) on error
    pub fn from_exit_code(code: Option<i32>) -> (r: TestResultStatus)
        ensures
            r == match code {
                Some(0) => TestResultStatus::Success,
                Some(1) => TestResultStatus::Failure,
                _ => TestResultStatus::Error,
            },
    {
        match code {
            Some(0) => TestResultStatus::Success,
            Some(1) => TestResultStatus::Failure,
            _ => TestResultStatus::Error,
        }
    }
}

/// The class of the generated parser for a test on the .Net runtime:
/// `<Name>.<Name>Parser`, with the name in upper camel case
pub fn net_parser_class(test_name: &str) -> (r: String)
    ensures
        r@ == ascii_text(converted(test_name.spec_bytes(), NamingStyle::UpperCamel)) + "."@
            + ascii_text(converted(test_name.spec_bytes(), NamingStyle::UpperCamel)) + "Parser"@,
{
    let name = to_upper_camel_case(test_name);
    let r = name.clone().concat(".");
    let r = r.concat(name.as_str());
    r.concat("Parser")
}

/// The class of the generated parser for a test on the Java runtime:
/// `<name>.<Name>Parser`, the package in snake case, the class in upper
/// camel case
pub fn java_parser_class(test_name: &str) -> (r: String)
    ensures
        r@ == ascii_text(converted(test_name.spec_bytes(), NamingStyle::Snake)) + "."@
            + ascii_text(converted(test_name.spec_bytes(), NamingStyle::UpperCamel)) + "Parser"@,
{
    let package = to_snake_case(test_name);
    let class = to_upper_camel_case(test_name);
    let r = package.concat(".");
    let r = r.concat(class.as_str());
    r.concat("Parser")
}

/// Where the test driver runs from, as told by the directory of its
/// executable
#[derive(Clone, Copy, Debug, PartialEq, Eq, Structural)]
pub enum RunLocation {
    /// The directory of the packaged test results
    TestsResults,
    /// The debug output of a build (`target/debug`)
    DebugBuild,
    /// Anywhere else
    Elsewhere,
}

/// The location of a directory given by its components, as the test driver
/// tells it: by its last component `tests-results`, or its last two
/// `target` and `debug`.
pub open spec fn location_of(dir: Seq<Seq<char>>) -> RunLocation {
    if dir.len() >= 1 && dir.last() == "tests-results"@ {
        RunLocation::TestsResults
    } else if dir.len() >= 2 && dir[dir.len() - 2] == "target"@ && dir.last() == "debug"@ {
        RunLocation::DebugBuild
    } else {
        RunLocation::Elsewhere
    }
}

pub open spec fn components(dir: Seq<String>) -> Seq<Seq<char>> {
    dir.map_values(|c: String| c@)
}

/// Tells where a directory (given by its components) stands
pub fn location(dir: &Vec<String>) -> (r: RunLocation)
    ensures
        r == location_of(components(dir@)),
{
    let n = dir.len();
    let ghost d = components(dir@);
    if n >= 1 && dir[n - 1] == String::from_str("tests-results") {
        return RunLocation::TestsResults;
    }
    if n >= 2 && dir[n - 2] == String::from_str("target") && dir[n - 1] == String::from_str("debug") {
        return RunLocation::DebugBuild;
    }
    RunLocation::Elsewhere
}

/// The root of the repository from the directory of the executable: one
/// level up from the test results, two from a debug build, else the
/// directory itself.
pub open spec fn repo_root_of(dir: Seq<Seq<char>>) -> Seq<Seq<char>> {
    match location_of(dir) {
        RunLocation::TestsResults => dir.drop_last(),
        RunLocation::DebugBuild => dir.drop_last().drop_last(),
        RunLocation::Elsewhere => dir,
    }
}

/// Gets the components of the repository's root from those of the
/// directory of the executable
pub fn repo_root(dir: &Vec<String>) -> (r: Vec<String>)
    ensures
        components(r@) == repo_root_of(components(dir@)),
{
    let loc = location(dir);
    let keep: usize = match loc {
        RunLocation::TestsResults => dir.len() - 1,
        RunLocation::DebugBuild => dir.len() - 2,
        RunLocation::Elsewhere => dir.len(),
    };
    let mut r: Vec<String> = Vec::new();
    let mut i: usize = 0;
    while i < keep
        invariant
            keep <= dir@.len(),
            i <= keep,
            r@ == dir@.subrange(0, i as int),
        decreases keep - i,
    {
        let c = dir[i].clone();
        r.push(c);
        i += 1;
        assert(r@ =~= dir@.subrange(0, i as int));
    }
    assert(components(r@) =~= repo_root_of(components(dir@)));
    r
}

/// The name of the Rust executor next to the test driver, if it is known
/// at that location
pub fn rust_executor_name(location: RunLocation) -> (r: Option<&'static str>)
    ensures
        match location {
            RunLocation::TestsResults => r matches Some(s) && s@ == "executor-rust"@,
            RunLocation::DebugBuild => r matches Some(s) && s@ == "hime_tests_executor_rust"@,
            RunLocation::Elsewhere => r is None,
        },
{
    match location {
        RunLocation::TestsResults => Some("executor-rust"),
        RunLocation::DebugBuild => Some("hime_tests_executor_rust"),
        RunLocation::Elsewhere => None,
    }
}

/// The path of the .Net executor for a location (empty when unknown)
pub fn net_executor_path(location: RunLocation) -> (r: &'static str)
    ensures
        r@ == match location {
            RunLocation::TestsResults => "executor-net.exe"@,
            RunLocation::DebugBuild => "executor.exe"@,
            RunLocation::Elsewhere => ""@,
        },
{
    match location {
        RunLocation::TestsResults => "executor-net.exe",
        RunLocation::DebugBuild => "executor.exe",
        RunLocation::Elsewhere => "",
    }
}

/// The path of the Java executor for a location (empty when unknown)
pub fn java_executor_path(location: RunLocation) -> (r: &'static str)
    ensures
        r@ == match location {
            RunLocation::TestsResults => "executor-java.jar"@,
            RunLocation::DebugBuild => "hime-test-executor-4.4.0-SNAPSHOT.jar"@,
            RunLocation::Elsewhere => ""@,
        },
{
    match location {
        RunLocation::TestsResults => "executor-java.jar",
        RunLocation::DebugBuild => "hime-test-executor-4.4.0-SNAPSHOT.jar",
        RunLocation::Elsewhere => "",
    }
}

/// Why no grammar can be chosen
#[derive(Clone, Copy, Debug, PartialEq, Eq, Structural)]
pub enum GrammarChoice {
    /// There is no grammar, or several and no name to choose by
    NotSpecified,
    /// No grammar has the requested name
    NotFound,
}

/// The position of the first name equal to `name` from position `i` on,
/// if any.
pub open spec fn first_named_from(names: Seq<Seq<char>>, name: Seq<char>, i: int) -> Option<int>
    decreases names.len() - i,
{
    if i < 0 || i >= names.len() {
        None
    } else if names[i] == name {
        Some(i)
    } else {
        first_named_from(names, name, i + 1)
    }
}

/// The position of the first name equal to `name`, if any.
pub open spec fn first_named(names: Seq<Seq<char>>, name: Seq<char>) -> Option<int> {
    first_named_from(names, name, 0)
}

/// Chooses the grammar to compile among those loaded (by their names):
/// the only one when there is one, else the first with the requested name
pub fn select_grammar(names: &Vec<String>, requested: Option<&str>) -> (r: Result<usize, GrammarChoice>)
    ensures
        (r == Err::<usize, GrammarChoice>(GrammarChoice::NotSpecified)) <==> (names@.len() == 0 || (names@.len()
            > 1 && requested is None)),
        names@.len() == 1 ==> r == Ok::<usize, GrammarChoice>(0),
        names@.len() > 1 && requested is Some ==> match first_named(components(names@), requested->0@) {
            Some(i) => r == Ok::<usize, GrammarChoice>(i as usize),
            None => r == Err::<usize, GrammarChoice>(GrammarChoice::NotFound),
        },
{
    if names.len() == 0 {
        return Err(GrammarChoice::NotSpecified);
    }
    if names.len() == 1 {
        return Ok(0);
    }
    let name = match requested {
        None => {
            return Err(GrammarChoice::NotSpecified);
        },
        Some(name) => String::from_str(name),
    };
    let ghost all = components(names@);
    let mut i: usize = 0;
    while i < names.len()
        invariant
            i <= names@.len(),
            names@.len() > 1,
            requested is Some,
            name@ == requested->0@,
            all == components(names@),
            first_named(all, name@) == first_named_from(all, name@, i as int),
        decreases names.len() - i,
    {
        assert(all[i as int] == names@[i as int]@);
        if names[i] == name {
            return Ok(i);
        }
        i += 1;
    }
    Err(GrammarChoice::NotFound)
}

} // verus!
