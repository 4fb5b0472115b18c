use hime_output::binary::{write_u16, write_u32, write_u8};
use hime_output::fixtures::{
    java_executor_path, java_parser_class, select_grammar, GrammarChoice, location, net_executor_path, net_parser_class, repo_root,
    rust_executor_name, OutputTest, ParsingTest, ParsingTestVerb, RunLocation, Test, TestResultStatus,
};

fn output_test(name: &str) -> Test {
    Test::Output(OutputTest { name: name.to_string(), input: "'a'".to_string(), output: vec!["'a'".to_string()] })
}

fn parsing_test(name: &str) -> Test {
    Test::Parsing(ParsingTest {
        name: name.to_string(),
        verb: ParsingTestVerb::Matches,
        input: "'a'".to_string(),
        tree: String::new(),
    })
}

#[test]
fn selection_by_filter() {
    assert!(output_test("Simple_Test").is_selected(None));
    assert!(output_test("Simple_Test").is_selected(Some("Simple")));
    assert!(!output_test("Simple_Test").is_selected(Some("simple")));
    assert!(parsing_test("LR0_Expression").is_selected(Some("Expr")));
    assert!(!parsing_test("LR0").is_selected(Some("LR0_")));
    assert!(parsing_test("anything").is_selected(Some("")));
}

#[test]
fn verbs() {
    assert_eq!("matches", ParsingTestVerb::Matches.as_str());
    assert_eq!("nomatches", ParsingTestVerb::NoMatch.as_str());
    assert_eq!("fails", ParsingTestVerb::Fails.as_str());
}

#[test]
fn exit_codes() {
    assert_eq!(TestResultStatus::Success, TestResultStatus::from_exit_code(Some(0)));
    assert_eq!(TestResultStatus::Failure, TestResultStatus::from_exit_code(Some(1)));
    assert_eq!(TestResultStatus::Error, TestResultStatus::from_exit_code(Some(2)));
    assert_eq!(TestResultStatus::Error, TestResultStatus::from_exit_code(Some(-1)));
    assert_eq!(TestResultStatus::Error, TestResultStatus::from_exit_code(None));
}

#[test]
fn parser_classes() {
    assert_eq!("SimpleTest.SimpleTestParser", net_parser_class("simple_test"));
    assert_eq!("simple_test.SimpleTestParser", java_parser_class("SimpleTest"));
}

#[test]
fn little_endian_writers() {
    let mut buffer = vec![0xAA];
    write_u8(&mut buffer, 0x12);
    write_u16(&mut buffer, 0x3456);
    write_u32(&mut buffer, 0x789A_BCDE);
    assert_eq!(vec![0xAA, 0x12, 0x56, 0x34, 0xDE, 0xBC, 0x9A, 0x78], buffer);
    let mut max = Vec::new();
    write_u16(&mut max, u16::MAX);
    write_u32(&mut max, u32::MAX);
    assert_eq!(vec![0xFF; 6], max);
}

fn dir(parts: &[&str]) -> Vec<String> {
    parts.iter().map(|p| p.to_string()).collect()
}

#[test]
fn run_locations() {
    assert_eq!(RunLocation::TestsResults, location(&dir(&["", "home", "hime", "tests-results"])));
    assert_eq!(RunLocation::DebugBuild, location(&dir(&["", "hime", "target", "debug"])));
    assert_eq!(RunLocation::Elsewhere, location(&dir(&["", "hime", "debug"])));
    assert_eq!(RunLocation::Elsewhere, location(&dir(&[])));
}

#[test]
fn repository_root() {
    assert_eq!(dir(&["", "hime"]), repo_root(&dir(&["", "hime", "tests-results"])));
    assert_eq!(dir(&["", "hime"]), repo_root(&dir(&["", "hime", "target", "debug"])));
    assert_eq!(dir(&["", "hime", "bin"]), repo_root(&dir(&["", "hime", "bin"])));
}

#[test]
fn executor_names() {
    assert_eq!(Some("executor-rust"), rust_executor_name(RunLocation::TestsResults));
    assert_eq!(Some("hime_tests_executor_rust"), rust_executor_name(RunLocation::DebugBuild));
    assert_eq!(None, rust_executor_name(RunLocation::Elsewhere));
    assert_eq!("executor.exe", net_executor_path(RunLocation::DebugBuild));
    assert_eq!("executor-java.jar", java_executor_path(RunLocation::TestsResults));
    assert_eq!("", java_executor_path(RunLocation::Elsewhere));
}

#[test]
fn grammar_choice() {
    assert_eq!(Err(GrammarChoice::NotSpecified), select_grammar(&dir(&[]), None));
    assert_eq!(Err(GrammarChoice::NotSpecified), select_grammar(&dir(&[]), Some("a")));
    assert_eq!(Ok(0), select_grammar(&dir(&["only"]), None));
    assert_eq!(Ok(0), select_grammar(&dir(&["only"]), Some("other")));
    assert_eq!(Err(GrammarChoice::NotSpecified), select_grammar(&dir(&["a", "b"]), None));
    assert_eq!(Ok(1), select_grammar(&dir(&["a", "b", "b"]), Some("b")));
    assert_eq!(Err(GrammarChoice::NotFound), select_grammar(&dir(&["a", "b"]), Some("c")));
}
