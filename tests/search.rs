use std::io::BufRead;
use std::io::BufReader;

use fsearch::{keep_decoded, search, Config, SearchError};

fn read_lines(contents: &str) -> Vec<String> {
    let raw: Vec<Option<String>> = BufReader::new(contents.as_bytes())
        .lines()
        .map(|l| l.ok())
        .collect();
    keep_decoded(raw)
}

const BASE: &str = "\
Rust:
safe, fast, productive.
Pick three.";

#[test]
fn one_result() {
    let query = "duct";
    let contents = "\
Rust:
safe, fast, productive.
Pick three.";
    let res = search(query, &read_lines(contents), false).unwrap();
    assert_eq!(vec!["safe, fast, productive."], res);
}

#[test]
fn one_result_with_star() {
    let query = "du.*ct";
    let contents = "\
Rust:
safe, fast, productive.
safe, fast, produ.*ctive.
safe, fast, produ.*fctive.
Pick three.";
    let res = search(query, &read_lines(contents), false).unwrap();
    assert_eq!(vec!["safe, fast, produ.*ctive."], res);
}

#[test]
fn one_result_regex() {
    let query = "fa.*ct";
    let contents = "\
Rust:
safe, fast, productive.
Pick three.";
    let res = search(query, &read_lines(contents), true).unwrap();
    assert_eq!(vec!["safe, fast, productive."], res);
}

#[test]
fn error_regex() {
    let query = "**"; // invalid regex
    let contents = "\
Rust:
safe, fast, productive.
Pick three.";
    let res = search(query, &read_lines(contents), true);
    assert!(res.is_err());
}

#[test]
fn literal_mode_treats_metacharacters_plainly() {
    let res = search("du.*ct", &read_lines(BASE), false).unwrap();
    assert!(res.is_empty());
}

#[test]
fn invalid_pattern_is_reported_as_such() {
    let res = search("**", &read_lines(BASE), true);
    assert!(matches!(res, Err(SearchError::InvalidPattern(_))));
    let res = search("foo(bar", &read_lines(BASE), true);
    assert!(matches!(res, Err(SearchError::InvalidPattern(_))));
}

#[test]
fn invalid_pattern_is_fine_in_literal_mode() {
    let lines = vec!["a ** b".to_string(), "ab".to_string()];
    let res = search("**", &lines, false).unwrap();
    assert_eq!(vec!["a ** b"], res);
}

#[test]
fn no_match_is_empty_success() {
    let res = search("zebra", &read_lines(BASE), false).unwrap();
    assert!(res.is_empty());
    let res = search("^zebra$", &read_lines(BASE), true).unwrap();
    assert!(res.is_empty());
}

#[test]
fn empty_input_is_empty_success() {
    let lines: Vec<String> = Vec::new();
    assert!(search("x", &lines, false).unwrap().is_empty());
    assert!(search("x", &lines, true).unwrap().is_empty());
}

#[test]
fn two_non_adjacent_matches_keep_order() {
    let contents = "\
alpha needle one
beta
gamma
delta needle two
epsilon";
    let res = search("needle", &read_lines(contents), false).unwrap();
    assert_eq!(vec!["alpha needle one", "delta needle two"], res);
    let res = search("ne+dle", &read_lines(contents), true).unwrap();
    assert_eq!(vec!["alpha needle one", "delta needle two"], res);
}

#[test]
fn repeated_search_is_identical() {
    let lines = read_lines(BASE);
    let first = search("a", &lines, false).unwrap();
    let second = search("a", &lines, false).unwrap();
    assert_eq!(first, second);
    assert_eq!(vec!["safe, fast, productive."], first);
    let first = search("[RP]", &lines, true).unwrap();
    let second = search("[RP]", &lines, true).unwrap();
    assert_eq!(first, second);
    assert_eq!(vec!["Rust:", "Pick three."], first);
}

#[test]
fn literal_match_is_case_sensitive() {
    let res = search("rust", &read_lines(BASE), false).unwrap();
    assert!(res.is_empty());
    let res = search("Rust", &read_lines(BASE), false).unwrap();
    assert_eq!(vec!["Rust:"], res);
}

#[test]
fn empty_literal_query_selects_every_line() {
    let res = search("", &read_lines(BASE), false).unwrap();
    assert_eq!(vec!["Rust:", "safe, fast, productive.", "Pick three."], res);
}

#[test]
fn literal_query_at_line_edges_and_non_ascii() {
    let lines = vec![
        "ductile".to_string(),
        "conduct".to_string(),
        "duc".to_string(),
        "naïve café".to_string(),
    ];
    assert_eq!(vec!["ductile", "conduct"], search("duct", &lines, false).unwrap());
    assert_eq!(vec!["naïve café"], search("é", &lines, false).unwrap());
    assert_eq!(vec!["naïve café"], search("ïve c", &lines, false).unwrap());
}

#[test]
fn duplicate_lines_are_all_kept() {
    let lines = vec!["x".to_string(), "y".to_string(), "x".to_string()];
    assert_eq!(vec!["x", "x"], search("x", &lines, false).unwrap());
}

#[test]
fn pattern_matches_anywhere_in_line() {
    let res = search("fast", &read_lines(BASE), true).unwrap();
    assert_eq!(vec!["safe, fast, productive."], res);
    let res = search("^fast", &read_lines(BASE), true).unwrap();
    assert!(res.is_empty());
}

#[test]
fn undecodable_lines_are_skipped() {
    let raw = vec![Some("one".to_string()), None, Some("three".to_string())];
    assert_eq!(vec!["one", "three"], keep_decoded(raw));
    let bytes: &[u8] = b"good line\nbad \xff line\nlast good";
    let raw: Vec<Option<String>> = BufReader::new(bytes).lines().map(|l| l.ok()).collect();
    assert_eq!(vec!["good line", "last good"], keep_decoded(raw));
}

fn args(items: &[&str]) -> Vec<String> {
    items.iter().map(|s| s.to_string()).collect()
}

#[test]
fn build_reads_query_and_path() {
    let c = Config::build(&args(&["prog", "needle", "file.txt"])).unwrap();
    assert_eq!("needle", c.query);
    assert_eq!("file.txt", c.file_path);
    assert!(!c.use_regex);
}

#[test]
fn build_selects_pattern_mode_with_flag() {
    let c = Config::build(&args(&["prog", "ne+dle", "file.txt", "-r"])).unwrap();
    assert!(c.use_regex);
    let c = Config::build(&args(&["prog", "needle", "file.txt", "-x"])).unwrap();
    assert!(!c.use_regex);
    let c = Config::build(&args(&["prog", "needle", "file.txt", "-rr"])).unwrap();
    assert!(!c.use_regex);
}

#[test]
fn build_fails_without_enough_arguments() {
    assert_eq!(Some("Not enough arguments"), Config::build(&args(&["prog", "needle"])).err());
    assert_eq!(Some("Not enough arguments"), Config::build(&args(&["prog"])).err());
    assert_eq!(Some("Not enough arguments"), Config::build(&args(&[])).err());
}
