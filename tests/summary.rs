use git_client::repo::decimal_string;
use git_client::{rank, summarize, Repo};

fn repo(stars: u32, name: &str, language: Option<&str>) -> Repo {
    Repo::new(stars, name.to_string(), language.map(|l| l.to_string()))
}

#[test]
fn three_records_keep_starred_in_descending_order() {
    let lines = summarize(vec![
        repo(5, "a", Some("Go")),
        repo(0, "b", None),
        repo(20, "c", Some("Rust")),
    ]);
    assert_eq!(
        lines,
        vec![
            "Name: c, language: Rust, 20".to_string(),
            "Name: a, language: Go, 5".to_string(),
        ]
    );
}

#[test]
fn empty_input_gives_no_lines() {
    assert!(summarize(Vec::new()).is_empty());
}

#[test]
fn only_unstarred_gives_no_lines() {
    assert!(summarize(vec![repo(0, "x", None), repo(0, "y", Some("C"))]).is_empty());
}

#[test]
fn equal_star_counts_both_appear_once() {
    let lines = summarize(vec![
        repo(10, "first", Some("Go")),
        repo(3, "low", None),
        repo(10, "second", None),
    ]);
    assert_eq!(lines.len(), 3);
    let first = "Name: first, language: Go, 10".to_string();
    let second = "Name: second, language: not specified, 10".to_string();
    assert_eq!(lines.iter().filter(|l| **l == first).count(), 1);
    assert_eq!(lines.iter().filter(|l| **l == second).count(), 1);
    assert_eq!(lines[2], "Name: low, language: not specified, 3");
}

#[test]
fn unstarred_records_are_absent() {
    let lines = summarize(vec![
        repo(0, "zero", Some("Go")),
        repo(1, "one", None),
        repo(0, "nil", None),
    ]);
    assert_eq!(lines, vec!["Name: one, language: not specified, 1".to_string()]);
    assert!(lines.iter().all(|l| !l.contains("zero") && !l.contains("nil")));
}

#[test]
fn ranked_star_counts_never_rise() {
    let ranked = rank(vec![
        repo(7, "a", None),
        repo(42, "b", None),
        repo(0, "c", None),
        repo(7, "d", None),
        repo(100, "e", None),
        repo(1, "f", None),
    ]);
    let stars: Vec<u32> = ranked.iter().map(|r| r.stargazers_count).collect();
    assert_eq!(stars, vec![100, 42, 7, 7, 1]);
    let names: Vec<&str> = ranked.iter().map(|r| r.name.as_str()).collect();
    assert_eq!(names, vec!["e", "b", "a", "d", "f"]);
}

#[test]
fn summarizing_twice_renders_the_same_lines() {
    let input = || {
        vec![
            repo(3, "x", Some("Rust")),
            repo(9, "y", None),
            repo(0, "z", Some("C")),
            repo(3, "w", None),
        ]
    };
    let once = summarize(input());
    let again = summarize(rank(input()));
    assert_eq!(once, again);
    assert_eq!(summarize(input()), once);
}

#[test]
fn missing_language_renders_placeholder() {
    assert_eq!(
        repo(8, "tool", None).to_string(),
        "Name: tool, language: not specified, 8"
    );
}

#[test]
fn present_language_is_rendered() {
    assert_eq!(
        repo(12, "lib", Some("Rust")).to_string(),
        "Name: lib, language: Rust, 12"
    );
}

#[test]
fn largest_star_count_renders_in_full() {
    assert_eq!(decimal_string(0), "0");
    assert_eq!(decimal_string(9), "9");
    assert_eq!(decimal_string(10), "10");
    assert_eq!(decimal_string(4294967295), "4294967295");
    assert_eq!(
        repo(u32::MAX, "big", None).to_string(),
        "Name: big, language: not specified, 4294967295"
    );
}
