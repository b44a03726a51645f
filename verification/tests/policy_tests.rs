use cleaner_lib::buffer::LineBuffer;
use cleaner_lib::policy::{
    classify_file, is_special_format, ExtensionDecision, ExtensionPolicy, ExtensionRule,
};
use cleaner_lib::process::{process_lines, FileAction};

fn policy() -> ExtensionPolicy {
    ExtensionPolicy {
        rules: vec![
            ExtensionRule { extension: "OSC".to_string(), min_lines: Some(6) },
            ExtensionRule { extension: "LOG".to_string(), min_lines: None },
        ],
    }
}

fn buf(lines: &[&str]) -> LineBuffer {
    LineBuffer { lines: lines.iter().map(|s| s.to_string()).collect() }
}

#[test]
fn skips_names_without_extension() {
    assert!(matches!(classify_file(&"README".to_string(), &policy()), ExtensionDecision::Skip));
    assert!(matches!(classify_file(&".hidden".to_string(), &policy()), ExtensionDecision::Skip));
    assert!(matches!(classify_file(&"file.".to_string(), &policy()), ExtensionDecision::Skip));
}

#[test]
fn reports_unconfigured_extension() {
    assert!(matches!(
        classify_file(&"data.txt".to_string(), &policy()),
        ExtensionDecision::Unknown
    ));
}

#[test]
fn finds_rule_case_insensitively() {
    match classify_file(&"run.osc".to_string(), &policy()) {
        ExtensionDecision::Rule { extension, min_lines, defaulted } => {
            assert_eq!(extension, "OSC");
            assert_eq!(min_lines, 6);
            assert!(!defaulted);
        },
        _ => panic!("expected a rule"),
    }
}

#[test]
fn defaults_missing_minimum_to_two() {
    match classify_file(&"a.log".to_string(), &policy()) {
        ExtensionDecision::Rule { extension, min_lines, defaulted } => {
            assert_eq!(extension, "LOG");
            assert_eq!(min_lines, 2);
            assert!(defaulted);
        },
        _ => panic!("expected a rule"),
    }
}

#[test]
fn recognizes_the_special_format() {
    assert!(is_special_format(&"OSC".to_string()));
    assert!(!is_special_format(&"LOG".to_string()));
    assert!(!is_special_format(&"osc".to_string()));
}

#[test]
fn processes_ordinary_file() {
    let b = buf(&["a\tb", "1\t2", ""]);
    match process_lines(&b, 2, false) {
        FileAction::Write(out) => {
            assert_eq!(out.lines, vec!["a\tb".to_string(), "1\t2".to_string()]);
        },
        _ => panic!("expected replacement content"),
    }
    let sound = buf(&["a\tb", "1\t2"]);
    assert!(matches!(process_lines(&sound, 2, false), FileAction::Leave));
    let short = buf(&["a\tb"]);
    assert!(matches!(process_lines(&short, 2, false), FileAction::Remove));
}

#[test]
fn processes_special_format_file() {
    let b = buf(&["21.06.24 14:03:55.12", "a", "b", "c", "Time\tValue", "1\t2", ""]);
    match process_lines(&b, 6, true) {
        FileAction::Write(out) => {
            assert_eq!(out.lines[4], "\tDateTime\tTime\tValue");
            assert_eq!(out.lines[5], "\t21.06.24 14:03:55.121\t2");
        },
        _ => panic!("expected replacement content"),
    }
    let plain = buf(&["no stamp", "a", "b", "c", "Time\tValue", "1\t2"]);
    assert!(matches!(process_lines(&plain, 6, true), FileAction::Leave));
}

#[test]
fn persists_trimmed_special_file_without_rewrite() {
    // The pipeline trims the trailing blank, but the first line carries no
    // datetime stamp: the trimmed content is still written back.
    let b = buf(&["no stamp", "a", "b", "c", "Time\tValue", "1\t2", ""]);
    match process_lines(&b, 6, true) {
        FileAction::Write(out) => {
            assert_eq!(
                out.lines,
                vec![
                    "no stamp".to_string(),
                    "a".to_string(),
                    "b".to_string(),
                    "c".to_string(),
                    "Time\tValue".to_string(),
                    "1\t2".to_string(),
                ]
            );
        },
        _ => panic!("expected the trimmed content to be persisted"),
    }
    // Already-marked content that was trimmed is likewise persisted trimmed,
    // without a second rewrite.
    let marked = buf(&[
        "21.06.24 14:03:55.12",
        "a",
        "b",
        "c",
        "\tDateTime\tTime\tValue",
        "\t21.06.24 14:03:55.12\t1\t2",
        "",
    ]);
    match process_lines(&marked, 6, true) {
        FileAction::Write(out) => {
            assert_eq!(out.lines.len(), 6);
            assert_eq!(out.lines[4], "\tDateTime\tTime\tValue");
        },
        _ => panic!("expected the trimmed content to be persisted"),
    }
}
