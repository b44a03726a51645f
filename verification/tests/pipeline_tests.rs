use cleaner_lib::buffer::{render_lines, LineBuffer};
use cleaner_lib::pipeline::{clean, PipelineOutcome};

fn buf(lines: &[&str]) -> LineBuffer {
    LineBuffer { lines: lines.iter().map(|s| s.to_string()).collect() }
}

fn owned(lines: &[&str]) -> Vec<String> {
    lines.iter().map(|s| s.to_string()).collect()
}

#[test]
fn trims_partial_last_line() {
    let b = buf(&["a\tb\tc", "1\t2\t3", "4\t5", ""]);
    match clean(&b, 2) {
        PipelineOutcome::Rewritten(out) => {
            assert_eq!(out.lines, owned(&["a\tb\tc", "1\t2\t3"]));
        },
        _ => panic!("expected a rewrite"),
    }
}

#[test]
fn removes_every_trailing_blank_line() {
    let b = buf(&["a\tb", "1\t2", "", "", ""]);
    match clean(&b, 2) {
        PipelineOutcome::Rewritten(out) => {
            assert_eq!(out.lines, owned(&["a\tb", "1\t2"]));
        },
        _ => panic!("expected a rewrite"),
    }
}

#[test]
fn deletes_short_content() {
    let b = buf(&["a\tb", ""]);
    assert!(matches!(clean(&b, 2), PipelineOutcome::Delete));
}

#[test]
fn deletes_empty_content() {
    let b = buf(&[]);
    assert!(matches!(clean(&b, 2), PipelineOutcome::Delete));
}

#[test]
fn deletes_on_header_mismatch() {
    let b = buf(&["a\tb\tc", "1\t2"]);
    assert!(matches!(clean(&b, 2), PipelineOutcome::Delete));
}

#[test]
fn keeps_sound_content_unchanged() {
    let b = buf(&["a\tb", "1\t2"]);
    assert!(matches!(clean(&b, 2), PipelineOutcome::Unchanged));
}

#[test]
fn removes_row_with_shortened_last_field() {
    let b = buf(&["h1\th2", "1\t22", "3\t4"]);
    match clean(&b, 2) {
        PipelineOutcome::Rewritten(out) => {
            assert_eq!(out.lines, owned(&["h1\th2", "1\t22"]));
        },
        _ => panic!("expected a rewrite"),
    }
}

#[test]
fn keeps_row_with_equal_last_field_length() {
    let b = buf(&["h1\th2", "1\t22", "3\t44"]);
    assert!(matches!(clean(&b, 2), PipelineOutcome::Unchanged));
}

#[test]
fn respects_higher_minimum() {
    let b = buf(&["preamble", "more", "h\tv", "1\t2"]);
    assert!(matches!(clean(&b, 4), PipelineOutcome::Unchanged));
    let short = buf(&["preamble", "h\tv", "1\t2"]);
    assert!(matches!(clean(&short, 4), PipelineOutcome::Delete));
}

#[test]
fn renders_lines_with_newlines() {
    let b = buf(&["a\tb", "1\t2"]);
    assert_eq!(render_lines(&b), "a\tb\n1\t2\n");
    let empty = buf(&[]);
    assert_eq!(render_lines(&empty), "");
}
