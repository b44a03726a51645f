use cleaner_lib::buffer::LineBuffer;
use cleaner_lib::rewrite::rewrite_osc;

fn buf(lines: &[&str]) -> LineBuffer {
    LineBuffer { lines: lines.iter().map(|s| s.to_string()).collect() }
}

#[test]
fn rewrites_timestamped_content() {
    let b = buf(&[
        "21.06.24 14:03:55.12",
        "instrument",
        "mode",
        "range",
        "Time\tValue",
        "1\t2",
        "3\t4",
    ]);
    match rewrite_osc(&b) {
        Some(out) => {
            assert_eq!(out.lines[0], "21.06.24 14:03:55.12");
            assert_eq!(out.lines[1], "instrument");
            assert_eq!(out.lines[4], "\tDateTime\tTime\tValue");
            assert_eq!(out.lines[5], "\t21.06.24 14:03:55.121\t2");
            assert_eq!(out.lines[6], "\t21.06.24 14:03:55.123\t4");
            assert_eq!(out.lines.len(), 7);
        },
        None => panic!("expected the rewrite to trigger"),
    }
}

#[test]
fn finds_timestamp_inside_first_line() {
    let b = buf(&["logged at 21.06.24 14:03:55.12 local", "a", "b", "c", "Time\tValue", "1\t2"]);
    assert!(rewrite_osc(&b).is_some());
}

#[test]
fn skips_without_timestamp() {
    let b = buf(&["no datetime here", "a", "b", "c", "Time\tValue", "1\t2"]);
    assert!(rewrite_osc(&b).is_none());
    let malformed = buf(&["21.06.24-14:03:55.12", "a", "b", "c", "Time\tValue", "1\t2"]);
    assert!(rewrite_osc(&malformed).is_none());
}

#[test]
fn skips_already_marked_content() {
    let b = buf(&[
        "21.06.24 14:03:55.12",
        "a",
        "b",
        "c",
        "\tDateTime\tTime\tValue",
        "\t21.06.24 14:03:55.121\t2",
    ]);
    assert!(rewrite_osc(&b).is_none());
}

#[test]
fn second_rewrite_is_a_no_op() {
    let b = buf(&["21.06.24 14:03:55.12", "a", "b", "c", "Time\tValue", "1\t2"]);
    let once = rewrite_osc(&b).expect("first run rewrites");
    assert!(rewrite_osc(&once).is_none());
}
