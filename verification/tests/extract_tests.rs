use polybrain::extract::clean_report;
use polybrain::extract::cleanup_transform;
use polybrain::extract::extract_fenced_code;
use polybrain::extract::format_code_output;
use polybrain::text::contains_str;
use polybrain::text::find_from;
use polybrain::text::replace_all;
use polybrain::text::trim;
use polybrain::text::trim_assistant_prefix;

#[test]
fn extracts_single_closed_block() {
    let reply = "Here you go:\n```\nprint(1)\n```\nDone.";
    assert_eq!(extract_fenced_code(reply), "print(1)");
}

#[test]
fn extracts_block_missing_closing_fence() {
    let reply = "Sure:\n```\nx = 1\nprint(x)\n";
    assert_eq!(extract_fenced_code(reply), "x = 1\nprint(x)");
}

#[test]
fn closing_fence_round_trip() {
    // appending the missing closing fence and re-extracting yields the
    // same code
    let reply = "Sure:\n```\nx = 1\nprint(x)\n";
    let closed = format!("{}\n```", reply);
    assert_eq!(extract_fenced_code(reply), extract_fenced_code(&closed));
}

#[test]
fn joins_two_blocks_with_newline() {
    let reply = "```\na = 1\n```\ntext\n```\nb = 2\n```";
    assert_eq!(extract_fenced_code(reply), "a = 1\nb = 2");
}

#[test]
fn format_code_output_drops_python_labels() {
    let reply = "```python\nprint('hi')\n```";
    assert_eq!(format_code_output(reply).unwrap(), "print('hi')");
    let reply2 = "```py\nprint('ho')\n```";
    assert_eq!(format_code_output(reply2).unwrap(), "print('ho')");
}

#[test]
fn format_code_output_plain_text_is_empty() {
    assert_eq!(format_code_output("no code here").unwrap(), "");
    assert_eq!(format_code_output("").unwrap(), "");
}

#[test]
fn cleanup_leaves_marker_free_text_alone() {
    let s = "a plain sentence, no fences";
    assert_eq!(cleanup_transform(s), s);
}

#[test]
fn cleanup_strips_fences_and_marker() {
    let s = "```yaml\ncommand: Report\noutput: none: null\n```";
    assert_eq!(cleanup_transform(s), "\ncommand: Report\n\n");
}

#[test]
fn cleanup_is_idempotent_on_cleaned_text() {
    let s = "```yaml\nplan: build a box\noutput: none: null\n```";
    let once = cleanup_transform(s);
    let twice = cleanup_transform(&once);
    assert_eq!(once, twice);
}

#[test]
fn clean_report_takes_last_content_section() {
    let turn = "\ncommand: Report\ninput:\n  content: |\n    Build a box.\noutput: none: null\n";
    assert_eq!(clean_report(turn), "\n    Build a box.");
}

#[test]
fn clean_report_strips_leading_bar() {
    let turn = "content:| keep this";
    assert_eq!(clean_report(turn), " keep this");
}

#[test]
fn replace_all_scans_left_to_right() {
    assert_eq!(replace_all("aaaa", "aa", "b"), "bb");
    assert_eq!(replace_all("no match", "zz", "y"), "no match");
}

#[test]
fn trim_strips_outer_whitespace_only() {
    assert_eq!(trim("  a b \n\t"), "a b");
    assert_eq!(trim("\n\n"), "");
}

#[test]
fn find_from_returns_first_occurrence() {
    assert_eq!(find_from("abcabc", 0, "bc"), Some(1));
    assert_eq!(find_from("abcabc", 2, "bc"), Some(4));
    assert_eq!(find_from("abcabc", 0, "zz"), None);
}

#[test]
fn contains_str_reports_presence() {
    assert!(contains_str("hello world", "lo w"));
    assert!(!contains_str("hello world", "Lo W"));
}

#[test]
fn trim_assistant_prefix_strips_tag() {
    assert_eq!(trim_assistant_prefix("Assistant:  hello"), "hello");
    assert_eq!(trim_assistant_prefix("hello"), "hello");
    assert_eq!(trim_assistant_prefix("Assistant:hi"), "hi");
}
