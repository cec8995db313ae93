use augu::pending::pending_list;

fn split(text: &str) -> Vec<String> {
    pending_list(text)
}

fn std_lines(text: &str) -> Vec<String> {
    text.lines().map(|line| line.to_owned()).collect()
}

#[test]
fn pending_one_entry_per_line() {
    assert_eq!(split("a/b\nc/d\ne/f"), vec!["a/b", "c/d", "e/f"]);
}

#[test]
fn pending_final_line_ending_is_optional() {
    assert_eq!(split("a/b\nc/d\n"), vec!["a/b", "c/d"]);
    assert_eq!(split("a/b\nc/d"), vec!["a/b", "c/d"]);
}

#[test]
fn pending_empty_text_has_no_entries() {
    assert_eq!(split(""), Vec::<String>::new());
}

#[test]
fn pending_single_line_feed_is_one_empty_entry() {
    assert_eq!(split("\n"), vec![""]);
}

#[test]
fn pending_blank_lines_are_entries() {
    assert_eq!(split("a/b\n\nc/d\n"), vec!["a/b", "", "c/d"]);
    assert_eq!(split("\n\n\n"), vec!["", "", ""]);
    assert_eq!(split("\na/b"), vec!["", "a/b"]);
}

#[test]
fn pending_carriage_return_before_line_feed_is_dropped() {
    assert_eq!(split("a/b\r\nc/d\r\n"), vec!["a/b", "c/d"]);
    assert_eq!(split("\r\n"), vec![""]);
}

#[test]
fn pending_only_one_carriage_return_is_dropped() {
    assert_eq!(split("a/b\r\r\nc/d"), vec!["a/b\r", "c/d"]);
}

#[test]
fn pending_lone_carriage_return_is_kept() {
    assert_eq!(split("a/b\rc/d"), vec!["a/b\rc/d"]);
    assert_eq!(split("a/b\r"), vec!["a/b\r"]);
    assert_eq!(split("\r"), vec!["\r"]);
    assert_eq!(split("a/b\n\r"), vec!["a/b", "\r"]);
}

#[test]
fn pending_entries_are_not_trimmed_or_checked() {
    assert_eq!(split("  a/b \nno-slash\n/\n"), vec!["  a/b ", "no-slash", "/"]);
}

#[test]
fn pending_keeps_characters_beyond_ascii() {
    assert_eq!(split("caf\u{e9}/d\u{e9}p\u{f4}t\n\u{1f600}/x"), vec![
        "caf\u{e9}/d\u{e9}p\u{f4}t",
        "\u{1f600}/x"
    ]);
}

#[test]
fn pending_agrees_with_the_standard_line_splitter() {
    let pieces = ["", "a", "\n", "\r", "\r\n", "b/c", "\n\n", "\r\r", " ", "\u{e9}"];
    for first in pieces.iter() {
        for second in pieces.iter() {
            for third in pieces.iter() {
                for fourth in pieces.iter() {
                    let text = format!("{}{}{}{}", first, second, third, fourth);
                    assert_eq!(split(&text), std_lines(&text));
                }
            }
        }
    }
}

#[test]
fn pending_count_of_three_lines() {
    assert_eq!(split("x/one\ny/two\nz/three\n").len(), 3);
}
