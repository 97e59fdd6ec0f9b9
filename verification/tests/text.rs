use asm_query::text::{chars_of, replace_all, string_of};
use asm_query::{clean_text, join_lines};

fn newlines(count: usize) -> String {
    "\n".repeat(count)
}

fn replaced(text: &str, pattern: &str, substitute: &str) -> String {
    let out = replace_all(&chars_of(text), &chars_of(pattern), &chars_of(substitute));
    string_of(&out)
}

#[test]
fn three_newlines_become_two() {
    assert_eq!(clean_text("a\n\n\nb"), "a\n\nb");
}

#[test]
fn four_newlines_become_two() {
    assert_eq!(clean_text("a\n\n\n\nb"), "a\n\nb");
}

#[test]
fn five_newlines_become_two() {
    assert_eq!(clean_text("a\n\n\n\n\nb"), "a\n\nb");
}

#[test]
fn six_newlines_become_three() {
    assert_eq!(clean_text("a\n\n\n\n\n\nb"), "a\n\n\nb");
    assert_eq!(clean_text("a\n\n\nb"), "a\n\nb");
}

#[test]
fn seven_and_eight_newlines() {
    assert_eq!(clean_text(&newlines(7)), newlines(4));
    assert_eq!(clean_text(&newlines(8)), newlines(3));
}

#[test]
fn cleanup_agrees_with_two_replacements() {
    for count in 0..40 {
        let text = format!("head{}tail\n", newlines(count));
        let expected = text.replace("\n\n\n\n", "\n\n").replace("\n\n\n", "\n\n");
        assert_eq!(clean_text(&text), expected);
    }
}

#[test]
fn cleanup_handles_several_runs() {
    assert_eq!(clean_text("a\n\n\nb\n\n\n\nc\nd\n\ne"), "a\n\nb\n\nc\nd\n\ne");
    assert_eq!(clean_text("\n\n\n"), "\n\n");
    assert_eq!(clean_text("x\n\n\n"), "x\n\n");
    assert_eq!(clean_text("\n\n\nx"), "\n\nx");
}

#[test]
fn settled_text_stays() {
    for text in ["", "a", "\n", "\n\n", "a\n\nb\n\nc", "title\n\nbody\nmore\n\n", "no newline"] {
        let once = clean_text(text);
        assert_eq!(once, text);
        assert_eq!(clean_text(&once), text);
    }
}

#[test]
fn cleanup_keeps_other_characters() {
    assert_eq!(clean_text("rd ← rs + rt\n\n\nµ-op\r\n\r\n\r\n"), "rd ← rs + rt\n\nµ-op\r\n\r\n\r\n");
    assert_eq!(clean_text("a \n \n \n b"), "a \n \n \n b");
}

#[test]
fn replacement_goes_from_the_left_without_overlap() {
    assert_eq!(replaced("aaa", "aa", "b"), "ba");
    assert_eq!(replaced("aaaa", "aa", "b"), "bb");
    assert_eq!(replaced("abcabc", "bc", "-"), "a-a-");
    assert_eq!(replaced("abc", "abcd", "x"), "abc");
    assert_eq!(replaced("abc", "abc", ""), "");
    assert_eq!(replaced("abab", "ab", "abab"), "abababab");
    assert_eq!(replaced("", "a", "b"), "");
}

#[test]
fn empty_pattern_occurs_nowhere() {
    assert_eq!(replaced("abc", "", "x"), "abc");
}

#[test]
fn characters_round_trip() {
    let text = "add ← $t0, 汉字\n";
    let chars = chars_of(text);
    assert_eq!(chars, text.chars().collect::<Vec<char>>());
    assert_eq!(string_of(&chars), text);
    assert_eq!(chars_of(""), Vec::<char>::new());
    assert_eq!(string_of(&vec!['a', '\n', 'é']), "a\né");
}

#[test]
fn joins_lines_with_newlines() {
    assert_eq!(join_lines(&vec![]), "");
    assert_eq!(join_lines(&vec!["a".to_string()]), "a");
    assert_eq!(join_lines(&vec!["a".to_string(), "b".to_string(), "c".to_string()]), "a\nb\nc");
    assert_eq!(join_lines(&vec!["".to_string(), "".to_string()]), "\n");
    assert_eq!(join_lines(&vec!["x".to_string(), "".to_string(), "y".to_string()]), "x\n\ny");
}

#[test]
fn joining_agrees_with_slice_join() {
    let lines: Vec<String> = vec!["add", "", "sub", "li"].into_iter().map(String::from).collect();
    assert_eq!(join_lines(&lines), lines.join("\n"));
}
