use easi_startup::quoting::escape_single_quotes;
use easi_startup::text::{
    chars_of, ends_with_text, joined, owned, same_chars, same_text, text_of,
};
use easi_startup::tokens::{is_whitespace_char, split_whitespace};

fn std_words(line: &str) -> Vec<String> {
    line.split_whitespace().map(|word| word.to_string()).collect()
}

#[test]
fn chars_and_back() {
    let chars = chars_of("a'é启 z");
    assert_eq!(chars, vec!['a', '\'', 'é', '启', ' ', 'z']);
    assert_eq!(text_of(&chars), "a'é启 z");
    assert_eq!(text_of(&Vec::new()), "");
    assert_eq!(chars_of(""), Vec::<char>::new());
}

#[test]
fn owned_and_joined_texts() {
    assert_eq!(owned("abc"), "abc");
    assert_eq!(joined("ab", "cd"), "abcd");
    assert_eq!(joined("", "cd"), "cd");
    assert_eq!(joined("ab", ""), "ab");
}

#[test]
fn equal_texts() {
    assert!(same_text("normal", "normal"));
    assert!(!same_text("normal", "Normal"));
    assert!(!same_text("normal", "normal "));
    assert!(same_text("", ""));
    assert!(same_chars(&vec!['a', 'b'], &vec!['a', 'b']));
    assert!(!same_chars(&vec!['a', 'b'], &vec!['a', 'c']));
    assert!(!same_chars(&vec!['a'], &vec!['a', 'c']));
}

#[test]
fn suffixes_agree_with_std() {
    let texts = ["", "a", ".lnk", "x.lnk", "x.lnk ", "lnk", "x.LNK", "链接.lnk"];
    let suffixes = ["", ".lnk", "k", "x.lnk", "longer than the text"];
    for text in texts {
        for suffix in suffixes {
            assert_eq!(ends_with_text(text, suffix), text.ends_with(suffix), "{:?} / {:?}", text, suffix);
        }
    }
}

#[test]
fn whitespace_is_the_unicode_property() {
    let mut code: u32 = 0;
    while code <= 0x10FFFF {
        if let Some(c) = char::from_u32(code) {
            assert_eq!(is_whitespace_char(c), c.is_whitespace(), "U+{:04X}", code);
        }
        code += 1;
    }
}

#[test]
fn words_of_plain_lines() {
    assert_eq!(split_whitespace("--fast -v file.txt"), vec!["--fast", "-v", "file.txt"]);
    assert_eq!(split_whitespace("one"), vec!["one"]);
    assert_eq!(split_whitespace(""), Vec::<String>::new());
    assert_eq!(split_whitespace("   \t\n"), Vec::<String>::new());
    assert_eq!(split_whitespace("  a   b  "), vec!["a", "b"]);
}

#[test]
fn words_know_no_quoting() {
    assert_eq!(split_whitespace("\"C:\\Program Files\\x\" -y"), vec!["\"C:\\Program", "Files\\x\"", "-y"]);
    assert_eq!(split_whitespace("a\\ b 'c d'"), vec!["a\\", "b", "'c", "d'"]);
}

#[test]
fn words_agree_with_std() {
    let lines = [
        "", " ", "a", " a", "a ", " a ", "a b", "a  b", "a\tb\nc\r\nd", "a\u{a0}b", "a\u{3000}b\u{2003}c",
        "\u{85}x\u{1680}y\u{2028}z\u{2029}", "启动 项目", "x\u{200b}y", "  --auto   --path=C:\\x  ",
    ];
    for line in lines {
        assert_eq!(split_whitespace(line), std_words(line), "{:?}", line);
    }
}

#[test]
fn quotes_are_doubled() {
    assert_eq!(escape_single_quotes("it's"), "it''s");
    assert_eq!(escape_single_quotes("'"), "''");
    assert_eq!(escape_single_quotes("''"), "''''");
    assert_eq!(escape_single_quotes(""), "");
    assert_eq!(escape_single_quotes("echo \"hi\""), "echo \"hi\"");
    assert_eq!(escape_single_quotes("a'); Remove-Item x; ('"), "a''); Remove-Item x; (''");
}

#[test]
fn quoting_agrees_with_std_replace() {
    let texts = ["", "'", "a'b'c", "'''", "no quotes", "启'动", "' '"];
    for text in texts {
        assert_eq!(escape_single_quotes(text), text.replace("'", "''"), "{:?}", text);
    }
}
