use aqon::text::{blank, escape_pipes, same_text};

#[test]
fn pipes_are_escaped() {
    assert_eq!(escape_pipes("a|b"), "a\\|b");
    assert_eq!(escape_pipes("|"), "\\|");
    assert_eq!(escape_pipes("||x|"), "\\|\\|x\\|");
}

#[test]
fn text_without_pipes_is_unchanged() {
    assert_eq!(escape_pipes(""), "");
    assert_eq!(escape_pipes("plain text"), "plain text");
    assert_eq!(escape_pipes("back\\slash"), "back\\slash");
    assert_eq!(escape_pipes("žluťoučký kůň"), "žluťoučký kůň");
}

#[test]
fn escaping_agrees_with_replace() {
    for cell in ["a|b", "", "|||", "x | y | z", "é|ü", "\\|"] {
        assert_eq!(escape_pipes(cell), cell.replace("|", "\\|"));
    }
}

#[test]
fn every_pipe_of_an_escaped_text_follows_a_backslash() {
    let escaped: Vec<char> = escape_pipes("|a||b|").chars().collect();
    for (i, c) in escaped.iter().enumerate() {
        if *c == '|' {
            assert!(i > 0);
            assert_eq!(escaped[i - 1], '\\');
        }
    }
}

#[test]
fn blank_texts_hold_only_whitespace() {
    assert!(blank(""));
    assert!(blank("   "));
    assert!(blank("\t\n \r"));
    assert!(blank("\u{a0}\u{2003}"));
    assert!(!blank(" a "));
    assert!(!blank("."));
}

#[test]
fn same_text_compares_contents() {
    assert!(same_text("docx", "docx"));
    assert!(!same_text("docx", "DOCX"));
    assert!(!same_text("docx", "doc"));
    assert!(same_text("", ""));
}

#[test]
fn whitespace_is_what_unicode_calls_white_space() {
    let spaces = [
        '\u{9}', '\u{a}', '\u{b}', '\u{c}', '\u{d}', '\u{20}', '\u{85}', '\u{a0}', '\u{1680}',
        '\u{2000}', '\u{2005}', '\u{200a}', '\u{2028}', '\u{2029}', '\u{202f}', '\u{205f}',
        '\u{3000}',
    ];
    for c in spaces {
        assert!(blank(&c.to_string()), "{:?} is whitespace", c);
    }
    let others = [
        '\u{0}', '\u{8}', '\u{e}', '\u{1c}', '\u{1f}', '\u{21}', '\u{84}', '\u{86}', '\u{a1}',
        '\u{180e}', '\u{1fff}', '\u{200b}', '\u{2027}', '\u{202a}', '\u{2060}', '\u{3001}',
        '\u{feff}',
    ];
    for c in others {
        assert!(!blank(&c.to_string()), "{:?} is no whitespace", c);
    }
}

#[test]
fn one_character_that_is_no_whitespace_makes_a_text_not_blank() {
    assert!(!blank("\u{3000}x\u{3000}"));
    assert!(!blank("x   "));
    assert!(!blank("   x"));
    assert!(!blank(" \u{200b} "));
    assert!(blank(" \u{2028}\t\u{85}"));
}
