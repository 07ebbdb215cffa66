use prisma_pothos_generator::text::{
    chars_of, chars_of_all, contains_name, contains_text, ends_with, find_in, is_whitespace,
    lines_of, occurs_at, position_of, same_chars, slice_of, split_first_token, split_on,
    starts_with, string_of, strip_end_of, strip_start_of, trimmed,
};

fn chars(s: &str) -> Vec<char> {
    s.chars().collect()
}

fn strings(v: Vec<Vec<char>>) -> Vec<String> {
    v.iter().map(|c| c.iter().collect()).collect()
}

#[test]
fn characters_and_back() {
    assert_eq!(chars_of("héllo"), vec!['h', 'é', 'l', 'l', 'o']);
    assert_eq!(chars_of(""), Vec::<char>::new());
    assert_eq!(string_of(&chars("héllo")), "héllo");
    assert_eq!(
        chars_of_all(&["ab".to_string(), "".to_string()]),
        vec![vec!['a', 'b'], vec![]]
    );
}

#[test]
fn white_space_is_that_of_unicode() {
    for c in [' ', '\t', '\n', '\r', '\u{0B}', '\u{0C}', '\u{85}', '\u{A0}', '\u{1680}', '\u{2000}',
        '\u{200A}', '\u{2028}', '\u{2029}', '\u{202F}', '\u{205F}', '\u{3000}']
    {
        assert!(is_whitespace(c));
    }
    for c in ['a', '{', '\u{200B}', '\u{08}', '\u{0E}', '\u{1F}', '\u{2010}', '0'] {
        assert!(!is_whitespace(c));
    }
    for n in 0u32..0x3100 {
        if let Some(c) = char::from_u32(n) {
            assert_eq!(is_whitespace(c), c.is_whitespace());
        }
    }
}

#[test]
fn trimming() {
    assert_eq!(trimmed(&chars("  a b \t\r")), chars("a b"));
    assert_eq!(trimmed(&chars("   ")), chars(""));
    assert_eq!(trimmed(&chars("")), chars(""));
    assert_eq!(trimmed(&chars("x")), chars("x"));
    assert_eq!(strip_end_of(&chars("Foo {{"), '{'), chars("Foo "));
    assert_eq!(strip_end_of(&chars("{{"), '{'), chars(""));
    assert_eq!(strip_start_of(&chars("\"\"a\""), '"'), chars("a\""));
}

#[test]
fn first_token_and_rest() {
    let (token, rest) = split_first_token(&chars("  id   Int @id"));
    assert_eq!(token, chars("id"));
    assert_eq!(rest, chars("   Int @id"));
    let (token, rest) = split_first_token(&chars("   "));
    assert_eq!(token, chars(""));
    assert_eq!(rest, chars(""));
    let (token, rest) = split_first_token(&chars("one"));
    assert_eq!(token, chars("one"));
    assert_eq!(rest, chars(""));
}

#[test]
fn searching() {
    assert_eq!(find_in(&chars("a @id b @id"), &chars("@id")), Some(2));
    assert_eq!(find_in(&chars("abc"), &chars("")), Some(0));
    assert_eq!(find_in(&chars("abc"), &chars("abcd")), None);
    assert_eq!(find_in(&chars("abc"), &chars("c")), Some(2));
    assert_eq!(find_in(&chars(""), &chars("")), Some(0));
    assert!(contains_text(&chars("x @unique"), &chars("@unique")));
    assert!(!contains_text(&chars("x @uniqu"), &chars("@unique")));
    assert_eq!(position_of(&chars("a,b"), ','), 1);
    assert_eq!(position_of(&chars("ab"), ','), 2);
    assert!(occurs_at(&chars("abc"), 1, &chars("bc")));
    assert!(!occurs_at(&chars("abc"), 2, &chars("bc")));
    assert!(starts_with(&chars("enum A"), &chars("enum ")));
    assert!(!starts_with(&chars("enu"), &chars("enum ")));
    assert!(ends_with(&chars("Int[]"), &chars("[]")));
    assert!(!ends_with(&chars("]"), &chars("[]")));
    assert!(same_chars(&chars("ab"), &chars("ab")));
    assert!(!same_chars(&chars("ab"), &chars("ac")));
    assert!(!same_chars(&chars("ab"), &chars("abc")));
    assert!(contains_name(&vec![chars("A"), chars("B")], &chars("B")));
    assert!(!contains_name(&vec![chars("A"), chars("B")], &chars("C")));
    assert_eq!(slice_of(&chars("abcd"), 1, 3), chars("bc"));
}

#[test]
fn splitting() {
    assert_eq!(strings(split_on(&chars("a, b,,c"), ',')), vec!["a", " b", "", "c"]);
    assert_eq!(strings(split_on(&chars(""), ',')), vec![""]);
    assert_eq!(strings(split_on(&chars("a,"), ',')), vec!["a", ""]);
    assert_eq!(strings(lines_of(&chars("a\nb\n"))), vec!["a", "b"]);
    assert_eq!(strings(lines_of(&chars("a\n\nb"))), vec!["a", "", "b"]);
    assert_eq!(strings(lines_of(&chars(""))), Vec::<String>::new());
    assert_eq!(strings(lines_of(&chars("\n"))), vec![""]);
    assert_eq!(strings(lines_of(&chars("a\r\nb"))), vec!["a", "b"]);
    assert_eq!(strings(lines_of(&chars("a\r\r\nb\r"))), vec!["a\r", "b\r"]);
    assert_eq!(strings(lines_of(&chars("\r\n\r\n"))), vec!["", ""]);
    assert_eq!(strings(lines_of(&chars("a\rb\n"))), vec!["a\rb"]);
}

#[test]
fn lines_agree_with_std() {
    for text in [
        "model A {\r\n  id Int @id\r\n}\r\n\r\nenum B {\n X\n}",
        "",
        "\n",
        "\r",
        "\r\n",
        "a\r",
        "a\r\r\n\rb\n\n",
        "no line feed",
    ] {
        let mine: Vec<String> = lines_of(&chars(text)).iter().map(string_of).collect();
        let theirs: Vec<String> = text.lines().map(|l| l.to_string()).collect();
        assert_eq!(mine, theirs);
        let mine: Vec<String> =
            lines_of(&chars(text)).iter().map(|l| string_of(&trimmed(l))).collect();
        let theirs: Vec<String> = text.lines().map(|l| l.trim().to_string()).collect();
        assert_eq!(mine, theirs);
    }
}
