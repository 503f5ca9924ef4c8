use sql_tokenizer::keyword::{keyword_lookup, matches_spelling, KEYWORDS, KEYWORD_COUNT};
use sql_tokenizer::{TokenKind, Tokenizer};

fn lex(sql: &str) -> Vec<(TokenKind, &str)> {
    let mut tokenizer = Tokenizer::new(sql);
    let mut found = Vec::new();
    while let Some(token) = tokenizer.next() {
        found.push((token.kind, token.text));
    }
    found
}

#[test]
fn every_keyword_is_found_in_any_case() {
    assert_eq!(KEYWORDS.len(), KEYWORD_COUNT);
    assert_eq!(KEYWORD_COUNT, 124);
    for (spelling, kind) in KEYWORDS.iter() {
        assert_eq!(lex(spelling), vec![(*kind, *spelling)]);
        let lower = spelling.to_ascii_lowercase();
        assert_eq!(lex(&lower), vec![(*kind, lower.as_str())]);
        let mut mixed = String::new();
        for (i, c) in spelling.chars().enumerate() {
            mixed.push(if i % 2 == 0 { c.to_ascii_lowercase() } else { c });
        }
        assert_eq!(lex(&mixed), vec![(*kind, mixed.as_str())]);
    }
}

#[test]
fn keyword_spellings_are_upper_case_and_unique() {
    for (i, (spelling, _)) in KEYWORDS.iter().enumerate() {
        assert!(!spelling.is_empty());
        assert!(spelling.bytes().all(|b| b.is_ascii_uppercase() || b == b'_'));
        for (other, _) in KEYWORDS.iter().skip(i + 1) {
            assert_ne!(spelling, other);
        }
    }
}

#[test]
fn a_keyword_with_more_behind_it_is_an_identifier() {
    for (spelling, _) in KEYWORDS.iter() {
        let longer = format!("{}q", spelling);
        assert_eq!(lex(&longer), vec![(TokenKind::Id, longer.as_str())]);
        let numbered = format!("{}1", spelling);
        assert_eq!(lex(&numbered), vec![(TokenKind::Id, numbered.as_str())]);
        let prefixed = format!("_{}", spelling);
        assert_eq!(lex(&prefixed), vec![(TokenKind::Id, prefixed.as_str())]);
    }
}

#[test]
fn isnull_is_one_token() {
    assert_eq!(lex("ISNULL"), vec![(TokenKind::IsNull, "ISNULL")]);
    assert_eq!(lex("isnull"), vec![(TokenKind::IsNull, "isnull")]);
    assert_eq!(lex("NOTNULL"), vec![(TokenKind::NotNull, "NOTNULL")]);
    assert_eq!(
        lex("IS NULL"),
        vec![(TokenKind::Is, "IS"), (TokenKind::Space, " "), (TokenKind::Null, "NULL")]
    );
    assert_eq!(lex("ISNULLS"), vec![(TokenKind::Id, "ISNULLS")]);
    assert_eq!(lex("INDEXED"), vec![(TokenKind::Indexed, "INDEXED")]);
    assert_eq!(lex("INDEX"), vec![(TokenKind::Index, "INDEX")]);
    assert_eq!(lex("INTO"), vec![(TokenKind::Into, "INTO")]);
    assert_eq!(lex("IN"), vec![(TokenKind::In, "IN")]);
    assert_eq!(lex("CURRENT_TIMESTAMP"), vec![(TokenKind::CurrentTime, "CURRENT_TIMESTAMP")]);
    assert_eq!(lex("CURRENT_TIME"), vec![(TokenKind::CurrentTime, "CURRENT_TIME")]);
    assert_eq!(lex("CURRENT_"), vec![(TokenKind::Id, "CURRENT_")]);
}

#[test]
fn some_keywords_by_name() {
    assert_eq!(lex("select"), vec![(TokenKind::Select, "select")]);
    assert_eq!(lex("SeLeCt"), vec![(TokenKind::Select, "SeLeCt")]);
    assert_eq!(lex("SET"), vec![(TokenKind::SetKw, "SET")]);
    assert_eq!(lex("COLUMN"), vec![(TokenKind::ColumnKw, "COLUMN")]);
    assert_eq!(lex("TEMP"), vec![(TokenKind::Temp, "TEMP")]);
    assert_eq!(lex("TEMPORARY"), vec![(TokenKind::Temp, "TEMPORARY")]);
    assert_eq!(lex("LEFT"), vec![(TokenKind::JoinKw, "LEFT")]);
    assert_eq!(lex("natural"), vec![(TokenKind::JoinKw, "natural")]);
    assert_eq!(lex("JOIN"), vec![(TokenKind::Join, "JOIN")]);
    assert_eq!(lex("GLOB"), vec![(TokenKind::Like, "GLOB")]);
    assert_eq!(lex("regexp"), vec![(TokenKind::Like, "regexp")]);
    assert_eq!(lex("MATCH"), vec![(TokenKind::Match, "MATCH")]);
    assert_eq!(lex("AUTOINCREMENT"), vec![(TokenKind::AutoIncrement, "AUTOINCREMENT")]);
    assert_eq!(lex("current_date"), vec![(TokenKind::CurrentTime, "current_date")]);
    assert_eq!(lex("WITHOUT"), vec![(TokenKind::Without, "WITHOUT")]);
    assert_eq!(lex("RECURSIVE"), vec![(TokenKind::Recursive, "RECURSIVE")]);
}

#[test]
fn only_ascii_letters_fold() {
    // U+212A, the Kelvin sign, lower-cases to `k` but is no ASCII letter.
    assert_eq!(lex("\u{212a}EY"), vec![(TokenKind::Id, "\u{212a}EY")]);
    // U+017F, the long s, upper-cases to `S`.
    assert_eq!(lex("\u{17f}ET"), vec![(TokenKind::Id, "\u{17f}ET")]);
    assert_eq!(lex("S\u{c9}LECT"), vec![(TokenKind::Id, "S\u{c9}LECT")]);
}

#[test]
fn words_that_are_no_keywords() {
    assert_eq!(lex("function"), vec![(TokenKind::Id, "function")]);
    assert_eq!(lex("any"), vec![(TokenKind::Id, "any")]);
    assert_eq!(lex("true"), vec![(TokenKind::Id, "true")]);
    assert_eq!(lex("a"), vec![(TokenKind::Id, "a")]);
    assert_eq!(lex("selec"), vec![(TokenKind::Id, "selec")]);
    assert_eq!(lex("s"), vec![(TokenKind::Id, "s")]);
}

#[test]
fn lookup_in_a_part_of_the_text() {
    let z = b"xx select yy";
    assert_eq!(keyword_lookup(z, 3, 9), Some(TokenKind::Select));
    assert_eq!(keyword_lookup(z, 3, 8), None);
    assert_eq!(keyword_lookup(z, 2, 9), None);
    assert_eq!(keyword_lookup(z, 3, 3), None);
    assert_eq!(keyword_lookup(b"AS", 0, 2), Some(TokenKind::As));
    assert_eq!(keyword_lookup(b"without", 0, 7), Some(TokenKind::Without));
    assert_eq!(keyword_lookup(b"without", 0, 4), Some(TokenKind::With));
    assert!(matches_spelling(z, 3, 9, "SELECT"));
    assert!(!matches_spelling(z, 3, 9, "SELECTS"));
    assert!(!matches_spelling(z, 3, 9, "SELEC"));
    assert!(!matches_spelling(z, 3, 9, "SELECU"));
    assert!(matches_spelling(z, 0, 0, ""));
}
