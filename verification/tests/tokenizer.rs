use sql_tokenizer::tokenizer::until_internal_0;
use sql_tokenizer::{Token, TokenKind, Tokenizer};

fn collect_types(sql: &str) -> Vec<TokenKind> {
    let mut tokenizer = Tokenizer::new(sql);
    let mut kinds = Vec::new();
    while let Some(token) = tokenizer.next() {
        kinds.push(token.kind);
    }
    kinds
}

fn lex(sql: &str) -> Vec<(TokenKind, &str)> {
    let mut tokenizer = Tokenizer::new(sql);
    let mut found = Vec::new();
    while let Some(token) = tokenizer.next() {
        found.push((token.kind, token.text));
    }
    found
}

#[test]
fn it_works() {
    let mut t = Tokenizer::new("SELECT * FROM t");

    assert_eq!(t.next().unwrap().text, "SELECT");
    assert_eq!(t.next().unwrap().text, " ");
    assert_eq!(t.next().unwrap().text, "*");
    assert_eq!(t.next().unwrap().text, " ");
    assert_eq!(t.next().unwrap().text, "FROM");
    assert_eq!(t.next().unwrap().text, " ");
    assert_eq!(t.next().unwrap().text, "t");
    assert!(t.next().is_none());
}

#[test]
fn insert_types() {
    assert_eq!(collect_types("INSERT INTO t(x) VALUES (?)"),
        [TokenKind::Insert, TokenKind::Space, TokenKind::Into, TokenKind::Space, // "INSERT INTO "
         TokenKind::Id, TokenKind::LeftParen, TokenKind::Id, TokenKind::RightParen, // "t(x)"
         TokenKind::Space, TokenKind::Values, TokenKind::Space, // " VALUES "
         TokenKind::LeftParen, TokenKind::Variable, TokenKind::RightParen // "(?)"
        ].to_vec());
}

#[test]
fn empty() {
    assert_eq!(collect_types(""), Vec::new());
}

#[test]
fn internal_0() {
    assert_eq!(collect_types("SELECT\0 * FROM t"), [TokenKind::Select].to_vec());
}

#[test]
fn subslice() {
    // Ensure the lack of a trailing 0 doesn't cause us to run off the end
    let whole_slice = "CREATE TABLE t(x)";
    let first_word: &str = whole_slice.split(' ').next().unwrap();
    assert_eq!(collect_types(first_word), [TokenKind::Create].to_vec());
}

#[test]
fn select_star_kinds() {
    assert_eq!(
        collect_types("SELECT * FROM t"),
        vec![
            TokenKind::Select,
            TokenKind::Space,
            TokenKind::Star,
            TokenKind::Space,
            TokenKind::From,
            TokenKind::Space,
            TokenKind::Id,
        ]
    );
}

#[test]
fn escaped_quote_stays_inside_the_string() {
    assert_eq!(lex("'it''s'"), vec![(TokenKind::String, "'it''s'")]);
}

#[test]
fn unclosed_string_runs_to_the_end() {
    assert_eq!(lex("'abc"), vec![(TokenKind::UnclosedString, "'abc")]);
}

#[test]
fn exhausted_tokenizer_stays_exhausted() {
    let mut t = Tokenizer::new("a");
    assert!(t.next().is_some());
    assert!(t.next().is_none());
    assert!(t.next().is_none());
    assert!(t.next().is_none());

    let mut cut = Tokenizer::new("a\0b");
    assert_eq!(cut.next().unwrap().text, "a");
    assert!(cut.next().is_none());
    assert!(cut.next().is_none());
}

#[test]
fn terminator_at_the_start_yields_nothing() {
    assert_eq!(collect_types("\0SELECT"), Vec::new());
    assert_eq!(collect_types("\0"), Vec::new());
    assert_eq!(collect_types("\0\0\0"), Vec::new());
}

#[test]
fn nothing_behind_the_terminator_is_read() {
    // The quote is closed only behind the terminator.
    assert_eq!(lex("'ab\0c'"), vec![(TokenKind::UnclosedString, "'ab")]);
    // The comment is closed only behind the terminator.
    assert_eq!(lex("/* a \0 */"), vec![(TokenKind::Space, "/* a ")]);
    // The second byte of the operator lies behind the terminator.
    assert_eq!(lex("<\0="), vec![(TokenKind::Less, "<")]);
    // The word goes on behind the terminator.
    assert_eq!(lex("IS\0NULL"), vec![(TokenKind::Is, "IS")]);
}

#[test]
fn token_text_is_borrowed_from_the_input() {
    let sql = String::from("SELECT x");
    let text: &str = &sql;
    let mut t = Tokenizer::new(text);
    let first = t.next().unwrap();
    let begin = text.as_ptr() as usize;
    let at = first.text.as_ptr() as usize;
    assert_eq!(at, begin);
    let _space = t.next().unwrap();
    let last = t.next().unwrap();
    assert_eq!(last.text.as_ptr() as usize, begin + 7);
    assert_eq!(last.text, "x");
}

#[test]
fn collect_gives_what_next_gives() {
    let sql = "SELECT a, 'b' FROM [t] WHERE x >= 1.5 -- done";
    let all: Vec<Token> = Tokenizer::new(sql).collect();
    let by_steps = lex(sql);
    assert_eq!(all.len(), by_steps.len());
    for (token, (kind, text)) in all.iter().zip(by_steps.iter()) {
        assert_eq!(token.kind, *kind);
        assert_eq!(token.text, *text);
    }
    assert_eq!(all.len(), 20);
}

#[test]
fn collect_gives_the_rest_only() {
    let mut t = Tokenizer::new("a b c");
    assert_eq!(t.next().unwrap().text, "a");
    assert_eq!(t.next().unwrap().text, " ");
    let rest = t.collect();
    let texts: Vec<&str> = rest.iter().map(|token| token.text).collect();
    assert_eq!(texts, vec!["b", " ", "c"]);
    assert!(t.next().is_none());
    assert!(t.collect().is_empty());
}

#[test]
fn clone_goes_on_from_the_same_place() {
    let mut t = Tokenizer::new("SELECT 1");
    assert_eq!(t.next().unwrap().kind, TokenKind::Select);
    let mut copy = t.clone();
    assert_eq!(t.next().unwrap().kind, TokenKind::Space);
    assert_eq!(t.next().unwrap().kind, TokenKind::Integer);
    assert!(t.next().is_none());
    assert_eq!(copy.next().unwrap().kind, TokenKind::Space);
    assert_eq!(copy.next().unwrap().text, "1");
    assert!(copy.next().is_none());
}

#[test]
fn until_internal_0_cuts_at_the_first_terminator() {
    assert_eq!(until_internal_0("SELECT\0 * FROM t"), "SELECT");
    assert_eq!(until_internal_0("SELECT * FROM t"), "SELECT * FROM t");
    assert_eq!(until_internal_0("a\0b\0c"), "a");
    assert_eq!(until_internal_0("\0abc"), "");
    assert_eq!(until_internal_0(""), "");
    assert_eq!(until_internal_0("caf\u{e9}\0x"), "caf\u{e9}");
}

#[test]
fn multi_byte_characters_are_never_split() {
    assert_eq!(lex("caf\u{e9}"), vec![(TokenKind::Id, "caf\u{e9}")]);
    assert_eq!(lex("\u{65e5}\u{672c}\u{8a9e}"), vec![(TokenKind::Id, "\u{65e5}\u{672c}\u{8a9e}")]);
    assert_eq!(lex("a\u{2192}b"), vec![(TokenKind::Id, "a\u{2192}b")]);
    assert_eq!(
        lex("'\u{65e5}\u{672c}' \u{1f600}"),
        vec![
            (TokenKind::String, "'\u{65e5}\u{672c}'"),
            (TokenKind::Space, " "),
            (TokenKind::Id, "\u{1f600}"),
        ]
    );
    assert_eq!(
        lex("\u{e9}=1"),
        vec![(TokenKind::Id, "\u{e9}"), (TokenKind::Equal, "="), (TokenKind::Integer, "1")]
    );
    assert_eq!(
        lex("-- \u{e9}t\u{e9}\n\u{e9}"),
        vec![
            (TokenKind::Space, "-- \u{e9}t\u{e9}"),
            (TokenKind::Space, "\n"),
            (TokenKind::Id, "\u{e9}"),
        ]
    );
    assert_eq!(lex("[\u{e9}"), vec![(TokenKind::UnclosedString, "[\u{e9}")]);
    assert_eq!(lex("x'\u{e9}'"), vec![(TokenKind::Illegal, "x'\u{e9}'")]);
    assert_eq!(lex(":\u{e9}"), vec![(TokenKind::Variable, ":\u{e9}")]);
}
