use sql_tokenizer::tokenizer::until_internal_0;
use sql_tokenizer::{TokenKind, Tokenizer};

fn lex(sql: &str) -> Vec<(TokenKind, &str)> {
    let mut tokenizer = Tokenizer::new(sql);
    let mut found = Vec::new();
    while let Some(token) = tokenizer.next() {
        found.push((token.kind, token.text));
    }
    found
}

fn before_terminator(sql: &str) -> &str {
    match sql.find('\0') {
        Some(at) => &sql[..at],
        None => sql,
    }
}

const SAMPLES: [&str; 30] = [
    "",
    "SELECT * FROM t",
    "INSERT INTO t(x) VALUES (?)",
    "SELECT\0 * FROM t",
    "'it''s'",
    "'abc",
    "CREATE TABLE \"my table\" (a INTEGER PRIMARY KEY, b TEXT DEFAULT 'x', c BLOB);",
    "select a.b, c from [d e] where f >= 1.5e-3 and g <> x'00ff' -- trailing",
    "/* open",
    "x'12",
    "\"open",
    "`open",
    "[open",
    "1.2.3..4e5e6",
    "a<=b>=c<>d!=e==f||g<<h>>i",
    "!@#$%^&*()_+-=[]{}|;':\",./<>?`~\\",
    ":a @b #c ?1 ? $d",
    "caf\u{e9} = '\u{65e5}\u{672c}\u{8a9e}' -- \u{1f600}",
    "\u{1f600}\u{1f600}",
    "a\0'b",
    "\0",
    "\0\0",
    "   \t\n",
    "--\n--\n",
    "/**//**/",
    "0x 0xg 0x1",
    "UPDATE t SET a = a + 1 WHERE rowid IN (SELECT rowid FROM u LIMIT 10 OFFSET 2)",
    "isnull notnull is null not null",
    "x'' X'' x'a' x'ab' x'abc'",
    "1e+ 1e- 1e 1. .1 . 1.e1",
];

#[test]
fn token_texts_joined_are_the_input_up_to_the_terminator() {
    for sql in SAMPLES.iter() {
        let joined: String = lex(sql).iter().map(|(_, text)| *text).collect();
        assert_eq!(joined, before_terminator(sql), "input {:?}", sql);
    }
    assert_eq!(
        lex("SELECT a\0b").iter().map(|(_, text)| *text).collect::<String>(),
        "SELECT a"
    );
}

#[test]
fn each_token_text_follows_the_one_before_it_in_the_input() {
    for sql in SAMPLES.iter() {
        let mut at = sql.as_ptr() as usize;
        for (_, text) in lex(sql) {
            assert_eq!(text.as_ptr() as usize, at, "input {:?}", sql);
            at += text.len();
        }
        assert_eq!(at - sql.as_ptr() as usize, before_terminator(sql).len());
    }
}

#[test]
fn no_token_text_is_empty() {
    for sql in SAMPLES.iter() {
        for (kind, text) in lex(sql) {
            assert!(!text.is_empty(), "empty {:?} in {:?}", kind, sql);
        }
    }
}

#[test]
fn there_are_no_more_tokens_than_bytes() {
    for sql in SAMPLES.iter() {
        assert!(lex(sql).len() <= before_terminator(sql).len(), "input {:?}", sql);
    }
    assert_eq!(lex("^^^^").len(), 4);
    assert_eq!(lex("").len(), 0);
}

#[test]
fn the_part_before_the_terminator_is_tokenized_as_the_whole() {
    for sql in SAMPLES.iter() {
        assert_eq!(lex(before_terminator(sql)), lex(sql), "input {:?}", sql);
        assert_eq!(lex(until_internal_0(sql)), lex(sql), "input {:?}", sql);
    }
    assert_eq!(lex("SELECT\0 * FROM t"), lex("SELECT"));
    assert_eq!(lex("SELECT\0 * FROM t"), vec![(TokenKind::Select, "SELECT")]);
    assert_eq!(until_internal_0(until_internal_0("a\0b")), until_internal_0("a\0b"));
}

#[test]
fn the_lexer_never_makes_the_kinds_kept_for_consumers() {
    for sql in SAMPLES.iter() {
        for (kind, _) in lex(sql) {
            assert!(!matches!(
                kind,
                TokenKind::Function
                    | TokenKind::Column
                    | TokenKind::AggFunction
                    | TokenKind::AggColumn
                    | TokenKind::UnaryMinus
                    | TokenKind::UnaryPlus
                    | TokenKind::Register
                    | TokenKind::EndOfFile
                    | TokenKind::Any
                    | TokenKind::IsNot
                    | TokenKind::ToText
                    | TokenKind::ToBlob
                    | TokenKind::ToNumeric
                    | TokenKind::ToInt
                    | TokenKind::ToReal
            ));
        }
    }
}

/// A small linear congruential generator, so that the texts below are the
/// same in every run.
fn step(state: &mut u64) -> u64 {
    *state = state.wrapping_mul(6364136223846793005).wrapping_add(1442695040888963407);
    *state >> 33
}

fn made_up_text(state: &mut u64) -> String {
    const PIECES: [&str; 48] = [
        "a", "Z", "_", "x", "X", "e", "E", "0", "1", "9", "f", "g", " ", "\n", "\t", "'", "''",
        "\"", "`", "[", "]", "-", "--", "/", "*", "/*", "*/", ".", "+", "<", ">", "=", "!", "|",
        "?", ":", "@", "#", "$", "(", ")", ",", ";", "\u{e9}", "\u{65e5}", "\u{1f600}", "\0",
        "select",
    ];
    let len = (step(state) % 24) as usize;
    let mut text = String::new();
    for _ in 0..len {
        let piece = PIECES[(step(state) % 48) as usize];
        // The terminator is kept rare so that long texts are scanned too.
        if piece == "\0" && step(state) % 4 != 0 {
            continue;
        }
        text.push_str(piece);
    }
    text
}

#[test]
fn made_up_texts_are_covered_without_empty_tokens() {
    let mut state: u64 = 0x5eed;
    for _ in 0..20000 {
        let sql = made_up_text(&mut state);
        let found = lex(&sql);
        let joined: String = found.iter().map(|(_, text)| *text).collect();
        assert_eq!(joined, before_terminator(&sql), "input {:?}", sql);
        assert!(found.iter().all(|(_, text)| !text.is_empty()), "input {:?}", sql);
        assert_eq!(found, lex(before_terminator(&sql)), "input {:?}", sql);
        let collected = Tokenizer::new(&sql).collect();
        assert_eq!(collected.len(), found.len());
        for (token, (kind, text)) in collected.iter().zip(found.iter()) {
            assert_eq!(token.kind, *kind);
            assert_eq!(token.text, *text);
        }
    }
}

#[test]
fn a_word_token_is_never_followed_by_an_identifier_character() {
    let mut state: u64 = 0xfeed;
    for _ in 0..5000 {
        let sql = made_up_text(&mut state);
        let cut = before_terminator(&sql);
        let mut at = 0;
        for (kind, text) in lex(&sql) {
            let first = text.as_bytes()[0];
            let is_word = (first.is_ascii_alphabetic() || first == b'_' || first >= 0x80)
                && !(text.len() > 1 && text.as_bytes()[1] == b'\'');
            at += text.len();
            if is_word {
                assert!(kind != TokenKind::Illegal);
                if at < cut.len() {
                    let next = cut.as_bytes()[at];
                    assert!(
                        !(next.is_ascii_alphanumeric()
                            || next == b'_'
                            || next == b'$'
                            || next >= 0x80),
                        "input {:?}, word {:?}",
                        sql,
                        text
                    );
                }
            }
        }
    }
}

#[test]
fn a_long_text_is_tokenized_to_its_end() {
    let mut sql = String::new();
    for i in 0..10000 {
        sql.push_str("SELECT col");
        sql.push_str(&i.to_string());
        sql.push_str(" FROM t; ");
    }
    let found = lex(&sql);
    assert_eq!(found.len(), 10000 * 9);
    assert_eq!(found[0], (TokenKind::Select, "SELECT"));
    assert_eq!(found[found.len() - 1], (TokenKind::Space, " "));
    assert_eq!(found[found.len() - 2], (TokenKind::Semicolon, ";"));
}
