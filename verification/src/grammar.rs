//! The lexical grammar: where the token that starts at a position ends, and
//! of which kind it is.
//!
//! Every rule is a spec function over the bytes of the text. A position past
//! the end of the text reads as the terminator.
use crate::chars::{
    byte_at, is_digit, is_hex_digit, is_ident_start, is_space, run_len, ByteClass, AMPERSAND, AT,
    BACKTICK, BANG, COLON, COMMA, DOT, DOUBLE_QUOTE, EQUALS, GREATER, HASH, LEFT_BRACKET,
    LEFT_PAREN, LESS, LINE_FEED, LOWER_E, LOWER_X, MINUS, PERCENT, PIPE, PLUS, QUESTION, QUOTE,
    RIGHT_BRACKET, RIGHT_PAREN, SEMICOLON, SLASH, STAR, TILDE, UPPER_E, UPPER_X, ZERO,
};
use crate::keyword::word_kind;
use crate::kind::TokenKind;
use vstd::prelude::*;

verus! {

/// Where the line comment that starts at `pos` with `--` ends: before the
/// next line feed, or at the end of the text.
pub open spec fn line_comment_end(s: Seq<u8>, pos: int) -> int {
    pos + 2 + run_len(s, pos + 2, ByteClass::Except(LINE_FEED))
}

/// The index of the `*` of the first `*/` at or after `from`, or the length of
/// the text where there is none.
pub open spec fn comment_close(s: Seq<u8>, from: int) -> int
    decreases s.len() - from,
{
    if from < 0 || from >= s.len() {
        s.len() as int
    } else if s[from] == STAR && byte_at(s, from + 1) == SLASH {
        from
    } else {
        comment_close(s, from + 1)
    }
}

/// Where the block comment that starts at `pos` with `/*` ends: behind the
/// first `*/` that follows the opening marker, or at the end of the text.
pub open spec fn block_comment_end(s: Seq<u8>, pos: int) -> int {
    let close = comment_close(s, pos + 2);
    if close < s.len() {
        close + 2
    } else {
        s.len() as int
    }
}

/// The index of the delimiter that closes a quoted run whose content starts
/// at `from`, or the length of the text where nothing closes it. A doubled
/// delimiter stands for the delimiter itself and closes nothing.
pub open spec fn closing_quote(s: Seq<u8>, from: int, quote: u8) -> int
    decreases s.len() - from,
{
    if from < 0 || from >= s.len() {
        s.len() as int
    } else if s[from] != quote {
        closing_quote(s, from + 1, quote)
    } else if from + 1 < s.len() && s[from + 1] == quote {
        closing_quote(s, from + 2, quote)
    } else {
        from
    }
}

/// The token that starts at `pos` with `'`, `"` or `` ` ``: a string literal
/// or a quoted identifier up to its closing delimiter, or an unclosed one up
/// to the end of the text.
pub open spec fn quoted_at(s: Seq<u8>, pos: int) -> (TokenKind, int) {
    let close = closing_quote(s, pos + 1, s[pos]);
    if close >= s.len() {
        (TokenKind::UnclosedString, s.len() as int)
    } else if s[pos] == QUOTE {
        (TokenKind::String, close + 1)
    } else {
        (TokenKind::Id, close + 1)
    }
}

/// The token that starts at `pos` with `[`: an identifier up to the next `]`,
/// or an unclosed one up to the end of the text.
pub open spec fn bracketed_at(s: Seq<u8>, pos: int) -> (TokenKind, int) {
    let close = pos + 1 + run_len(s, pos + 1, ByteClass::Except(RIGHT_BRACKET));
    if close < s.len() {
        (TokenKind::Id, close + 1)
    } else {
        (TokenKind::UnclosedString, s.len() as int)
    }
}

/// The token that starts at `pos` with `x'` or `X'`. An even number of
/// hexadecimal digits and a closing `'` make a blob literal. Anything else is
/// illegal up to and with the next `'`, or unclosed up to the end of the text.
pub open spec fn blob_at(s: Seq<u8>, pos: int) -> (TokenKind, int) {
    let digits = run_len(s, pos + 2, ByteClass::HexDigit);
    let stop = pos + 2 + digits;
    let close = stop + run_len(s, stop, ByteClass::Except(QUOTE));
    if byte_at(s, stop) == QUOTE && digits % 2 == 0 {
        (TokenKind::Blob, stop + 1)
    } else if close < s.len() {
        (TokenKind::Illegal, close + 1)
    } else {
        (TokenKind::UnclosedString, s.len() as int)
    }
}

/// Where the fraction that may start at `from` ends: behind a `.` and the
/// digits that follow it, or at `from` where there is no `.`.
pub open spec fn fraction_end(s: Seq<u8>, from: int) -> int {
    if byte_at(s, from) == DOT {
        from + 1 + run_len(s, from + 1, ByteClass::Digit)
    } else {
        from
    }
}

/// Where the exponent that may start at `from` ends: behind `e` or `E`, an
/// optional sign and at least one digit, or at `from` where these do not
/// follow.
pub open spec fn exponent_end(s: Seq<u8>, from: int) -> int {
    let mark = byte_at(s, from);
    let sign = byte_at(s, from + 1);
    if mark != LOWER_E && mark != UPPER_E {
        from
    } else if is_digit(sign) {
        from + 1 + run_len(s, from + 1, ByteClass::Digit)
    } else if (sign == PLUS || sign == MINUS) && is_digit(byte_at(s, from + 2)) {
        from + 2 + run_len(s, from + 2, ByteClass::Digit)
    } else {
        from
    }
}

/// Whether a hexadecimal integer starts at `pos`: `0x` or `0X` and at least
/// one hexadecimal digit.
pub open spec fn is_hex_integer(s: Seq<u8>, pos: int) -> bool {
    &&& byte_at(s, pos) == ZERO
    &&& (byte_at(s, pos + 1) == LOWER_X || byte_at(s, pos + 1) == UPPER_X)
    &&& is_hex_digit(byte_at(s, pos + 2))
}

/// The numeric literal that starts at `pos` with a digit, or with a `.` that
/// a digit follows. It is the longest of: a hexadecimal integer; digits, an
/// optional fraction and an optional exponent. With a fraction or an exponent
/// it is a `Float`, else an `Integer`. It ends where the number ends, whatever
/// follows.
pub open spec fn number_at(s: Seq<u8>, pos: int) -> (TokenKind, int) {
    if is_hex_integer(s, pos) {
        (TokenKind::Integer, pos + 2 + run_len(s, pos + 2, ByteClass::HexDigit))
    } else {
        let whole = pos + run_len(s, pos, ByteClass::Digit);
        let end = exponent_end(s, fraction_end(s, whole));
        if end == whole {
            (TokenKind::Integer, end)
        } else {
            (TokenKind::Float, end)
        }
    }
}

/// The bare word that starts at `pos`: every identifier character that
/// follows belongs to it, and only then is the whole word looked up in the
/// keyword table.
pub open spec fn word_at(s: Seq<u8>, pos: int) -> (TokenKind, int) {
    let end = pos + run_len(s, pos, ByteClass::Ident);
    (word_kind(s.subrange(pos, end)), end)
}

/// The placeholder that starts at `pos`: `?` with the digits that follow it,
/// or `:`, `@` or `#` with the identifier characters that follow it. Without
/// any such character the prefix alone is illegal.
pub open spec fn variable_at(s: Seq<u8>, pos: int) -> (TokenKind, int) {
    let name = run_len(s, pos + 1, ByteClass::Ident);
    if s[pos] == QUESTION {
        (TokenKind::Variable, pos + 1 + run_len(s, pos + 1, ByteClass::Digit))
    } else if name > 0 {
        (TokenKind::Variable, pos + 1 + name)
    } else {
        (TokenKind::Illegal, pos + 1)
    }
}

/// The kind of the operator that the two bytes `b` and `next` make together,
/// if they make one.
#[verifier::allow_in_spec]
pub fn two_byte_kind(b: u8, next: u8) -> Option<TokenKind>
    returns
        if b == LESS && next == EQUALS {
            Some(TokenKind::LessOrEqual)
        } else if b == LESS && next == GREATER {
            Some(TokenKind::NotEqual)
        } else if b == LESS && next == LESS {
            Some(TokenKind::LeftShift)
        } else if b == GREATER && next == EQUALS {
            Some(TokenKind::GreaterOrEqual)
        } else if b == GREATER && next == GREATER {
            Some(TokenKind::RightShift)
        } else if b == BANG && next == EQUALS {
            Some(TokenKind::NotEqual)
        } else if b == EQUALS && next == EQUALS {
            Some(TokenKind::Equal)
        } else if b == PIPE && next == PIPE {
            Some(TokenKind::Concat)
        } else {
            None
        },
{
    if b == LESS && next == EQUALS {
        Some(TokenKind::LessOrEqual)
    } else if b == LESS && next == GREATER {
        Some(TokenKind::NotEqual)
    } else if b == LESS && next == LESS {
        Some(TokenKind::LeftShift)
    } else if b == GREATER && next == EQUALS {
        Some(TokenKind::GreaterOrEqual)
    } else if b == GREATER && next == GREATER {
        Some(TokenKind::RightShift)
    } else if b == BANG && next == EQUALS {
        Some(TokenKind::NotEqual)
    } else if b == EQUALS && next == EQUALS {
        Some(TokenKind::Equal)
    } else if b == PIPE && next == PIPE {
        Some(TokenKind::Concat)
    } else {
        None
    }
}

/// The operator or punctuation mark that starts at `pos`. Where the first
/// two bytes make an operator together, it is that one; only else is the
/// first byte taken by itself. A byte that starts nothing is illegal by
/// itself.
pub open spec fn operator_at(s: Seq<u8>, pos: int) -> (TokenKind, int) {
    match two_byte_kind(s[pos], byte_at(s, pos + 1)) {
        Some(kind) => (kind, pos + 2),
        None => (single_byte_kind(s[pos]), pos + 1),
    }
}

/// The kind of the operator or punctuation mark that is the single byte `b`,
/// or `Illegal` where `b` is none.
#[verifier::allow_in_spec]
pub fn single_byte_kind(b: u8) -> TokenKind
    returns
        if b == LESS {
            TokenKind::Less
        } else if b == GREATER {
            TokenKind::Greater
        } else if b == EQUALS {
            TokenKind::Equal
        } else if b == PIPE {
            TokenKind::BitOr
        } else if b == AMPERSAND {
            TokenKind::BitAnd
        } else if b == TILDE {
            TokenKind::BitNot
        } else if b == PLUS {
            TokenKind::Plus
        } else if b == MINUS {
            TokenKind::Minus
        } else if b == STAR {
            TokenKind::Star
        } else if b == SLASH {
            TokenKind::Slash
        } else if b == PERCENT {
            TokenKind::Remainder
        } else if b == LEFT_PAREN {
            TokenKind::LeftParen
        } else if b == RIGHT_PAREN {
            TokenKind::RightParen
        } else if b == COMMA {
            TokenKind::Comma
        } else if b == SEMICOLON {
            TokenKind::Semicolon
        } else if b == DOT {
            TokenKind::Dot
        } else {
            TokenKind::Illegal
        },
{
    if b == LESS {
        TokenKind::Less
    } else if b == GREATER {
        TokenKind::Greater
    } else if b == EQUALS {
        TokenKind::Equal
    } else if b == PIPE {
        TokenKind::BitOr
    } else if b == AMPERSAND {
        TokenKind::BitAnd
    } else if b == TILDE {
        TokenKind::BitNot
    } else if b == PLUS {
        TokenKind::Plus
    } else if b == MINUS {
        TokenKind::Minus
    } else if b == STAR {
        TokenKind::Star
    } else if b == SLASH {
        TokenKind::Slash
    } else if b == PERCENT {
        TokenKind::Remainder
    } else if b == LEFT_PAREN {
        TokenKind::LeftParen
    } else if b == RIGHT_PAREN {
        TokenKind::RightParen
    } else if b == COMMA {
        TokenKind::Comma
    } else if b == SEMICOLON {
        TokenKind::Semicolon
    } else if b == DOT {
        TokenKind::Dot
    } else {
        TokenKind::Illegal
    }
}

/// The token that starts at `pos`: its kind and the index at which it ends.
///
/// The first byte, with the one that follows it where needed, picks the
/// scanner: whitespace and comments first, then quoted identifiers, strings
/// and blobs, then numbers and placeholders, then bare words, and operators
/// and punctuation last, where a byte that fits nowhere is illegal.
pub open spec fn token_at(s: Seq<u8>, pos: int) -> (TokenKind, int)
    recommends
        0 <= pos < s.len(),
{
    let b = s[pos];
    let next = byte_at(s, pos + 1);
    if is_space(b) {
        (TokenKind::Space, pos + run_len(s, pos, ByteClass::Space))
    } else if b == MINUS && next == MINUS {
        (TokenKind::Space, line_comment_end(s, pos))
    } else if b == SLASH && next == STAR {
        (TokenKind::Space, block_comment_end(s, pos))
    } else if b == QUOTE || b == DOUBLE_QUOTE || b == BACKTICK {
        quoted_at(s, pos)
    } else if b == LEFT_BRACKET {
        bracketed_at(s, pos)
    } else if (b == LOWER_X || b == UPPER_X) && next == QUOTE {
        blob_at(s, pos)
    } else if is_digit(b) || (b == DOT && is_digit(next)) {
        number_at(s, pos)
    } else if b == QUESTION || b == COLON || b == AT || b == HASH {
        variable_at(s, pos)
    } else if is_ident_start(b) {
        word_at(s, pos)
    } else {
        operator_at(s, pos)
    }
}

/// The kind of the token that starts at `pos`.
pub open spec fn token_kind(s: Seq<u8>, pos: int) -> TokenKind {
    token_at(s, pos).0
}

/// The index at which the token that starts at `pos` ends.
pub open spec fn token_end(s: Seq<u8>, pos: int) -> int {
    token_at(s, pos).1
}

} // verus!
