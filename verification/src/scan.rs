//! The scanners: executable code that finds the token at a position, each
//! proved to compute what the grammar states.
use crate::chars::{
    is_digit, is_hex_digit, is_ident_start, is_space, peek, skip_run, ByteClass, AT, BACKTICK,
    COLON, DOT, DOUBLE_QUOTE, HASH, LEFT_BRACKET, LINE_FEED, LOWER_E, LOWER_X, MINUS, PLUS,
    QUESTION, QUOTE, RIGHT_BRACKET, SLASH, STAR, UPPER_E, UPPER_X, ZERO,
};
use crate::grammar::{
    blob_at, bracketed_at, closing_quote, comment_close, exponent_end, fraction_end, number_at,
    operator_at, quoted_at, single_byte_kind, token_at, two_byte_kind, variable_at, word_at,
};
use crate::keyword::keyword_lookup;
use crate::laws::lemma_token_shape;
use crate::kind::TokenKind;
use vstd::prelude::*;

verus! {

/// Finds the `*/` that closes a block comment, from `from` on.
pub fn find_comment_close(z: &[u8], from: usize) -> (at: usize)
    requires
        from <= z.len(),
    ensures
        at == comment_close(z@, from as int),
        from <= at <= z.len(),
        at < z.len() ==> at + 1 < z.len(),
{
    let mut i: usize = from;
    while i < z.len() && !(z[i] == STAR && peek(z, i + 1) == SLASH)
        invariant
            from <= i <= z.len(),
            comment_close(z@, from as int) == comment_close(z@, i as int),
        decreases z.len() - i,
    {
        i = i + 1;
    }
    i
}

/// Finds the delimiter that closes a quoted run, from `from` on.
pub fn find_closing_quote(z: &[u8], from: usize, quote: u8) -> (at: usize)
    requires
        from <= z.len(),
    ensures
        at == closing_quote(z@, from as int, quote),
        from <= at <= z.len(),
{
    let mut i: usize = from;
    while i < z.len()
        invariant
            from <= i <= z.len(),
            closing_quote(z@, from as int, quote) == closing_quote(z@, i as int, quote),
        decreases z.len() - i,
    {
        if z[i] != quote {
            i = i + 1;
        } else if i + 1 < z.len() && z[i + 1] == quote {
            i = i + 2;
        } else {
            return i;
        }
    }
    i
}

/// Scans a string literal or a quoted identifier.
pub fn scan_quoted(z: &[u8], pos: usize) -> (found: (TokenKind, usize))
    requires
        pos < z.len(),
    ensures
        found.0 == quoted_at(z@, pos as int).0,
        found.1 == quoted_at(z@, pos as int).1,
{
    let close = find_closing_quote(z, pos + 1, z[pos]);
    if close >= z.len() {
        (TokenKind::UnclosedString, z.len())
    } else if z[pos] == QUOTE {
        (TokenKind::String, close + 1)
    } else {
        (TokenKind::Id, close + 1)
    }
}

/// Scans an identifier in square brackets.
pub fn scan_bracketed(z: &[u8], pos: usize) -> (found: (TokenKind, usize))
    requires
        pos < z.len(),
    ensures
        found.0 == bracketed_at(z@, pos as int).0,
        found.1 == bracketed_at(z@, pos as int).1,
{
    let close = skip_run(z, pos + 1, ByteClass::Except(RIGHT_BRACKET));
    if close < z.len() {
        (TokenKind::Id, close + 1)
    } else {
        (TokenKind::UnclosedString, z.len())
    }
}

/// Scans a blob literal.
pub fn scan_blob(z: &[u8], pos: usize) -> (found: (TokenKind, usize))
    requires
        pos + 1 < z.len(),
    ensures
        found.0 == blob_at(z@, pos as int).0,
        found.1 == blob_at(z@, pos as int).1,
{
    let stop = skip_run(z, pos + 2, ByteClass::HexDigit);
    if peek(z, stop) == QUOTE && (stop - pos) % 2 == 0 {
        return (TokenKind::Blob, stop + 1);
    }
    let close = skip_run(z, stop, ByteClass::Except(QUOTE));
    if close < z.len() {
        (TokenKind::Illegal, close + 1)
    } else {
        (TokenKind::UnclosedString, z.len())
    }
}

/// Scans the fraction of a number, if one starts at `from`.
pub fn scan_fraction(z: &[u8], from: usize) -> (end: usize)
    requires
        from <= z.len(),
    ensures
        end == fraction_end(z@, from as int),
        from <= end <= z.len(),
{
    if peek(z, from) == DOT {
        skip_run(z, from + 1, ByteClass::Digit)
    } else {
        from
    }
}

/// Scans the exponent of a number, if one starts at `from`.
pub fn scan_exponent(z: &[u8], from: usize) -> (end: usize)
    requires
        from <= z.len(),
    ensures
        end == exponent_end(z@, from as int),
        from <= end <= z.len(),
{
    let mark = peek(z, from);
    if mark != LOWER_E && mark != UPPER_E {
        return from;
    }
    let sign = peek(z, from + 1);
    if is_digit(sign) {
        skip_run(z, from + 1, ByteClass::Digit)
    } else if (sign == PLUS || sign == MINUS) && is_digit(peek(z, from + 2)) {
        skip_run(z, from + 2, ByteClass::Digit)
    } else {
        from
    }
}

/// Scans a numeric literal.
pub fn scan_number(z: &[u8], pos: usize) -> (found: (TokenKind, usize))
    requires
        pos < z.len(),
    ensures
        found.0 == number_at(z@, pos as int).0,
        found.1 == number_at(z@, pos as int).1,
{
    let next = peek(z, pos + 1);
    if z[pos] == ZERO && (next == LOWER_X || next == UPPER_X) && is_hex_digit(peek(z, pos + 2)) {
        return (TokenKind::Integer, skip_run(z, pos + 2, ByteClass::HexDigit));
    }
    let whole = skip_run(z, pos, ByteClass::Digit);
    let end = scan_exponent(z, scan_fraction(z, whole));
    if end == whole {
        (TokenKind::Integer, end)
    } else {
        (TokenKind::Float, end)
    }
}

/// Scans a bare word and looks it up in the keyword table.
pub fn scan_word(z: &[u8], pos: usize) -> (found: (TokenKind, usize))
    requires
        pos < z.len(),
    ensures
        found.0 == word_at(z@, pos as int).0,
        found.1 == word_at(z@, pos as int).1,
{
    let end = skip_run(z, pos, ByteClass::Ident);
    match keyword_lookup(z, pos, end) {
        Some(kind) => (kind, end),
        None => (TokenKind::Id, end),
    }
}

/// Scans a placeholder.
pub fn scan_variable(z: &[u8], pos: usize) -> (found: (TokenKind, usize))
    requires
        pos < z.len(),
    ensures
        found.0 == variable_at(z@, pos as int).0,
        found.1 == variable_at(z@, pos as int).1,
{
    if z[pos] == QUESTION {
        return (TokenKind::Variable, skip_run(z, pos + 1, ByteClass::Digit));
    }
    let end = skip_run(z, pos + 1, ByteClass::Ident);
    if end > pos + 1 {
        (TokenKind::Variable, end)
    } else {
        (TokenKind::Illegal, pos + 1)
    }
}

/// Scans an operator or a punctuation mark.
pub fn scan_operator(z: &[u8], pos: usize) -> (found: (TokenKind, usize))
    requires
        pos < z.len(),
    ensures
        found.0 == operator_at(z@, pos as int).0,
        found.1 == operator_at(z@, pos as int).1,
{
    match two_byte_kind(z[pos], peek(z, pos + 1)) {
        Some(kind) => (kind, pos + 2),
        None => (single_byte_kind(z[pos]), pos + 1),
    }
}

/// Scans the token that starts at `pos`: its kind and the index at which it
/// ends, which lies behind `pos` and inside the text.
pub fn scan_token(z: &[u8], pos: usize) -> (found: (TokenKind, usize))
    requires
        pos < z.len(),
    ensures
        found.0 == token_at(z@, pos as int).0,
        found.1 == token_at(z@, pos as int).1,
        pos < found.1 <= z.len(),
{
    proof {
        lemma_token_shape(z@, pos as int);
    }
    let b = z[pos];
    let next = peek(z, pos + 1);
    if is_space(b) {
        (TokenKind::Space, skip_run(z, pos, ByteClass::Space))
    } else if b == MINUS && next == MINUS {
        (TokenKind::Space, skip_run(z, pos + 2, ByteClass::Except(LINE_FEED)))
    } else if b == SLASH && next == STAR {
        let close = find_comment_close(z, pos + 2);
        if close < z.len() {
            (TokenKind::Space, close + 2)
        } else {
            (TokenKind::Space, z.len())
        }
    } else if b == QUOTE || b == DOUBLE_QUOTE || b == BACKTICK {
        scan_quoted(z, pos)
    } else if b == LEFT_BRACKET {
        scan_bracketed(z, pos)
    } else if (b == LOWER_X || b == UPPER_X) && next == QUOTE {
        scan_blob(z, pos)
    } else if is_digit(b) || (b == DOT && is_digit(next)) {
        scan_number(z, pos)
    } else if b == QUESTION || b == COLON || b == AT || b == HASH {
        scan_variable(z, pos)
    } else if is_ident_start(b) {
        scan_word(z, pos)
    } else {
        scan_operator(z, pos)
    }
}

} // verus!
