//! What holds of every token, whatever the text.
use crate::chars::{
    byte_at, is_ascii, is_digit, is_ident_char, is_ident_start, is_space, lemma_run_len, run_len, ByteClass,
    AT, BACKTICK, COLON, DOT, DOUBLE_QUOTE, HASH, LEFT_BRACKET, LINE_FEED, LOWER_X, MINUS,
    QUESTION, QUOTE, RIGHT_BRACKET, SLASH, STAR, UPPER_X,
};
use crate::grammar::{
    closing_quote, comment_close, fraction_end, is_hex_integer, number_at, token_end, token_kind,
    two_byte_kind,
};
use crate::keyword::{lemma_words_are_no_markers, word_kind};
use vstd::prelude::*;
use vstd::utf8::{
    is_char_boundary, is_char_boundary_iff_not_is_continuation_byte,
    is_char_boundary_start_end_of_seq, is_continuation_byte, valid_utf8, valid_utf8_split,
};

verus! {

/// The `*/` that closes a block comment is the first one at or after the place
/// from which it is sought, and both of its bytes lie inside the text.
pub proof fn lemma_comment_close(s: Seq<u8>, from: int)
    requires
        0 <= from <= s.len(),
    ensures
        from <= comment_close(s, from) <= s.len(),
        comment_close(s, from) < s.len() ==> {
            &&& comment_close(s, from) + 1 < s.len()
            &&& s[comment_close(s, from)] == STAR
            &&& s[comment_close(s, from) + 1] == SLASH
        },
        forall|i: int|
            from <= i < comment_close(s, from) ==> !(#[trigger] s[i] == STAR && byte_at(s, i + 1)
                == SLASH),
    decreases s.len() - from,
{
    if from < s.len() && !(s[from] == STAR && byte_at(s, from + 1) == SLASH) {
        lemma_comment_close(s, from + 1);
    }
}

/// The delimiter that closes a quoted run lies at or after the place from
/// which it is sought, and is the delimiter.
pub proof fn lemma_closing_quote(s: Seq<u8>, from: int, quote: u8)
    requires
        0 <= from <= s.len(),
    ensures
        from <= closing_quote(s, from, quote) <= s.len(),
        closing_quote(s, from, quote) < s.len() ==> s[closing_quote(s, from, quote)] == quote,
    decreases s.len() - from,
{
    if from < s.len() {
        if s[from] != quote {
            lemma_closing_quote(s, from + 1, quote);
        } else if from + 1 < s.len() && s[from + 1] == quote {
            lemma_closing_quote(s, from + 2, quote);
        }
    }
}

/// A number takes at least one byte, stays inside the text, and ends with a
/// digit, a hexadecimal digit or a `.`.
pub proof fn lemma_number(s: Seq<u8>, pos: int)
    requires
        0 <= pos < s.len(),
        is_digit(s[pos]) || (s[pos] == DOT && is_digit(byte_at(s, pos + 1))),
    ensures
        pos < number_at(s, pos).1 <= s.len(),
        is_ascii(s[number_at(s, pos).1 - 1]),
{
    if is_hex_integer(s, pos) {
        lemma_run_len(s, pos + 2, ByteClass::HexDigit);
    } else {
        lemma_run_len(s, pos, ByteClass::Digit);
        let whole = pos + run_len(s, pos, ByteClass::Digit);
        if byte_at(s, whole) == DOT {
            lemma_run_len(s, whole + 1, ByteClass::Digit);
        }
        let frac = fraction_end(s, whole);
        if frac < s.len() {
            lemma_run_len(s, frac + 1, ByteClass::Digit);
            if frac + 1 < s.len() {
                lemma_run_len(s, frac + 2, ByteClass::Digit);
            }
        }
    }
}

/// Forward progress: every token takes at least one byte and ends inside the
/// text.
pub proof fn lemma_token_progress(s: Seq<u8>, pos: int)
    requires
        0 <= pos < s.len(),
    ensures
        pos < token_end(s, pos) <= s.len(),
{
    lemma_token_shape(s, pos);
}

/// A token takes at least one byte, ends inside the text, and never ends
/// inside a multi-byte character: it ends at the end of the text, or behind
/// or before an ASCII byte.
pub proof fn lemma_token_shape(s: Seq<u8>, pos: int)
    requires
        0 <= pos < s.len(),
    ensures
        pos < token_end(s, pos) <= s.len(),
        token_end(s, pos) == s.len() || is_ascii(s[token_end(s, pos)]) || is_ascii(
            s[token_end(s, pos) - 1],
        ),
{
    let b = s[pos];
    let next = byte_at(s, pos + 1);
    if is_space(b) {
        lemma_run_len(s, pos, ByteClass::Space);
    } else if b == MINUS && next == MINUS {
        lemma_run_len(s, pos + 2, ByteClass::Except(LINE_FEED));
    } else if b == SLASH && next == STAR {
        lemma_comment_close(s, pos + 2);
    } else if b == QUOTE || b == DOUBLE_QUOTE || b == BACKTICK {
        lemma_closing_quote(s, pos + 1, b);
    } else if b == LEFT_BRACKET {
        lemma_run_len(s, pos + 1, ByteClass::Except(RIGHT_BRACKET));
    } else if (b == LOWER_X || b == UPPER_X) && next == QUOTE {
        lemma_run_len(s, pos + 2, ByteClass::HexDigit);
        let stop = pos + 2 + run_len(s, pos + 2, ByteClass::HexDigit);
        lemma_run_len(s, stop, ByteClass::Except(QUOTE));
    } else if is_digit(b) || (b == DOT && is_digit(next)) {
        lemma_number(s, pos);
    } else if b == QUESTION || b == COLON || b == AT || b == HASH {
        lemma_run_len(s, pos + 1, ByteClass::Digit);
        lemma_run_len(s, pos + 1, ByteClass::Ident);
    } else if is_ident_start(b) {
        lemma_run_len(s, pos, ByteClass::Ident);
    } else {
    }
}

/// Longest match for bare words: a bare word takes every identifier character
/// that follows its first byte, so that no identifier character follows the
/// token, and its kind is that of the whole word. A word is never split into
/// a keyword and a rest.
pub proof fn lemma_word_is_longest(s: Seq<u8>, pos: int)
    requires
        0 <= pos < s.len(),
        is_ident_start(s[pos]),
        !((s[pos] == LOWER_X || s[pos] == UPPER_X) && byte_at(s, pos + 1) == QUOTE),
    ensures
        pos < token_end(s, pos) <= s.len(),
        forall|i: int| pos <= i < token_end(s, pos) ==> is_ident_char(#[trigger] s[i]),
        !is_ident_char(byte_at(s, token_end(s, pos))),
        token_kind(s, pos) == word_kind(s.subrange(pos, token_end(s, pos))),
{
    lemma_run_len(s, pos, ByteClass::Ident);
}

/// Longest match for operators: where the two bytes at `pos` make an
/// operator together, the token at `pos` is that operator, never its first
/// byte alone.
pub proof fn lemma_operator_is_longest(s: Seq<u8>, pos: int)
    requires
        0 <= pos < s.len(),
        two_byte_kind(s[pos], byte_at(s, pos + 1)) is Some,
    ensures
        token_kind(s, pos) == two_byte_kind(s[pos], byte_at(s, pos + 1))->0,
        token_end(s, pos) == pos + 2,
{
}

/// No token is of a kind that is kept for consumers.
pub proof fn lemma_tokens_are_no_markers(s: Seq<u8>, pos: int)
    requires
        0 <= pos < s.len(),
    ensures
        !token_kind(s, pos).is_marker(),
{
    let end = pos + run_len(s, pos, ByteClass::Ident);
    lemma_words_are_no_markers(s.subrange(pos, end));
}

/// In well-formed UTF-8 a character begins behind every ASCII byte.
pub proof fn lemma_boundary_after_ascii(bytes: Seq<u8>, i: int)
    requires
        valid_utf8(bytes),
        0 < i <= bytes.len(),
        is_ascii(bytes[i - 1]),
    ensures
        is_char_boundary(bytes, i),
{
    is_char_boundary_start_end_of_seq(bytes);
    if i < bytes.len() {
        is_char_boundary_iff_not_is_continuation_byte(bytes, i - 1);
        valid_utf8_split(bytes, i - 1);
        let rest = bytes.subrange(i - 1, bytes.len() as int);
        let tail = bytes.subrange(i, bytes.len() as int);
        assert(rest[0] == bytes[i - 1]);
        assert(tail =~= rest.subrange(1, rest.len() as int));
        assert(valid_utf8(tail));
        assert(tail[0] == bytes[i]);
        assert(!is_continuation_byte(bytes[i]));
        is_char_boundary_iff_not_is_continuation_byte(bytes, i);
    }
}

/// In well-formed UTF-8 a character begins wherever a token ends.
pub proof fn lemma_token_ends_on_boundary(bytes: Seq<u8>, pos: int)
    requires
        valid_utf8(bytes),
        0 <= pos < bytes.len(),
    ensures
        is_char_boundary(bytes, token_end(bytes, pos)),
{
    lemma_token_shape(bytes, pos);
    let end = token_end(bytes, pos);
    is_char_boundary_start_end_of_seq(bytes);
    if end < bytes.len() {
        if is_ascii(bytes[end]) {
            is_char_boundary_iff_not_is_continuation_byte(bytes, end);
        } else {
            lemma_boundary_after_ascii(bytes, end);
        }
    }
}

} // verus!
