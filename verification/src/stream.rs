//! The token sequence of a text, as a mathematical object, and what holds of
//! it for every text.
//!
//! The text ends before its first terminator byte. What follows that byte is
//! never read and never part of a token.
use crate::chars::{lemma_run_len, run_len, ByteClass, TERMINATOR};
use crate::grammar::{token_end, token_kind};
use crate::kind::TokenKind;
use crate::laws::lemma_token_shape;
use vstd::prelude::*;

verus! {

/// What a token is, apart from where its text is stored: its kind and the
/// bytes of its text.
pub ghost struct Lexeme {
    pub kind: TokenKind,
    pub text: Seq<u8>,
}

/// The number of bytes before the first terminator, or the length of the
/// text where it holds none.
pub open spec fn consumable_len(text: Seq<u8>) -> nat {
    run_len(text, 0, ByteClass::Except(TERMINATOR))
}

/// The part of the text that is tokenized: what stands before the first
/// terminator, or the whole text where it holds none.
pub open spec fn consumable(text: Seq<u8>) -> Seq<u8> {
    text.take(consumable_len(text) as int)
}

/// The token that starts at `pos`.
pub open spec fn lexeme_at(s: Seq<u8>, pos: int) -> Lexeme {
    Lexeme { kind: token_kind(s, pos), text: s.subrange(pos, token_end(s, pos)) }
}

/// The tokens of `s` from `pos` on, in order: the token that starts at `pos`,
/// then the tokens from where it ends, up to the end of `s`.
pub open spec fn tokens_from(s: Seq<u8>, pos: int) -> Seq<Lexeme>
    decreases s.len() - pos,
    via tokens_from_terminates
{
    if 0 <= pos < s.len() {
        seq![lexeme_at(s, pos)] + tokens_from(s, token_end(s, pos))
    } else {
        Seq::empty()
    }
}

#[via_fn]
proof fn tokens_from_terminates(s: Seq<u8>, pos: int) {
    if 0 <= pos < s.len() {
        lemma_token_shape(s, pos);
    }
}

/// The tokens of a text: those of its part before the first terminator.
pub open spec fn tokens(text: Seq<u8>) -> Seq<Lexeme> {
    tokens_from(consumable(text), 0)
}

/// The texts of the tokens, one behind the other.
pub open spec fn joined(tokens: Seq<Lexeme>) -> Seq<u8>
    decreases tokens.len(),
{
    if tokens.len() == 0 {
        Seq::empty()
    } else {
        tokens[0].text + joined(tokens.drop_first())
    }
}

/// The tokenized part of a text ends at the first terminator, or at the end
/// of the text, and holds no terminator itself.
pub proof fn lemma_consumable(text: Seq<u8>)
    ensures
        consumable_len(text) <= text.len(),
        consumable_len(text) < text.len() ==> text[consumable_len(text) as int] == TERMINATOR,
        forall|i: int|
            0 <= i < consumable(text).len() ==> #[trigger] consumable(text)[i] != TERMINATOR,
        consumable_len(consumable(text)) == consumable(text).len(),
{
    let class = ByteClass::Except(TERMINATOR);
    lemma_run_len(text, 0, class);
    let head = consumable(text);
    lemma_run_len(head, 0, class);
    if consumable_len(head) < head.len() {
        assert(head[consumable_len(head) as int] == text[consumable_len(head) as int]);
    }
}

/// Cutting a text at its first terminator changes nothing in what is
/// tokenized: the part before the terminator is tokenized as the whole text
/// is.
pub proof fn lemma_truncation_is_idempotent(text: Seq<u8>)
    ensures
        consumable(consumable(text)) == consumable(text),
        tokens(consumable(text)) == tokens(text),
{
    lemma_consumable(text);
    let head = consumable(text);
    assert(head.take(head.len() as int) =~= head);
}

/// In `head`, which holds no terminator, the run of bytes other than the
/// terminator that starts at `from` ends where `head` ends, also when a
/// terminator and more text follow `head`.
proof fn lemma_run_stops_at_terminator(head: Seq<u8>, tail: Seq<u8>, from: int)
    requires
        0 <= from <= head.len(),
        forall|i: int| 0 <= i < head.len() ==> head[i] != TERMINATOR,
    ensures
        from + run_len(head + seq![TERMINATOR] + tail, from, ByteClass::Except(TERMINATOR))
            == head.len(),
        from + run_len(head, from, ByteClass::Except(TERMINATOR)) == head.len(),
    decreases head.len() - from,
{
    let whole = head + seq![TERMINATOR] + tail;
    if from < head.len() {
        assert(whole[from] == head[from]);
        lemma_run_stops_at_terminator(head, tail, from + 1);
    } else {
        assert(whole[from] == TERMINATOR);
    }
}

/// The terminator ends the text: a text without a terminator is tokenized as
/// a whole, and in the same way whatever follows it behind a terminator.
pub proof fn lemma_terminator_ends_the_text(head: Seq<u8>, tail: Seq<u8>)
    requires
        forall|i: int| 0 <= i < head.len() ==> head[i] != TERMINATOR,
    ensures
        consumable(head) == head,
        consumable(head + seq![TERMINATOR] + tail) == head,
        tokens(head + seq![TERMINATOR] + tail) == tokens(head),
{
    lemma_run_stops_at_terminator(head, tail, 0);
    let whole = head + seq![TERMINATOR] + tail;
    assert(head.take(head.len() as int) =~= head);
    assert(whole.take(head.len() as int) =~= head);
}

/// From any position on, the texts of the tokens, one behind the other, are
/// the rest of the text: nothing is left out, nothing is added, and nothing
/// is moved.
pub proof fn lemma_tokens_cover_from(s: Seq<u8>, pos: int)
    requires
        0 <= pos <= s.len(),
    ensures
        joined(tokens_from(s, pos)) == s.subrange(pos, s.len() as int),
    decreases s.len() - pos,
{
    if pos < s.len() {
        lemma_token_shape(s, pos);
        let end = token_end(s, pos);
        let rest = tokens_from(s, end);
        lemma_tokens_cover_from(s, end);
        assert(tokens_from(s, pos).drop_first() =~= rest);
        assert(s.subrange(pos, end) + s.subrange(end, s.len() as int) =~= s.subrange(
            pos,
            s.len() as int,
        ));
    } else {
        assert(s.subrange(pos, s.len() as int) =~= Seq::<u8>::empty());
    }
}

/// Coverage: the texts of the tokens of a text, one behind the other, are the
/// text up to its first terminator, or the whole text where it holds none.
pub proof fn lemma_tokens_cover(text: Seq<u8>)
    ensures
        joined(tokens(text)) == consumable(text),
{
    let s = consumable(text);
    lemma_tokens_cover_from(s, 0);
    assert(s.subrange(0, s.len() as int) =~= s);
}

/// From any position on, no token is empty, and there are at most as many
/// tokens as bytes are left.
pub proof fn lemma_tokens_from_are_nonempty(s: Seq<u8>, pos: int)
    requires
        0 <= pos <= s.len(),
    ensures
        tokens_from(s, pos).len() <= s.len() - pos,
        forall|i: int|
            0 <= i < tokens_from(s, pos).len() ==> (#[trigger] tokens_from(s, pos)[i]).text.len()
                > 0,
    decreases s.len() - pos,
{
    if pos < s.len() {
        lemma_token_shape(s, pos);
        lemma_tokens_from_are_nonempty(s, token_end(s, pos));
    }
}

/// Forward progress and termination: no token of a text is empty, so a text
/// has at most as many tokens as it has bytes.
pub proof fn lemma_tokens_are_nonempty(text: Seq<u8>)
    ensures
        tokens(text).len() <= consumable(text).len() <= text.len(),
        forall|i: int| 0 <= i < tokens(text).len() ==> (#[trigger] tokens(text)[i]).text.len() > 0,
{
    lemma_consumable(text);
    lemma_tokens_from_are_nonempty(consumable(text), 0);
}

} // verus!
