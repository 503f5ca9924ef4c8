//! The tokenizer: a cursor over the text that hands out one token per call
//! until the text is used up.
use crate::chars::{lemma_run_len, skip_run, ByteClass, TERMINATOR};
use crate::kind::TokenKind;
use crate::laws::{lemma_token_ends_on_boundary, lemma_tokens_are_no_markers};
use crate::scan::scan_token;
use crate::stream::{
    consumable, consumable_len, joined, lemma_consumable, lemma_tokens_cover_from, lexeme_at,
    tokens, tokens_from, Lexeme,
};
use vstd::prelude::*;
use vstd::string::StringSliceAdditionalSpecFns;
use vstd::utf8::{
    encode_utf8_valid_utf8, is_char_boundary, is_char_boundary_iff_not_is_continuation_byte,
    is_char_boundary_start_end_of_seq,
};

verus! {

/// The part of `s` before its first terminator byte; `s` itself where it
/// holds none.
pub fn until_internal_0<'a>(s: &'a str) -> (head: &'a str)
    ensures
        head.spec_bytes() == consumable(s.spec_bytes()),
{
    let bytes = s.as_bytes();
    let n = skip_run(bytes, 0, ByteClass::Except(TERMINATOR));
    proof {
        lemma_run_len(bytes@, 0, ByteClass::Except(TERMINATOR));
        encode_utf8_valid_utf8(s@);
        is_char_boundary_start_end_of_seq(bytes@);
        if n < bytes@.len() {
            is_char_boundary_iff_not_is_continuation_byte(bytes@, n as int);
        }
    }
    let (head, _) = s.split_at(n);
    head
}

/// A single token: its kind and the part of the text that it was read from.
#[derive(Debug, Clone, Copy)]
pub struct Token<'a> {
    pub kind: TokenKind,
    pub text: &'a str,
}

/// What the tokens are, apart from where their texts are stored.
pub open spec fn lexemes<'a>(tokens: Seq<Token<'a>>) -> Seq<Lexeme> {
    tokens.map_values(|t: Token<'a>| t@)
}

impl<'a> View for Token<'a> {
    type V = Lexeme;

    open spec fn view(&self) -> Lexeme {
        Lexeme { kind: self.kind, text: self.text.spec_bytes() }
    }
}

/// Iterates over the tokens of a text.
///
/// The tokenizer borrows the text. It is at the start of the text when it is
/// made, moves forward by one token with each call of [`Tokenizer::next`],
/// and is exhausted when it has reached the first terminator byte or the
/// end of the text.
#[derive(Debug)]
pub struct Tokenizer<'a> {
    /// The part of the text before its first terminator.
    sql: &'a str,
    /// Where the next token starts.
    offset: usize,
}

impl<'a> Tokenizer<'a> {
    /// The cursor lies inside the text, at the start of a character, and the
    /// text holds no terminator.
    #[verifier::type_invariant]
    spec fn well_formed(self) -> bool {
        &&& self.offset <= self.sql.spec_bytes().len()
        &&& is_char_boundary(self.sql.spec_bytes(), self.offset as int)
        &&& consumable_len(self.sql.spec_bytes()) == self.sql.spec_bytes().len()
    }

    /// The bytes that are tokenized: the text up to its first terminator.
    pub closed spec fn text(self) -> Seq<u8> {
        self.sql.spec_bytes()
    }

    /// The number of bytes that the tokens handed out so far have taken.
    pub closed spec fn offset(self) -> int {
        self.offset as int
    }

    /// The tokens that are still to come.
    pub open spec fn remaining(self) -> Seq<Lexeme> {
        tokens_from(self.text(), self.offset())
    }

    /// A tokenizer at the start of `sql`.
    ///
    /// Where `sql` holds a terminator byte, the tokenizer reads it up to the
    /// first one only, as if the text ended there.
    pub fn new(sql: &'a str) -> (tokenizer: Tokenizer<'a>)
        ensures
            tokenizer.text() == consumable(sql.spec_bytes()),
            tokenizer.offset() == 0,
            tokenizer.remaining() == tokens(sql.spec_bytes()),
    {
        let head = until_internal_0(sql);
        proof {
            lemma_consumable(sql.spec_bytes());
            encode_utf8_valid_utf8(head@);
            is_char_boundary_start_end_of_seq(head.spec_bytes());
        }
        Tokenizer { sql: head, offset: 0 }
    }

    /// The next token, or `None` when the text is used up.
    ///
    /// The token is the one that the grammar finds at the cursor; its text is
    /// borrowed from the text that the tokenizer was made of. The cursor moves
    /// behind the token, by the length of its text, which is never empty.
    pub fn next(&mut self) -> (token: Option<Token<'a>>)
        ensures
            final(self).text() == old(self).text(),
            0 <= old(self).offset() <= final(self).offset() <= old(self).text().len(),
            old(self).offset() == old(self).text().len() ==> token is None && final(self).offset()
                == old(self).offset(),
            old(self).offset() < old(self).text().len() ==> {
                &&& token is Some
                &&& token->0@ == lexeme_at(old(self).text(), old(self).offset())
                &&& token->0@.text.len() > 0
                &&& !token->0.kind.is_marker()
                &&& final(self).offset() == old(self).offset() + token->0@.text.len()
            },
            old(self).remaining() == match token {
                Some(t) => seq![t@] + final(self).remaining(),
                None => Seq::empty(),
            },
    {
        proof {
            use_type_invariant(&*self);
        }
        let sql: &'a str = self.sql;
        let bytes = sql.as_bytes();
        let start = self.offset;
        if start >= bytes.len() {
            return None;
        }
        let (kind, end) = scan_token(bytes, start);
        proof {
            encode_utf8_valid_utf8(sql@);
            lemma_token_ends_on_boundary(bytes@, start as int);
            lemma_tokens_are_no_markers(bytes@, start as int);
        }
        let (_, rest) = sql.split_at(start);
        proof {
            encode_utf8_valid_utf8(rest@);
            is_char_boundary_start_end_of_seq(rest.spec_bytes());
            if end < bytes@.len() {
                is_char_boundary_iff_not_is_continuation_byte(bytes@, end as int);
                assert(rest.spec_bytes()[end - start] == bytes@[end as int]);
                is_char_boundary_iff_not_is_continuation_byte(rest.spec_bytes(), end - start);
            }
        }
        let (text, _) = rest.split_at(end - start);
        self.offset = end;
        let token = Token { kind, text };
        assert(token@.text =~= bytes@.subrange(start as int, end as int));
        Some(token)
    }

    /// All the tokens that are still to come, in order. The tokenizer is used
    /// up by this.
    ///
    /// The texts of the tokens, one behind the other, are the text from the
    /// cursor to its end.
    pub fn collect(&mut self) -> (found: Vec<Token<'a>>)
        ensures
            lexemes(found@) == old(self).remaining(),
            joined(lexemes(found@)) == old(self).text().subrange(
                old(self).offset(),
                old(self).text().len() as int,
            ),
            final(self).text() == old(self).text(),
            final(self).offset() == old(self).text().len(),
    {
        let mut found: Vec<Token<'a>> = Vec::new();
        let ghost all = self.remaining();
        proof {
            use_type_invariant(&*self);
            lemma_tokens_cover_from(self.text(), self.offset());
            assert(lexemes(found@) + self.remaining() =~= all);
        }
        loop
            invariant
                all == lexemes(found@) + self.remaining(),
                self.text() == old(self).text(),
                0 <= self.offset() <= self.text().len(),
            ensures
                all == lexemes(found@),
                self.text() == old(self).text(),
                self.offset() == self.text().len(),
            decreases self.text().len() - self.offset(),
        {
            let ghost before = found@;
            match self.next() {
                Some(token) => {
                    found.push(token);
                    assert(lexemes(found@) =~= lexemes(before) + seq![token@]);
                },
                None => {
                    assert(lexemes(found@) + Seq::<Lexeme>::empty() =~= lexemes(found@));
                    break ;
                },
            }
        }
        found
    }
}

impl<'a> Clone for Tokenizer<'a> {
    /// A second tokenizer over the same text, at the same place.
    fn clone(&self) -> (copy: Tokenizer<'a>)
        ensures
            copy == *self,
    {
        proof {
            use_type_invariant(self);
        }
        Tokenizer { sql: self.sql, offset: self.offset }
    }
}

} // verus!
