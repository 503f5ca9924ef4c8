//! Byte classification: the predicates that every scanner is built from.
//!
//! The input is UTF-8 and is scanned byte by byte. Every byte of a multi-byte
//! character (`0x80` and above) counts as an identifier character, so a token
//! boundary never falls inside a character.
use vstd::prelude::*;

verus! {

/// The terminator: the text ends before the first byte of this value.
pub const TERMINATOR: u8 = 0;

/// The byte of the line feed.
pub const LINE_FEED: u8 = 0x0a;

/// The byte of `!`.
pub const BANG: u8 = 0x21;

/// The byte of `"`.
pub const DOUBLE_QUOTE: u8 = 0x22;

/// The byte of `#`.
pub const HASH: u8 = 0x23;

/// The byte of `$`.
pub const DOLLAR: u8 = 0x24;

/// The byte of `%`.
pub const PERCENT: u8 = 0x25;

/// The byte of `&`.
pub const AMPERSAND: u8 = 0x26;

/// The byte of `'`.
pub const QUOTE: u8 = 0x27;

/// The byte of `(`.
pub const LEFT_PAREN: u8 = 0x28;

/// The byte of `)`.
pub const RIGHT_PAREN: u8 = 0x29;

/// The byte of `*`.
pub const STAR: u8 = 0x2a;

/// The byte of `+`.
pub const PLUS: u8 = 0x2b;

/// The byte of `,`.
pub const COMMA: u8 = 0x2c;

/// The byte of `-`.
pub const MINUS: u8 = 0x2d;

/// The byte of `.`.
pub const DOT: u8 = 0x2e;

/// The byte of `/`.
pub const SLASH: u8 = 0x2f;

/// The byte of `0`.
pub const ZERO: u8 = 0x30;

/// The byte of `:`.
pub const COLON: u8 = 0x3a;

/// The byte of `;`.
pub const SEMICOLON: u8 = 0x3b;

/// The byte of `<`.
pub const LESS: u8 = 0x3c;

/// The byte of `=`.
pub const EQUALS: u8 = 0x3d;

/// The byte of `>`.
pub const GREATER: u8 = 0x3e;

/// The byte of `?`.
pub const QUESTION: u8 = 0x3f;

/// The byte of `@`.
pub const AT: u8 = 0x40;

/// The byte of `E`.
pub const UPPER_E: u8 = 0x45;

/// The byte of `X`.
pub const UPPER_X: u8 = 0x58;

/// The byte of `[`.
pub const LEFT_BRACKET: u8 = 0x5b;

/// The byte of `]`.
pub const RIGHT_BRACKET: u8 = 0x5d;

/// The byte of `_`.
pub const UNDERSCORE: u8 = 0x5f;

/// The byte of `` ` ``.
pub const BACKTICK: u8 = 0x60;

/// The byte of `e`.
pub const LOWER_E: u8 = 0x65;

/// The byte of `x`.
pub const LOWER_X: u8 = 0x78;

/// The byte of `|`.
pub const PIPE: u8 = 0x7c;

/// The byte of `~`.
pub const TILDE: u8 = 0x7e;

/// A byte that is a character by itself. Every byte of a multi-byte character
/// is `0x80` or above.
#[verifier::allow_in_spec]
pub fn is_ascii(b: u8) -> bool
    returns
        b < 0x80,
{
    b < 0x80
}

/// Space, tab, line feed, vertical tab, form feed and carriage return.
#[verifier::allow_in_spec]
pub fn is_space(b: u8) -> bool
    returns
        b == 0x20 || (0x09 <= b && b <= 0x0d),
{
    b == 0x20 || (0x09 <= b && b <= 0x0d)
}

/// The decimal digits `0` to `9`.
#[verifier::allow_in_spec]
pub fn is_digit(b: u8) -> bool
    returns
        0x30 <= b && b <= 0x39,
{
    0x30 <= b && b <= 0x39
}

/// The ASCII letters `A` to `Z` and `a` to `z`.
#[verifier::allow_in_spec]
pub fn is_letter(b: u8) -> bool
    returns
        (0x41 <= b && b <= 0x5a) || (0x61 <= b && b <= 0x7a),
{
    (0x41 <= b && b <= 0x5a) || (0x61 <= b && b <= 0x7a)
}

/// The hexadecimal digits: `0` to `9`, `A` to `F` and `a` to `f`.
#[verifier::allow_in_spec]
pub fn is_hex_digit(b: u8) -> bool
    returns
        is_digit(b) || (0x41 <= b && b <= 0x46) || (0x61 <= b && b <= 0x66),
{
    is_digit(b) || (0x41 <= b && b <= 0x46) || (0x61 <= b && b <= 0x66)
}

/// A byte that may begin a bare identifier: a letter, `_`, or any byte of a
/// multi-byte character.
#[verifier::allow_in_spec]
pub fn is_ident_start(b: u8) -> bool
    returns
        is_letter(b) || b == UNDERSCORE || !is_ascii(b),
{
    is_letter(b) || b == UNDERSCORE || !is_ascii(b)
}

/// A byte that may continue a bare identifier: whatever may begin one, a
/// digit, or `$`.
#[verifier::allow_in_spec]
pub fn is_ident_char(b: u8) -> bool
    returns
        is_ident_start(b) || is_digit(b) || b == DOLLAR,
{
    is_ident_start(b) || is_digit(b) || b == DOLLAR
}

/// The upper-case form of an ASCII lower-case letter; any other byte
/// unchanged.
#[verifier::allow_in_spec]
pub fn to_upper(b: u8) -> u8
    returns
        if 0x61 <= b && b <= 0x7a {
            (b - 0x20) as u8
        } else {
            b
        },
{
    if 0x61 <= b && b <= 0x7a {
        b - 0x20
    } else {
        b
    }
}

/// A set of bytes that a scanner consumes a maximal run of.
#[derive(Debug, Copy, Clone, PartialEq, Eq, Structural)]
pub enum ByteClass {
    /// Whitespace, see [`is_space`].
    Space,
    /// Decimal digits, see [`is_digit`].
    Digit,
    /// Hexadecimal digits, see [`is_hex_digit`].
    HexDigit,
    /// Identifier characters, see [`is_ident_char`].
    Ident,
    /// Every byte but the given one.
    Except(u8),
}

impl ByteClass {
    /// Whether the byte belongs to the class.
    #[verifier::allow_in_spec]
    pub fn has(self, b: u8) -> bool
        returns
            match self {
                ByteClass::Space => is_space(b),
                ByteClass::Digit => is_digit(b),
                ByteClass::HexDigit => is_hex_digit(b),
                ByteClass::Ident => is_ident_char(b),
                ByteClass::Except(x) => b != x,
            },
    {
        match self {
            ByteClass::Space => is_space(b),
            ByteClass::Digit => is_digit(b),
            ByteClass::HexDigit => is_hex_digit(b),
            ByteClass::Ident => is_ident_char(b),
            ByteClass::Except(x) => b != x,
        }
    }
}

/// The byte at index `i`, or 0 where `i` is not an index of `s`: the text is
/// read as if the terminator followed it.
pub open spec fn byte_at(s: Seq<u8>, i: int) -> u8 {
    if 0 <= i < s.len() {
        s[i]
    } else {
        TERMINATOR
    }
}

/// The length of the longest run of bytes of `class` that starts at `from`.
pub open spec fn run_len(s: Seq<u8>, from: int, class: ByteClass) -> nat
    decreases s.len() - from,
{
    if 0 <= from < s.len() && class.has(s[from]) {
        1 + run_len(s, from + 1, class)
    } else {
        0
    }
}

/// A run stays inside the text, holds only bytes of its class, and is
/// maximal: it ends at the end of the text or before a byte outside the class.
pub proof fn lemma_run_len(s: Seq<u8>, from: int, class: ByteClass)
    requires
        0 <= from <= s.len(),
    ensures
        from + run_len(s, from, class) <= s.len(),
        forall|i: int| from <= i < from + run_len(s, from, class) ==> class.has(#[trigger] s[i]),
        from + run_len(s, from, class) == s.len() || !class.has(
            s[from + run_len(s, from, class)],
        ),
    decreases s.len() - from,
{
    if from < s.len() && class.has(s[from]) {
        lemma_run_len(s, from + 1, class);
    }
}

/// The byte at `i`, or 0 past the end.
pub fn peek(z: &[u8], i: usize) -> (b: u8)
    ensures
        b == byte_at(z@, i as int),
{
    if i < z.len() {
        z[i]
    } else {
        TERMINATOR
    }
}

/// The index at which the run of `class` bytes that starts at `from` ends.
pub fn skip_run(z: &[u8], from: usize, class: ByteClass) -> (end: usize)
    requires
        from <= z.len(),
    ensures
        end == from + run_len(z@, from as int, class),
        end <= z.len(),
{
    let mut i: usize = from;
    while i < z.len() && class.has(z[i])
        invariant
            from <= i <= z.len(),
            from + run_len(z@, from as int, class) == i + run_len(z@, i as int, class),
        decreases z.len() - i,
    {
        i = i + 1;
    }
    i
}

} // verus!
