//! The closed set of token classifications and their stable numeric codes.
use vstd::prelude::*;

verus! {

/// Describes the kind of token recognized.
///
/// Many of these kinds are simply fixed words (e.g. `SELECT`) or punctuation.
///
/// Some of the more varied ones are:
///
///  - `Variable`: a placeholder for a value in a prepared statement:
///    `?` or `?7` or `@a` or `:b` or `#c`.
///  - `Space`: whitespace, but also comments.
///  - `Id`: a user-defined identifier: `my_column` or `[some table]` or
///    `"that function"` or `` `a trigger` ``.
///  - `String`: a string literal: `'abcd'` or `'planet''s moon'`.
///  - `Blob`: a hexadecimal-encoded byte sequence literal: `x'FEFF6564'`.
///
/// `Function`, `Column`, `AggFunction`, `AggColumn`, `UnaryMinus`, `UnaryPlus`
/// and `Register` are markers that the tokenizer itself never gives to a
/// token: a consumer may retarget a token to one of them once it knows more
/// of the context.
#[derive(Debug, Copy, Clone, PartialEq, Eq, Structural)]
pub enum TokenKind {
    Semicolon,
    Explain,
    Query,
    Plan,
    Begin,
    Transaction,
    Deferred,
    Immediate,
    Exclusive,
    Commit,
    End,
    Rollback,
    Savepoint,
    Release,
    To,
    Table,
    Create,
    If,
    Not,
    Exists,
    Temp,
    LeftParen,
    RightParen,
    As,
    Without,
    Comma,
    Id,
    Indexed,
    Abort,
    Action,
    After,
    Analyze,
    Asc,
    Attach,
    Before,
    By,
    Cascade,
    Cast,
    ColumnKw,
    Conflict,
    Database,
    Desc,
    Detach,
    Each,
    Fail,
    For,
    Ignore,
    Initially,
    Instead,
    Like,
    Match,
    No,
    Key,
    Of,
    Offset,
    Pragma,
    Raise,
    Recursive,
    Replace,
    Restrict,
    Row,
    Trigger,
    Vacuum,
    View,
    Virtual,
    With,
    Reindex,
    Rename,
    CurrentTime,
    Any,
    Or,
    And,
    Is,
    Between,
    In,
    IsNull,
    NotNull,
    NotEqual,
    Equal,
    Greater,
    LessOrEqual,
    Less,
    GreaterOrEqual,
    Escape,
    BitAnd,
    BitOr,
    LeftShift,
    RightShift,
    Plus,
    Minus,
    Star,
    Slash,
    Remainder,
    Concat,
    Collate,
    BitNot,
    String,
    JoinKw,
    Constraint,
    Default,
    Null,
    Primary,
    Unique,
    Check,
    References,
    AutoIncrement,
    On,
    Insert,
    Delete,
    Update,
    SetKw,
    Deferrable,
    Foreign,
    Drop,
    Union,
    All,
    Except,
    Intersect,
    Select,
    Values,
    Distinct,
    Dot,
    From,
    Join,
    Using,
    Order,
    Group,
    Having,
    Limit,
    Where,
    Into,
    Integer,
    Float,
    Blob,
    Variable,
    Case,
    When,
    Then,
    Else,
    Index,
    Alter,
    Add,
    ToText,
    ToBlob,
    ToNumeric,
    ToInt,
    ToReal,
    IsNot,
    EndOfFile,
    Illegal,
    Space,
    UnclosedString,
    Function,
    Column,
    AggFunction,
    AggColumn,
    UnaryMinus,
    UnaryPlus,
    Register,
}

/// The largest numeric code that stands for a kind.
pub const MAX_CODE: libc::c_int = 159;

impl TokenKind {
    /// The numeric code of a kind. Codes are stable: they count the kinds
    /// from 1 in the order of their declaration.
    pub open spec fn code(self) -> int {
        match self {
            TokenKind::Semicolon => 1,
            TokenKind::Explain => 2,
            TokenKind::Query => 3,
            TokenKind::Plan => 4,
            TokenKind::Begin => 5,
            TokenKind::Transaction => 6,
            TokenKind::Deferred => 7,
            TokenKind::Immediate => 8,
            TokenKind::Exclusive => 9,
            TokenKind::Commit => 10,
            TokenKind::End => 11,
            TokenKind::Rollback => 12,
            TokenKind::Savepoint => 13,
            TokenKind::Release => 14,
            TokenKind::To => 15,
            TokenKind::Table => 16,
            TokenKind::Create => 17,
            TokenKind::If => 18,
            TokenKind::Not => 19,
            TokenKind::Exists => 20,
            TokenKind::Temp => 21,
            TokenKind::LeftParen => 22,
            TokenKind::RightParen => 23,
            TokenKind::As => 24,
            TokenKind::Without => 25,
            TokenKind::Comma => 26,
            TokenKind::Id => 27,
            TokenKind::Indexed => 28,
            TokenKind::Abort => 29,
            TokenKind::Action => 30,
            TokenKind::After => 31,
            TokenKind::Analyze => 32,
            TokenKind::Asc => 33,
            TokenKind::Attach => 34,
            TokenKind::Before => 35,
            TokenKind::By => 36,
            TokenKind::Cascade => 37,
            TokenKind::Cast => 38,
            TokenKind::ColumnKw => 39,
            TokenKind::Conflict => 40,
            TokenKind::Database => 41,
            TokenKind::Desc => 42,
            TokenKind::Detach => 43,
            TokenKind::Each => 44,
            TokenKind::Fail => 45,
            TokenKind::For => 46,
            TokenKind::Ignore => 47,
            TokenKind::Initially => 48,
            TokenKind::Instead => 49,
            TokenKind::Like => 50,
            TokenKind::Match => 51,
            TokenKind::No => 52,
            TokenKind::Key => 53,
            TokenKind::Of => 54,
            TokenKind::Offset => 55,
            TokenKind::Pragma => 56,
            TokenKind::Raise => 57,
            TokenKind::Recursive => 58,
            TokenKind::Replace => 59,
            TokenKind::Restrict => 60,
            TokenKind::Row => 61,
            TokenKind::Trigger => 62,
            TokenKind::Vacuum => 63,
            TokenKind::View => 64,
            TokenKind::Virtual => 65,
            TokenKind::With => 66,
            TokenKind::Reindex => 67,
            TokenKind::Rename => 68,
            TokenKind::CurrentTime => 69,
            TokenKind::Any => 70,
            TokenKind::Or => 71,
            TokenKind::And => 72,
            TokenKind::Is => 73,
            TokenKind::Between => 74,
            TokenKind::In => 75,
            TokenKind::IsNull => 76,
            TokenKind::NotNull => 77,
            TokenKind::NotEqual => 78,
            TokenKind::Equal => 79,
            TokenKind::Greater => 80,
            TokenKind::LessOrEqual => 81,
            TokenKind::Less => 82,
            TokenKind::GreaterOrEqual => 83,
            TokenKind::Escape => 84,
            TokenKind::BitAnd => 85,
            TokenKind::BitOr => 86,
            TokenKind::LeftShift => 87,
            TokenKind::RightShift => 88,
            TokenKind::Plus => 89,
            TokenKind::Minus => 90,
            TokenKind::Star => 91,
            TokenKind::Slash => 92,
            TokenKind::Remainder => 93,
            TokenKind::Concat => 94,
            TokenKind::Collate => 95,
            TokenKind::BitNot => 96,
            TokenKind::String => 97,
            TokenKind::JoinKw => 98,
            TokenKind::Constraint => 99,
            TokenKind::Default => 100,
            TokenKind::Null => 101,
            TokenKind::Primary => 102,
            TokenKind::Unique => 103,
            TokenKind::Check => 104,
            TokenKind::References => 105,
            TokenKind::AutoIncrement => 106,
            TokenKind::On => 107,
            TokenKind::Insert => 108,
            TokenKind::Delete => 109,
            TokenKind::Update => 110,
            TokenKind::SetKw => 111,
            TokenKind::Deferrable => 112,
            TokenKind::Foreign => 113,
            TokenKind::Drop => 114,
            TokenKind::Union => 115,
            TokenKind::All => 116,
            TokenKind::Except => 117,
            TokenKind::Intersect => 118,
            TokenKind::Select => 119,
            TokenKind::Values => 120,
            TokenKind::Distinct => 121,
            TokenKind::Dot => 122,
            TokenKind::From => 123,
            TokenKind::Join => 124,
            TokenKind::Using => 125,
            TokenKind::Order => 126,
            TokenKind::Group => 127,
            TokenKind::Having => 128,
            TokenKind::Limit => 129,
            TokenKind::Where => 130,
            TokenKind::Into => 131,
            TokenKind::Integer => 132,
            TokenKind::Float => 133,
            TokenKind::Blob => 134,
            TokenKind::Variable => 135,
            TokenKind::Case => 136,
            TokenKind::When => 137,
            TokenKind::Then => 138,
            TokenKind::Else => 139,
            TokenKind::Index => 140,
            TokenKind::Alter => 141,
            TokenKind::Add => 142,
            TokenKind::ToText => 143,
            TokenKind::ToBlob => 144,
            TokenKind::ToNumeric => 145,
            TokenKind::ToInt => 146,
            TokenKind::ToReal => 147,
            TokenKind::IsNot => 148,
            TokenKind::EndOfFile => 149,
            TokenKind::Illegal => 150,
            TokenKind::Space => 151,
            TokenKind::UnclosedString => 152,
            TokenKind::Function => 153,
            TokenKind::Column => 154,
            TokenKind::AggFunction => 155,
            TokenKind::AggColumn => 156,
            TokenKind::UnaryMinus => 157,
            TokenKind::UnaryPlus => 158,
            TokenKind::Register => 159,
        }
    }

    /// Whether the kind is one of the markers that the tokenizer itself never
    /// gives to a token: a consumer may give one to a token once it knows the
    /// token's context.
    pub open spec fn is_marker(self) -> bool {
        self == TokenKind::Function || self == TokenKind::Column || self
            == TokenKind::AggFunction || self == TokenKind::AggColumn || self
            == TokenKind::UnaryMinus || self == TokenKind::UnaryPlus || self
            == TokenKind::Register
    }

    /// The kind that a numeric code stands for, if it stands for one.
    pub fn from_int(x: libc::c_int) -> (kind: Option<TokenKind>)
        ensures
            1 <= x <= MAX_CODE ==> kind is Some && kind->0.code() == x,
            !(1 <= x <= MAX_CODE) ==> kind is None,
    {
        match x {
            1 => Some(TokenKind::Semicolon),
            2 => Some(TokenKind::Explain),
            3 => Some(TokenKind::Query),
            4 => Some(TokenKind::Plan),
            5 => Some(TokenKind::Begin),
            6 => Some(TokenKind::Transaction),
            7 => Some(TokenKind::Deferred),
            8 => Some(TokenKind::Immediate),
            9 => Some(TokenKind::Exclusive),
            10 => Some(TokenKind::Commit),
            11 => Some(TokenKind::End),
            12 => Some(TokenKind::Rollback),
            13 => Some(TokenKind::Savepoint),
            14 => Some(TokenKind::Release),
            15 => Some(TokenKind::To),
            16 => Some(TokenKind::Table),
            17 => Some(TokenKind::Create),
            18 => Some(TokenKind::If),
            19 => Some(TokenKind::Not),
            20 => Some(TokenKind::Exists),
            21 => Some(TokenKind::Temp),
            22 => Some(TokenKind::LeftParen),
            23 => Some(TokenKind::RightParen),
            24 => Some(TokenKind::As),
            25 => Some(TokenKind::Without),
            26 => Some(TokenKind::Comma),
            27 => Some(TokenKind::Id),
            28 => Some(TokenKind::Indexed),
            29 => Some(TokenKind::Abort),
            30 => Some(TokenKind::Action),
            31 => Some(TokenKind::After),
            32 => Some(TokenKind::Analyze),
            33 => Some(TokenKind::Asc),
            34 => Some(TokenKind::Attach),
            35 => Some(TokenKind::Before),
            36 => Some(TokenKind::By),
            37 => Some(TokenKind::Cascade),
            38 => Some(TokenKind::Cast),
            39 => Some(TokenKind::ColumnKw),
            40 => Some(TokenKind::Conflict),
            41 => Some(TokenKind::Database),
            42 => Some(TokenKind::Desc),
            43 => Some(TokenKind::Detach),
            44 => Some(TokenKind::Each),
            45 => Some(TokenKind::Fail),
            46 => Some(TokenKind::For),
            47 => Some(TokenKind::Ignore),
            48 => Some(TokenKind::Initially),
            49 => Some(TokenKind::Instead),
            50 => Some(TokenKind::Like),
            51 => Some(TokenKind::Match),
            52 => Some(TokenKind::No),
            53 => Some(TokenKind::Key),
            54 => Some(TokenKind::Of),
            55 => Some(TokenKind::Offset),
            56 => Some(TokenKind::Pragma),
            57 => Some(TokenKind::Raise),
            58 => Some(TokenKind::Recursive),
            59 => Some(TokenKind::Replace),
            60 => Some(TokenKind::Restrict),
            61 => Some(TokenKind::Row),
            62 => Some(TokenKind::Trigger),
            63 => Some(TokenKind::Vacuum),
            64 => Some(TokenKind::View),
            65 => Some(TokenKind::Virtual),
            66 => Some(TokenKind::With),
            67 => Some(TokenKind::Reindex),
            68 => Some(TokenKind::Rename),
            69 => Some(TokenKind::CurrentTime),
            70 => Some(TokenKind::Any),
            71 => Some(TokenKind::Or),
            72 => Some(TokenKind::And),
            73 => Some(TokenKind::Is),
            74 => Some(TokenKind::Between),
            75 => Some(TokenKind::In),
            76 => Some(TokenKind::IsNull),
            77 => Some(TokenKind::NotNull),
            78 => Some(TokenKind::NotEqual),
            79 => Some(TokenKind::Equal),
            80 => Some(TokenKind::Greater),
            81 => Some(TokenKind::LessOrEqual),
            82 => Some(TokenKind::Less),
            83 => Some(TokenKind::GreaterOrEqual),
            84 => Some(TokenKind::Escape),
            85 => Some(TokenKind::BitAnd),
            86 => Some(TokenKind::BitOr),
            87 => Some(TokenKind::LeftShift),
            88 => Some(TokenKind::RightShift),
            89 => Some(TokenKind::Plus),
            90 => Some(TokenKind::Minus),
            91 => Some(TokenKind::Star),
            92 => Some(TokenKind::Slash),
            93 => Some(TokenKind::Remainder),
            94 => Some(TokenKind::Concat),
            95 => Some(TokenKind::Collate),
            96 => Some(TokenKind::BitNot),
            97 => Some(TokenKind::String),
            98 => Some(TokenKind::JoinKw),
            99 => Some(TokenKind::Constraint),
            100 => Some(TokenKind::Default),
            101 => Some(TokenKind::Null),
            102 => Some(TokenKind::Primary),
            103 => Some(TokenKind::Unique),
            104 => Some(TokenKind::Check),
            105 => Some(TokenKind::References),
            106 => Some(TokenKind::AutoIncrement),
            107 => Some(TokenKind::On),
            108 => Some(TokenKind::Insert),
            109 => Some(TokenKind::Delete),
            110 => Some(TokenKind::Update),
            111 => Some(TokenKind::SetKw),
            112 => Some(TokenKind::Deferrable),
            113 => Some(TokenKind::Foreign),
            114 => Some(TokenKind::Drop),
            115 => Some(TokenKind::Union),
            116 => Some(TokenKind::All),
            117 => Some(TokenKind::Except),
            118 => Some(TokenKind::Intersect),
            119 => Some(TokenKind::Select),
            120 => Some(TokenKind::Values),
            121 => Some(TokenKind::Distinct),
            122 => Some(TokenKind::Dot),
            123 => Some(TokenKind::From),
            124 => Some(TokenKind::Join),
            125 => Some(TokenKind::Using),
            126 => Some(TokenKind::Order),
            127 => Some(TokenKind::Group),
            128 => Some(TokenKind::Having),
            129 => Some(TokenKind::Limit),
            130 => Some(TokenKind::Where),
            131 => Some(TokenKind::Into),
            132 => Some(TokenKind::Integer),
            133 => Some(TokenKind::Float),
            134 => Some(TokenKind::Blob),
            135 => Some(TokenKind::Variable),
            136 => Some(TokenKind::Case),
            137 => Some(TokenKind::When),
            138 => Some(TokenKind::Then),
            139 => Some(TokenKind::Else),
            140 => Some(TokenKind::Index),
            141 => Some(TokenKind::Alter),
            142 => Some(TokenKind::Add),
            143 => Some(TokenKind::ToText),
            144 => Some(TokenKind::ToBlob),
            145 => Some(TokenKind::ToNumeric),
            146 => Some(TokenKind::ToInt),
            147 => Some(TokenKind::ToReal),
            148 => Some(TokenKind::IsNot),
            149 => Some(TokenKind::EndOfFile),
            150 => Some(TokenKind::Illegal),
            151 => Some(TokenKind::Space),
            152 => Some(TokenKind::UnclosedString),
            153 => Some(TokenKind::Function),
            154 => Some(TokenKind::Column),
            155 => Some(TokenKind::AggFunction),
            156 => Some(TokenKind::AggColumn),
            157 => Some(TokenKind::UnaryMinus),
            158 => Some(TokenKind::UnaryPlus),
            159 => Some(TokenKind::Register),
            _ => None,
        }
    }

    /// The kind that a numeric code stands for, where every code stands for
    /// a kind: a code that is not the code of a kind stands for `Illegal`.
    pub fn from_code(x: libc::c_int) -> (kind: TokenKind)
        ensures
            1 <= x <= MAX_CODE ==> kind.code() == x,
            !(1 <= x <= MAX_CODE) ==> kind == TokenKind::Illegal,
    {
        match TokenKind::from_int(x) {
            Some(kind) => kind,
            None => TokenKind::Illegal,
        }
    }
}

/// Every kind has a code, from 1 up to the largest, and no two kinds share
/// one: a code stands for at most one kind.
pub proof fn lemma_codes_are_distinct(a: TokenKind, b: TokenKind)
    ensures
        1 <= a.code() <= MAX_CODE,
        a.code() == b.code() ==> a == b,
{
}

} // verus!
