//! The keyword table: which spellings are reserved words, and of which kind.
use crate::chars::to_upper;
use crate::kind::TokenKind;
use vstd::prelude::*;
use vstd::string::StringSliceAdditionalSpecFns;

verus! {

/// The number of reserved spellings.
pub const KEYWORD_COUNT: usize = 124;

/// Every reserved spelling, in upper case, with the kind of token it makes.
pub const KEYWORDS: [(&'static str, TokenKind); 124] = [
    ("ABORT", TokenKind::Abort),
    ("ACTION", TokenKind::Action),
    ("ADD", TokenKind::Add),
    ("AFTER", TokenKind::After),
    ("ALL", TokenKind::All),
    ("ALTER", TokenKind::Alter),
    ("ANALYZE", TokenKind::Analyze),
    ("AND", TokenKind::And),
    ("AS", TokenKind::As),
    ("ASC", TokenKind::Asc),
    ("ATTACH", TokenKind::Attach),
    ("AUTOINCREMENT", TokenKind::AutoIncrement),
    ("BEFORE", TokenKind::Before),
    ("BEGIN", TokenKind::Begin),
    ("BETWEEN", TokenKind::Between),
    ("BY", TokenKind::By),
    ("CASCADE", TokenKind::Cascade),
    ("CASE", TokenKind::Case),
    ("CAST", TokenKind::Cast),
    ("CHECK", TokenKind::Check),
    ("COLLATE", TokenKind::Collate),
    ("COLUMN", TokenKind::ColumnKw),
    ("COMMIT", TokenKind::Commit),
    ("CONFLICT", TokenKind::Conflict),
    ("CONSTRAINT", TokenKind::Constraint),
    ("CREATE", TokenKind::Create),
    ("CROSS", TokenKind::JoinKw),
    ("CURRENT_DATE", TokenKind::CurrentTime),
    ("CURRENT_TIME", TokenKind::CurrentTime),
    ("CURRENT_TIMESTAMP", TokenKind::CurrentTime),
    ("DATABASE", TokenKind::Database),
    ("DEFAULT", TokenKind::Default),
    ("DEFERRABLE", TokenKind::Deferrable),
    ("DEFERRED", TokenKind::Deferred),
    ("DELETE", TokenKind::Delete),
    ("DESC", TokenKind::Desc),
    ("DETACH", TokenKind::Detach),
    ("DISTINCT", TokenKind::Distinct),
    ("DROP", TokenKind::Drop),
    ("EACH", TokenKind::Each),
    ("ELSE", TokenKind::Else),
    ("END", TokenKind::End),
    ("ESCAPE", TokenKind::Escape),
    ("EXCEPT", TokenKind::Except),
    ("EXCLUSIVE", TokenKind::Exclusive),
    ("EXISTS", TokenKind::Exists),
    ("EXPLAIN", TokenKind::Explain),
    ("FAIL", TokenKind::Fail),
    ("FOR", TokenKind::For),
    ("FOREIGN", TokenKind::Foreign),
    ("FROM", TokenKind::From),
    ("FULL", TokenKind::JoinKw),
    ("GLOB", TokenKind::Like),
    ("GROUP", TokenKind::Group),
    ("HAVING", TokenKind::Having),
    ("IF", TokenKind::If),
    ("IGNORE", TokenKind::Ignore),
    ("IMMEDIATE", TokenKind::Immediate),
    ("IN", TokenKind::In),
    ("INDEX", TokenKind::Index),
    ("INDEXED", TokenKind::Indexed),
    ("INITIALLY", TokenKind::Initially),
    ("INNER", TokenKind::JoinKw),
    ("INSERT", TokenKind::Insert),
    ("INSTEAD", TokenKind::Instead),
    ("INTERSECT", TokenKind::Intersect),
    ("INTO", TokenKind::Into),
    ("IS", TokenKind::Is),
    ("ISNULL", TokenKind::IsNull),
    ("JOIN", TokenKind::Join),
    ("KEY", TokenKind::Key),
    ("LEFT", TokenKind::JoinKw),
    ("LIKE", TokenKind::Like),
    ("LIMIT", TokenKind::Limit),
    ("MATCH", TokenKind::Match),
    ("NATURAL", TokenKind::JoinKw),
    ("NO", TokenKind::No),
    ("NOT", TokenKind::Not),
    ("NOTNULL", TokenKind::NotNull),
    ("NULL", TokenKind::Null),
    ("OF", TokenKind::Of),
    ("OFFSET", TokenKind::Offset),
    ("ON", TokenKind::On),
    ("OR", TokenKind::Or),
    ("ORDER", TokenKind::Order),
    ("OUTER", TokenKind::JoinKw),
    ("PLAN", TokenKind::Plan),
    ("PRAGMA", TokenKind::Pragma),
    ("PRIMARY", TokenKind::Primary),
    ("QUERY", TokenKind::Query),
    ("RAISE", TokenKind::Raise),
    ("RECURSIVE", TokenKind::Recursive),
    ("REFERENCES", TokenKind::References),
    ("REGEXP", TokenKind::Like),
    ("REINDEX", TokenKind::Reindex),
    ("RELEASE", TokenKind::Release),
    ("RENAME", TokenKind::Rename),
    ("REPLACE", TokenKind::Replace),
    ("RESTRICT", TokenKind::Restrict),
    ("RIGHT", TokenKind::JoinKw),
    ("ROLLBACK", TokenKind::Rollback),
    ("ROW", TokenKind::Row),
    ("SAVEPOINT", TokenKind::Savepoint),
    ("SELECT", TokenKind::Select),
    ("SET", TokenKind::SetKw),
    ("TABLE", TokenKind::Table),
    ("TEMP", TokenKind::Temp),
    ("TEMPORARY", TokenKind::Temp),
    ("THEN", TokenKind::Then),
    ("TO", TokenKind::To),
    ("TRANSACTION", TokenKind::Transaction),
    ("TRIGGER", TokenKind::Trigger),
    ("UNION", TokenKind::Union),
    ("UNIQUE", TokenKind::Unique),
    ("UPDATE", TokenKind::Update),
    ("USING", TokenKind::Using),
    ("VACUUM", TokenKind::Vacuum),
    ("VALUES", TokenKind::Values),
    ("VIEW", TokenKind::View),
    ("VIRTUAL", TokenKind::Virtual),
    ("WHEN", TokenKind::When),
    ("WHERE", TokenKind::Where),
    ("WITH", TokenKind::With),
    ("WITHOUT", TokenKind::Without),
];

/// `word` with its ASCII lower-case letters replaced by upper-case ones.
pub open spec fn upper_case(word: Seq<u8>) -> Seq<u8> {
    Seq::new(word.len(), |i: int| to_upper(word[i]))
}

/// Whether `word` is `spelling`, the case of ASCII letters ignored. The
/// spelling is held in upper case.
pub open spec fn spells(word: Seq<u8>, spelling: &str) -> bool {
    upper_case(word) == spelling.spec_bytes()
}

/// The kind of the first entry of the table, at or after `from`, that `word`
/// spells.
pub open spec fn keyword_from(word: Seq<u8>, from: int) -> Option<TokenKind>
    decreases KEYWORDS@.len() - from,
{
    if 0 <= from < KEYWORDS@.len() {
        if spells(word, KEYWORDS@[from].0) {
            Some(KEYWORDS@[from].1)
        } else {
            keyword_from(word, from + 1)
        }
    } else {
        None
    }
}

/// The kind of the reserved word that `word` spells, if it spells one.
pub open spec fn keyword_kind(word: Seq<u8>) -> Option<TokenKind> {
    keyword_from(word, 0)
}

/// The kind of a bare word: that of the keyword it spells, else `Id`.
pub open spec fn word_kind(word: Seq<u8>) -> TokenKind {
    match keyword_kind(word) {
        Some(kind) => kind,
        None => TokenKind::Id,
    }
}

/// Compares `z[start..end]` with a spelling of the table.
pub fn matches_spelling(z: &[u8], start: usize, end: usize, spelling: &str) -> (same: bool)
    requires
        start <= end <= z.len(),
    ensures
        same == spells(z@.subrange(start as int, end as int), spelling),
{
    let letters = spelling.as_bytes();
    let n = end - start;
    let ghost word = z@.subrange(start as int, end as int);
    if letters.len() != n {
        assert(upper_case(word).len() != letters@.len());
        return false;
    }
    let mut i: usize = 0;
    while i < n
        invariant
            start + n == end,
            end <= z.len(),
            i <= n,
            letters@ == spelling.spec_bytes(),
            letters@.len() == n,
            word == z@.subrange(start as int, end as int),
            forall|j: int| 0 <= j < i ==> to_upper(word[j]) == letters@[j],
        decreases n - i,
    {
        if to_upper(z[start + i]) != letters[i] {
            assert(upper_case(word)[i as int] != letters@[i as int]);
            return false;
        }
        i = i + 1;
    }
    assert(upper_case(word) =~= letters@);
    true
}

/// Looks `z[start..end]` up in the keyword table.
pub fn keyword_lookup(z: &[u8], start: usize, end: usize) -> (kind: Option<TokenKind>)
    requires
        start <= end <= z.len(),
    ensures
        kind == keyword_kind(z@.subrange(start as int, end as int)),
{
    let ghost word = z@.subrange(start as int, end as int);
    let mut i: usize = 0;
    while i < KEYWORD_COUNT
        invariant
            start <= end <= z.len(),
            i <= KEYWORD_COUNT,
            KEYWORDS@.len() == KEYWORD_COUNT,
            word == z@.subrange(start as int, end as int),
            keyword_kind(word) == keyword_from(word, i as int),
        decreases KEYWORD_COUNT - i,
    {
        let entry = KEYWORDS[i];
        if matches_spelling(z, start, end, entry.0) {
            return Some(entry.1);
        }
        i = i + 1;
    }
    None
}

/// Keywords are found whatever the case of their ASCII letters: two words
/// that differ in the case of ASCII letters only are of the same kind.
pub proof fn lemma_keywords_ignore_case(a: Seq<u8>, b: Seq<u8>)
    requires
        upper_case(a) == upper_case(b),
    ensures
        keyword_kind(a) == keyword_kind(b),
        word_kind(a) == word_kind(b),
{
    lemma_keywords_ignore_case_from(a, b, 0);
}

proof fn lemma_keywords_ignore_case_from(a: Seq<u8>, b: Seq<u8>, from: int)
    requires
        upper_case(a) == upper_case(b),
        0 <= from,
    ensures
        keyword_from(a, from) == keyword_from(b, from),
    decreases KEYWORDS@.len() - from,
{
    if from < KEYWORDS@.len() {
        lemma_keywords_ignore_case_from(a, b, from + 1);
    }
}

/// No word is of a kind that is kept for consumers: no keyword of the table
/// is of such a kind.
pub proof fn lemma_words_are_no_markers(word: Seq<u8>)
    ensures
        !word_kind(word).is_marker(),
{
    lemma_keywords_are_no_markers_from(word, 0);
}

proof fn lemma_keywords_are_no_markers_from(word: Seq<u8>, from: int)
    requires
        0 <= from,
    ensures
        keyword_from(word, from) is Some ==> !keyword_from(word, from)->0.is_marker(),
    decreases KEYWORDS@.len() - from,
{
    assert(forall|i: int| 0 <= i < KEYWORDS@.len() ==> !(#[trigger] KEYWORDS@[i]).1.is_marker());
    if from < KEYWORDS@.len() {
        lemma_keywords_are_no_markers_from(word, from + 1);
    }
}

} // verus!
