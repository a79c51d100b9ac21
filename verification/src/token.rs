//! The token vocabulary: a closed sum type over every lexical unit, a
//! coarse "same kind" comparison that ignores payloads, and the narrow
//! classification predicates the parser uses as branch guards.

use vstd::prelude::*;

verus! {

/// Opaque diagnostic payload carried by the error-recovery token.
///
/// The token model never interprets, formats, or validates this value; it
/// only owns it exclusively so the diagnostics subsystem can extract it
/// later. Its content is therefore a single free-form message.
#[derive(Debug, Clone)]
pub struct SyntaxDiagnostic {
    pub message: String,
}

/// One lexical unit. A given source lexeme maps to exactly one variant;
/// variants never overlap in meaning. A token is constructed once by the
/// scanner, is immutable afterwards, and may be duplicated by `clone`
/// (deep-copying any owned text or diagnostic).
#[derive(Debug, Clone)]
pub enum Token {
    LPar,        // (
    RPar,        // )
    LBracket,    // [
    RBracket,    // ]
    LBrace,      // {
    RBrace,      // }
    Eq,          // =
    Colon,       // :
    Semi,        // ;
    FatArrow,    // =>
    Dollar,      // $
    Comma,       // ,
    RightArrow,  // ->
    DotDot,      // ..
    Dot,         // .
    Tilde,       // ~
    ColonColon,  // ::
    /// Introspection/help marker owning its query text.
    Help(String),
    /// Lower-case identifier.
    LowerId(String),
    /// Upper-case identifier: a main name and an optional auxiliary name.
    /// Absence of the auxiliary name is a distinct, valid state.
    UpperId(String, Option<String>),
    // Strong keywords, kept as distinct variants rather than generic
    // identifiers so the parser can special-case them before the generic
    // identifier rules.
    Return,
    Ask,
    With,
    // Literals. The two-part float stores the exact integer and fractional
    // digit runs of the source, never a parsed floating value.
    Char(char),
    Str(String),
    Num60(u64),
    Num120(u128),
    Nat(u128),
    Float(u64, u64),
    Hole,
    // Operators
    Plus,
    Minus,
    Star,
    Slash,
    Percent,
    Ampersand,
    Bar,
    Hat,
    GreaterGreater,
    LessLess,
    Less,
    LessEq,
    EqEq,
    GreaterEq,
    Greater,
    BangEq,
    Bang,
    HashHash,
    Hash,
    /// A comment: the flag says whether it is a documentation comment,
    /// followed by the raw text. Both are set at construction and never
    /// mutated.
    Comment(bool, String),
    /// End of input: terminal, emitted exactly once per source unit.
    Eof,
    /// Error-recovery token: an invalid lexeme carried as data, not control
    /// flow, owning its diagnostic behind an indirection so the rarely-used
    /// payload does not inflate the size of every token.
    Error(Box<SyntaxDiagnostic>),
}

impl Token {
    /// The variant tag alone, with every payload ignored: the mathematical
    /// model behind coarse equality.
    pub open spec fn tag(self) -> int {
        match self {
            Token::LPar => 0,
            Token::RPar => 1,
            Token::LBracket => 2,
            Token::RBracket => 3,
            Token::LBrace => 4,
            Token::RBrace => 5,
            Token::Eq => 6,
            Token::Colon => 7,
            Token::Semi => 8,
            Token::FatArrow => 9,
            Token::Dollar => 10,
            Token::Comma => 11,
            Token::RightArrow => 12,
            Token::DotDot => 13,
            Token::Dot => 14,
            Token::Tilde => 15,
            Token::ColonColon => 16,
            Token::Help(_) => 17,
            Token::LowerId(_) => 18,
            Token::UpperId(_, _) => 19,
            Token::Return => 20,
            Token::Ask => 21,
            Token::With => 22,
            Token::Char(_) => 23,
            Token::Str(_) => 24,
            Token::Num60(_) => 25,
            Token::Num120(_) => 26,
            Token::Nat(_) => 27,
            Token::Float(_, _) => 28,
            Token::Hole => 29,
            Token::Plus => 30,
            Token::Minus => 31,
            Token::Star => 32,
            Token::Slash => 33,
            Token::Percent => 34,
            Token::Ampersand => 35,
            Token::Bar => 36,
            Token::Hat => 37,
            Token::GreaterGreater => 38,
            Token::LessLess => 39,
            Token::Less => 40,
            Token::LessEq => 41,
            Token::EqEq => 42,
            Token::GreaterEq => 43,
            Token::Greater => 44,
            Token::BangEq => 45,
            Token::Bang => 46,
            Token::HashHash => 47,
            Token::Hash => 48,
            Token::Comment(_, _) => 49,
            Token::Eof => 50,
            Token::Error(_) => 51,
        }
    }
}

/// Two tokens are of the same kind when they carry the same variant tag,
/// whatever their payloads hold.
pub open spec fn same_kind(a: Token, b: Token) -> bool {
    a.tag() == b.tag()
}

impl Token {
    /// The variant tag as a machine integer, for the coarse comparison.
    fn variant_tag(&self) -> (t: u32)
        ensures
            t as int == self.tag(),
    {
        match self {
            Token::LPar => 0,
            Token::RPar => 1,
            Token::LBracket => 2,
            Token::RBracket => 3,
            Token::LBrace => 4,
            Token::RBrace => 5,
            Token::Eq => 6,
            Token::Colon => 7,
            Token::Semi => 8,
            Token::FatArrow => 9,
            Token::Dollar => 10,
            Token::Comma => 11,
            Token::RightArrow => 12,
            Token::DotDot => 13,
            Token::Dot => 14,
            Token::Tilde => 15,
            Token::ColonColon => 16,
            Token::Help(_) => 17,
            Token::LowerId(_) => 18,
            Token::UpperId(_, _) => 19,
            Token::Return => 20,
            Token::Ask => 21,
            Token::With => 22,
            Token::Char(_) => 23,
            Token::Str(_) => 24,
            Token::Num60(_) => 25,
            Token::Num120(_) => 26,
            Token::Nat(_) => 27,
            Token::Float(_, _) => 28,
            Token::Hole => 29,
            Token::Plus => 30,
            Token::Minus => 31,
            Token::Star => 32,
            Token::Slash => 33,
            Token::Percent => 34,
            Token::Ampersand => 35,
            Token::Bar => 36,
            Token::Hat => 37,
            Token::GreaterGreater => 38,
            Token::LessLess => 39,
            Token::Less => 40,
            Token::LessEq => 41,
            Token::EqEq => 42,
            Token::GreaterEq => 43,
            Token::Greater => 44,
            Token::BangEq => 45,
            Token::Bang => 46,
            Token::HashHash => 47,
            Token::Hash => 48,
            Token::Comment(_, _) => 49,
            Token::Eof => 50,
            Token::Error(_) => 51,
        }
    }

    /// Coarse equality: true exactly when both tokens are the same variant,
    /// regardless of payload value. This is the sole mechanism the parser
    /// uses to assert "the next token must be of kind X" without inspecting
    /// or consuming a payload.
    pub fn same_variant(&self, b: &Token) -> (r: bool)
        ensures
            r == same_kind(*self, *b),
    {
        self.variant_tag() == b.variant_tag()
    }

    /// True exactly on a lower-case identifier.
    pub fn is_lower_id(&self) -> (r: bool)
        ensures
            r == (*self matches Token::LowerId(_)),
    {
        matches!(self, Token::LowerId(_))
    }

    /// True exactly on a comment whose documentation flag is set; false on a
    /// plain comment and on every other variant.
    pub fn is_doc(&self) -> (r: bool)
        ensures
            r == (*self matches Token::Comment(true, _)),
    {
        matches!(self, Token::Comment(true, _))
    }

    /// True exactly on an upper-case identifier, qualified or not.
    pub fn is_upper_id(&self) -> (r: bool)
        ensures
            r == (*self matches Token::UpperId(_, _)),
    {
        matches!(self, Token::UpperId(_, _))
    }

    /// True exactly on a string literal.
    pub fn is_str(&self) -> (r: bool)
        ensures
            r == (*self matches Token::Str(_)),
    {
        matches!(self, Token::Str(_))
    }

    /// True exactly on a 60-bit numeral.
    pub fn is_num60(&self) -> (r: bool)
        ensures
            r == (*self matches Token::Num60(_)),
    {
        matches!(self, Token::Num60(_))
    }

    /// True exactly on a 128-bit numeral.
    pub fn is_num120(&self) -> (r: bool)
        ensures
            r == (*self matches Token::Num120(_)),
    {
        matches!(self, Token::Num120(_))
    }

    /// True exactly on a character literal.
    pub fn is_char(&self) -> (r: bool)
        ensures
            r == (*self matches Token::Char(_)),
    {
        matches!(self, Token::Char(_))
    }

    /// True exactly on the end-of-input marker.
    pub fn is_eof(&self) -> (r: bool)
        ensures
            r == (*self matches Token::Eof),
    {
        matches!(self, Token::Eof)
    }
}

/// Coarse equality is reflexive: every token is of its own kind.
pub proof fn lemma_same_kind_reflexive(t: Token)
    ensures
        same_kind(t, t),
{
}

/// Coarse equality is symmetric.
pub proof fn lemma_same_kind_symmetric(a: Token, b: Token)
    ensures
        same_kind(a, b) == same_kind(b, a),
{
}

/// Coarse equality is transitive.
pub proof fn lemma_same_kind_transitive(a: Token, b: Token, c: Token)
    ensures
        same_kind(a, b) && same_kind(b, c) ==> same_kind(a, c),
{
}

/// Coarse equality ignores payloads: for every payload-carrying variant, any
/// two instances of that variant are of the same kind whatever their
/// payloads hold.
pub proof fn lemma_same_kind_ignores_payload()
    ensures
        forall|s1: String, s2: String| #[trigger] same_kind(Token::Help(s1), Token::Help(s2)),
        forall|s1: String, s2: String|
            #[trigger] same_kind(Token::LowerId(s1), Token::LowerId(s2)),
        forall|m1: String, a1: Option<String>, m2: String, a2: Option<String>|
            #[trigger] same_kind(Token::UpperId(m1, a1), Token::UpperId(m2, a2)),
        forall|c1: char, c2: char| #[trigger] same_kind(Token::Char(c1), Token::Char(c2)),
        forall|s1: String, s2: String| #[trigger] same_kind(Token::Str(s1), Token::Str(s2)),
        forall|n1: u64, n2: u64| #[trigger] same_kind(Token::Num60(n1), Token::Num60(n2)),
        forall|n1: u128, n2: u128| #[trigger] same_kind(Token::Num120(n1), Token::Num120(n2)),
        forall|n1: u128, n2: u128| #[trigger] same_kind(Token::Nat(n1), Token::Nat(n2)),
        forall|a1: u64, b1: u64, a2: u64, b2: u64|
            #[trigger] same_kind(Token::Float(a1, b1), Token::Float(a2, b2)),
        forall|f1: bool, s1: String, f2: bool, s2: String|
            #[trigger] same_kind(Token::Comment(f1, s1), Token::Comment(f2, s2)),
        forall|d1: Box<SyntaxDiagnostic>, d2: Box<SyntaxDiagnostic>|
            #[trigger] same_kind(Token::Error(d1), Token::Error(d2)),
{
}

/// Coarse equality separates variants: two tokens of the same kind carry the
/// same constructor, so any two instances of differing variants compare
/// false, regardless of payload.
pub proof fn lemma_same_kind_same_constructor(a: Token, b: Token)
    requires
        same_kind(a, b),
    ensures
        a matches Token::LPar <==> b matches Token::LPar,
        a matches Token::RPar <==> b matches Token::RPar,
        a matches Token::LBracket <==> b matches Token::LBracket,
        a matches Token::RBracket <==> b matches Token::RBracket,
        a matches Token::LBrace <==> b matches Token::LBrace,
        a matches Token::RBrace <==> b matches Token::RBrace,
        a matches Token::Eq <==> b matches Token::Eq,
        a matches Token::Colon <==> b matches Token::Colon,
        a matches Token::Semi <==> b matches Token::Semi,
        a matches Token::FatArrow <==> b matches Token::FatArrow,
        a matches Token::Dollar <==> b matches Token::Dollar,
        a matches Token::Comma <==> b matches Token::Comma,
        a matches Token::RightArrow <==> b matches Token::RightArrow,
        a matches Token::DotDot <==> b matches Token::DotDot,
        a matches Token::Dot <==> b matches Token::Dot,
        a matches Token::Tilde <==> b matches Token::Tilde,
        a matches Token::ColonColon <==> b matches Token::ColonColon,
        a matches Token::Help(_) <==> b matches Token::Help(_),
        a matches Token::LowerId(_) <==> b matches Token::LowerId(_),
        a matches Token::UpperId(_, _) <==> b matches Token::UpperId(_, _),
        a matches Token::Return <==> b matches Token::Return,
        a matches Token::Ask <==> b matches Token::Ask,
        a matches Token::With <==> b matches Token::With,
        a matches Token::Char(_) <==> b matches Token::Char(_),
        a matches Token::Str(_) <==> b matches Token::Str(_),
        a matches Token::Num60(_) <==> b matches Token::Num60(_),
        a matches Token::Num120(_) <==> b matches Token::Num120(_),
        a matches Token::Nat(_) <==> b matches Token::Nat(_),
        a matches Token::Float(_, _) <==> b matches Token::Float(_, _),
        a matches Token::Hole <==> b matches Token::Hole,
        a matches Token::Plus <==> b matches Token::Plus,
        a matches Token::Minus <==> b matches Token::Minus,
        a matches Token::Star <==> b matches Token::Star,
        a matches Token::Slash <==> b matches Token::Slash,
        a matches Token::Percent <==> b matches Token::Percent,
        a matches Token::Ampersand <==> b matches Token::Ampersand,
        a matches Token::Bar <==> b matches Token::Bar,
        a matches Token::Hat <==> b matches Token::Hat,
        a matches Token::GreaterGreater <==> b matches Token::GreaterGreater,
        a matches Token::LessLess <==> b matches Token::LessLess,
        a matches Token::Less <==> b matches Token::Less,
        a matches Token::LessEq <==> b matches Token::LessEq,
        a matches Token::EqEq <==> b matches Token::EqEq,
        a matches Token::GreaterEq <==> b matches Token::GreaterEq,
        a matches Token::Greater <==> b matches Token::Greater,
        a matches Token::BangEq <==> b matches Token::BangEq,
        a matches Token::Bang <==> b matches Token::Bang,
        a matches Token::HashHash <==> b matches Token::HashHash,
        a matches Token::Hash <==> b matches Token::Hash,
        a matches Token::Comment(_, _) <==> b matches Token::Comment(_, _),
        a matches Token::Eof <==> b matches Token::Eof,
        a matches Token::Error(_) <==> b matches Token::Error(_),
{
}

} // verus!
