//! Canonical rendering: the deterministic, human-readable text of every
//! token, used uniformly in diagnostics and error messages. Rendering is
//! total, reproduces the source spelling of every punctuation, delimiter and
//! operator token, and keeps the three numeral kinds textually apart by
//! their suffixes.

use vstd::prelude::*;
use vstd::string::StringExecFns;

use crate::token::SyntaxDiagnostic;
use crate::token::Token;

verus! {

/// The character of one decimal digit.
pub open spec fn spec_digit_char(d: nat) -> char {
    if d == 0 {
        '0'
    } else if d == 1 {
        '1'
    } else if d == 2 {
        '2'
    } else if d == 3 {
        '3'
    } else if d == 4 {
        '4'
    } else if d == 5 {
        '5'
    } else if d == 6 {
        '6'
    } else if d == 7 {
        '7'
    } else if d == 8 {
        '8'
    } else {
        '9'
    }
}

/// The decimal digit run of a number, most significant digit first, with no
/// leading zero except for the number zero itself.
pub open spec fn spec_digits(n: nat) -> Seq<char>
    decreases n,
{
    if n < 10 {
        seq![spec_digit_char(n)]
    } else {
        spec_digits(n / 10) + seq![spec_digit_char(n % 10)]
    }
}

/// The canonical text of a token. Punctuation, delimiters, operators and
/// keywords render as their source spelling; numerals carry the suffix that
/// tells their kind apart; the two-part float joins its exact digit runs
/// with a dot, never a recombined value; the error-recovery token renders as
/// a fixed placeholder whatever diagnostic it wraps.
pub open spec fn spec_render(t: Token) -> Seq<char> {
    match t {
        Token::LPar => "("@,
        Token::RPar => ")"@,
        Token::LBracket => "["@,
        Token::RBracket => "]"@,
        Token::LBrace => "{"@,
        Token::RBrace => "}"@,
        Token::Eq => "="@,
        Token::Colon => ":"@,
        Token::Semi => ";"@,
        Token::FatArrow => "=>"@,
        Token::Dollar => "$"@,
        Token::Comma => ","@,
        Token::RightArrow => "->"@,
        Token::DotDot => ".."@,
        Token::Dot => "."@,
        Token::Tilde => "~"@,
        Token::ColonColon => "::"@,
        Token::Help(text) => "?"@ + text@,
        Token::LowerId(id) => id@,
        Token::UpperId(main, Some(aux)) => main@ + "/"@ + aux@,
        Token::UpperId(main, None) => main@,
        Token::Return => "return"@,
        Token::Ask => "ask"@,
        Token::With => "with"@,
        Token::Char(c) => "'"@ + seq![c] + "'"@,
        Token::Str(s) => "\""@ + s@ + "\""@,
        Token::Num60(n) => spec_digits(n as nat),
        Token::Num120(n) => spec_digits(n as nat) + "u120"@,
        Token::Nat(n) => spec_digits(n as nat) + "n"@,
        Token::Float(start, end) => spec_digits(start as nat) + "."@ + spec_digits(end as nat),
        Token::Hole => "_"@,
        Token::Plus => "+"@,
        Token::Minus => "-"@,
        Token::Star => "*"@,
        Token::Slash => "/"@,
        Token::Percent => "%"@,
        Token::Ampersand => "&"@,
        Token::Bar => "|"@,
        Token::Hat => "^"@,
        Token::GreaterGreater => ">>"@,
        Token::LessLess => "<<"@,
        Token::Less => "<"@,
        Token::LessEq => "<="@,
        Token::EqEq => "=="@,
        Token::GreaterEq => ">="@,
        Token::Greater => ">"@,
        Token::BangEq => "!="@,
        Token::Bang => "!"@,
        Token::HashHash => "##"@,
        Token::Hash => "#"@,
        Token::Comment(true, text) => "docstring '"@ + text@ + "'"@,
        Token::Comment(false, text) => "comment '"@ + text@ + "'"@,
        Token::Eof => "End of file"@,
        Token::Error(_) => "ERROR"@,
    }
}

/// Whether a character is one of the ten decimal digits.
pub open spec fn is_dec_digit(c: char) -> bool {
    c == '0' || c == '1' || c == '2' || c == '3' || c == '4' || c == '5' || c == '6' || c == '7'
        || c == '8' || c == '9'
}

/// A decimal digit run is never empty.
pub proof fn lemma_digits_nonempty(n: nat)
    ensures
        spec_digits(n).len() >= 1,
    decreases n,
{
    if n >= 10 {
        lemma_digits_nonempty(n / 10);
    }
}

/// A decimal digit run holds decimal digits and nothing else.
pub proof fn lemma_digits_all_digits(n: nat)
    ensures
        forall|i: int|
            0 <= i < spec_digits(n).len() ==> is_dec_digit(#[trigger] spec_digits(n)[i]),
    decreases n,
{
    if n >= 10 {
        lemma_digits_all_digits(n / 10);
        assert forall|i: int| 0 <= i < spec_digits(n).len() implies is_dec_digit(
            spec_digits(n)[i],
        ) by {
            if i < spec_digits(n / 10).len() {
                assert(spec_digits(n)[i] == spec_digits(n / 10)[i]);
            } else {
                assert(spec_digits(n)[i] == spec_digit_char(n % 10));
            }
        }
    }
}

/// Rendering never yields the empty string, provided the identifier payloads
/// are themselves non-empty (the scanner never produces an empty lexeme for
/// an identifier; every other variant is non-empty outright).
pub proof fn lemma_render_nonempty(t: Token)
    requires
        t matches Token::LowerId(id) ==> id@.len() > 0,
        t matches Token::UpperId(main, _) ==> main@.len() > 0,
    ensures
        spec_render(t).len() > 0,
{
    reveal_strlit("(");
    reveal_strlit(")");
    reveal_strlit("[");
    reveal_strlit("]");
    reveal_strlit("{");
    reveal_strlit("}");
    reveal_strlit("=");
    reveal_strlit(":");
    reveal_strlit(";");
    reveal_strlit("=>");
    reveal_strlit("$");
    reveal_strlit(",");
    reveal_strlit("->");
    reveal_strlit("..");
    reveal_strlit(".");
    reveal_strlit("~");
    reveal_strlit("::");
    reveal_strlit("?");
    reveal_strlit("/");
    reveal_strlit("return");
    reveal_strlit("ask");
    reveal_strlit("with");
    reveal_strlit("'");
    reveal_strlit("\"");
    reveal_strlit("u120");
    reveal_strlit("n");
    reveal_strlit("_");
    reveal_strlit("+");
    reveal_strlit("-");
    reveal_strlit("*");
    reveal_strlit("%");
    reveal_strlit("&");
    reveal_strlit("|");
    reveal_strlit("^");
    reveal_strlit(">>");
    reveal_strlit("<<");
    reveal_strlit("<");
    reveal_strlit("<=");
    reveal_strlit("==");
    reveal_strlit(">=");
    reveal_strlit(">");
    reveal_strlit("!=");
    reveal_strlit("!");
    reveal_strlit("##");
    reveal_strlit("#");
    reveal_strlit("docstring '");
    reveal_strlit("comment '");
    reveal_strlit("End of file");
    reveal_strlit("ERROR");
    match t {
        Token::Num60(n) => lemma_digits_nonempty(n as nat),
        Token::Num120(n) => lemma_digits_nonempty(n as nat),
        Token::Nat(n) => lemma_digits_nonempty(n as nat),
        Token::Float(start, end) => {
            lemma_digits_nonempty(start as nat);
            lemma_digits_nonempty(end as nat);
        },
        _ => {},
    }
}

/// The error-recovery token always renders as the fixed placeholder,
/// whatever diagnostic it wraps.
pub proof fn lemma_error_renders_placeholder(d: Box<SyntaxDiagnostic>)
    ensures
        spec_render(Token::Error(d)) == "ERROR"@,
{
}

/// The three numeral kinds stay textually apart: no 60-bit numeral, 128-bit
/// numeral and arbitrary-precision natural ever share a rendering, whatever
/// their values.
pub proof fn lemma_numeral_renderings_distinct(k: u64, m: u128, p: u128)
    ensures
        spec_render(Token::Num60(k)) != spec_render(Token::Nat(m)),
        spec_render(Token::Num60(k)) != spec_render(Token::Num120(p)),
        spec_render(Token::Nat(m)) != spec_render(Token::Num120(p)),
{
    reveal_strlit("n");
    reveal_strlit("u120");
    lemma_digits_nonempty(k as nat);
    lemma_digits_nonempty(m as nat);
    lemma_digits_nonempty(p as nat);
    lemma_digits_all_digits(k as nat);
    let dk = spec_digits(k as nat);
    let dm = spec_digits(m as nat);
    let dp = spec_digits(p as nat);
    if dk == dm + "n"@ {
        assert(is_dec_digit(dk[dk.len() - 1]));
        assert(dk[dk.len() - 1] == 'n');
        assert(false);
    }
    if dk == dp + "u120"@ {
        assert(is_dec_digit(dk[dp.len() as int]));
        assert(dk[dp.len() as int] == 'u');
        assert(false);
    }
    if dm + "n"@ == dp + "u120"@ {
        let lhs = dm + "n"@;
        let rhs = dp + "u120"@;
        assert(lhs[lhs.len() - 1] == 'n');
        assert(rhs[rhs.len() - 1] == '0');
        assert(false);
    }
}

/// Relies on String::push: appends the given character to the end of the
/// string, leaving the characters before it unchanged.
#[verifier::external_body]
fn push_char(s: &mut String, c: char)
    ensures
        final(s)@ == old(s)@ + seq![c],
{
    s.push(c)
}

/// One decimal digit as a character.
fn digit_char(d: u128) -> (c: char)
    requires
        d < 10,
    ensures
        c == spec_digit_char(d as nat),
{
    if d == 0 {
        '0'
    } else if d == 1 {
        '1'
    } else if d == 2 {
        '2'
    } else if d == 3 {
        '3'
    } else if d == 4 {
        '4'
    } else if d == 5 {
        '5'
    } else if d == 6 {
        '6'
    } else if d == 7 {
        '7'
    } else if d == 8 {
        '8'
    } else {
        '9'
    }
}

/// The decimal text of a number, most significant digit first.
fn render_u128(n: u128) -> (r: String)
    ensures
        r@ == spec_digits(n as nat),
    decreases n,
{
    if n < 10 {
        let mut s = String::new();
        push_char(&mut s, digit_char(n));
        assert(s@ =~= spec_digits(n as nat));
        s
    } else {
        let mut s = render_u128(n / 10);
        push_char(&mut s, digit_char(n % 10));
        assert(s@ =~= spec_digits(n as nat));
        s
    }
}

impl Token {
    /// The canonical text of this token: total over every variant, never
    /// failing, and equal to [`spec_render`] of the token.
    pub fn render(&self) -> (r: String)
        ensures
            r@ == spec_render(*self),
    {
        match self {
            Token::LPar => String::from_str("("),
            Token::RPar => String::from_str(")"),
            Token::LBracket => String::from_str("["),
            Token::RBracket => String::from_str("]"),
            Token::LBrace => String::from_str("{"),
            Token::RBrace => String::from_str("}"),
            Token::Eq => String::from_str("="),
            Token::Colon => String::from_str(":"),
            Token::Semi => String::from_str(";"),
            Token::FatArrow => String::from_str("=>"),
            Token::Dollar => String::from_str("$"),
            Token::Comma => String::from_str(","),
            Token::RightArrow => String::from_str("->"),
            Token::DotDot => String::from_str(".."),
            Token::Dot => String::from_str("."),
            Token::Tilde => String::from_str("~"),
            Token::ColonColon => String::from_str("::"),
            Token::Help(text) => String::from_str("?").concat(text.as_str()),
            Token::LowerId(id) => id.clone(),
            Token::UpperId(main, aux) => match aux {
                Some(a) => {
                    let r = main.clone().concat("/").concat(a.as_str());
                    assert(r@ =~= spec_render(*self));
                    r
                },
                None => main.clone(),
            },
            Token::Return => String::from_str("return"),
            Token::Ask => String::from_str("ask"),
            Token::With => String::from_str("with"),
            Token::Char(c) => {
                let mut s = String::from_str("'");
                push_char(&mut s, *c);
                let r = s.concat("'");
                assert(r@ =~= spec_render(*self));
                r
            },
            Token::Str(text) => {
                let r = String::from_str("\"").concat(text.as_str()).concat("\"");
                assert(r@ =~= spec_render(*self));
                r
            },
            Token::Num60(n) => render_u128(*n as u128),
            Token::Num120(n) => render_u128(*n).concat("u120"),
            Token::Nat(n) => render_u128(*n).concat("n"),
            Token::Float(start, end) => {
                let r = render_u128(*start as u128).concat(".").concat(
                    render_u128(*end as u128).as_str(),
                );
                assert(r@ =~= spec_render(*self));
                r
            },
            Token::Hole => String::from_str("_"),
            Token::Plus => String::from_str("+"),
            Token::Minus => String::from_str("-"),
            Token::Star => String::from_str("*"),
            Token::Slash => String::from_str("/"),
            Token::Percent => String::from_str("%"),
            Token::Ampersand => String::from_str("&"),
            Token::Bar => String::from_str("|"),
            Token::Hat => String::from_str("^"),
            Token::GreaterGreater => String::from_str(">>"),
            Token::LessLess => String::from_str("<<"),
            Token::Less => String::from_str("<"),
            Token::LessEq => String::from_str("<="),
            Token::EqEq => String::from_str("=="),
            Token::GreaterEq => String::from_str(">="),
            Token::Greater => String::from_str(">"),
            Token::BangEq => String::from_str("!="),
            Token::Bang => String::from_str("!"),
            Token::HashHash => String::from_str("##"),
            Token::Hash => String::from_str("#"),
            Token::Comment(is_doc, text) => {
                let head = if *is_doc {
                    String::from_str("docstring '")
                } else {
                    String::from_str("comment '")
                };
                let r = head.concat(text.as_str()).concat("'");
                assert(r@ =~= spec_render(*self));
                r
            },
            Token::Eof => String::from_str("End of file"),
            Token::Error(_) => String::from_str("ERROR"),
        }
    }
}

} // verus!
