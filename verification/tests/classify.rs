//! Coarse equality and classification predicates over the whole vocabulary.

use kind_tokens::SyntaxDiagnostic;
use kind_tokens::Token;

/// One instance of every variant, payloads filled with ordinary values.
fn all_variants() -> Vec<Token> {
    vec![
        Token::LPar,
        Token::RPar,
        Token::LBracket,
        Token::RBracket,
        Token::LBrace,
        Token::RBrace,
        Token::Eq,
        Token::Colon,
        Token::Semi,
        Token::FatArrow,
        Token::Dollar,
        Token::Comma,
        Token::RightArrow,
        Token::DotDot,
        Token::Dot,
        Token::Tilde,
        Token::ColonColon,
        Token::Help(String::from("query")),
        Token::LowerId(String::from("x")),
        Token::UpperId(String::from("Foo"), Some(String::from("Bar"))),
        Token::Return,
        Token::Ask,
        Token::With,
        Token::Char('c'),
        Token::Str(String::from("text")),
        Token::Num60(7),
        Token::Num120(7),
        Token::Nat(7),
        Token::Float(3, 14),
        Token::Hole,
        Token::Plus,
        Token::Minus,
        Token::Star,
        Token::Slash,
        Token::Percent,
        Token::Ampersand,
        Token::Bar,
        Token::Hat,
        Token::GreaterGreater,
        Token::LessLess,
        Token::Less,
        Token::LessEq,
        Token::EqEq,
        Token::GreaterEq,
        Token::Greater,
        Token::BangEq,
        Token::Bang,
        Token::HashHash,
        Token::Hash,
        Token::Comment(true, String::from("note")),
        Token::Eof,
        Token::Error(Box::new(SyntaxDiagnostic {
            message: String::from("bad lexeme"),
        })),
    ]
}

#[test]
fn same_variant_reflexive_on_every_variant() {
    for t in all_variants() {
        assert!(t.same_variant(&t));
    }
}

#[test]
fn same_variant_false_across_differing_variants() {
    let tokens = all_variants();
    for (i, a) in tokens.iter().enumerate() {
        for (j, b) in tokens.iter().enumerate() {
            assert_eq!(a.same_variant(b), i == j);
        }
    }
}

#[test]
fn same_variant_ignores_payload() {
    let a = Token::LowerId(String::from("alpha"));
    let b = Token::LowerId(String::from("omega"));
    assert!(a.same_variant(&b));

    let c = Token::UpperId(String::from("Foo"), Some(String::from("Bar")));
    let d = Token::UpperId(String::from("Qux"), None);
    assert!(c.same_variant(&d));

    let e = Token::Comment(true, String::from("a"));
    let f = Token::Comment(false, String::from("b"));
    assert!(e.same_variant(&f));

    let g = Token::Num60(0);
    let h = Token::Num60(u64::MAX);
    assert!(g.same_variant(&h));
}

#[test]
fn same_variant_separates_numeral_kinds() {
    let a = Token::Num60(5);
    let b = Token::Num120(5);
    let c = Token::Nat(5);
    assert!(!a.same_variant(&b));
    assert!(!a.same_variant(&c));
    assert!(!b.same_variant(&c));
}

#[test]
fn predicates_hold_exactly_on_their_variant() {
    let tokens = all_variants();
    for t in tokens.iter() {
        assert_eq!(t.is_lower_id(), matches!(t, Token::LowerId(_)));
        assert_eq!(t.is_upper_id(), matches!(t, Token::UpperId(_, _)));
        assert_eq!(t.is_str(), matches!(t, Token::Str(_)));
        assert_eq!(t.is_num60(), matches!(t, Token::Num60(_)));
        assert_eq!(t.is_num120(), matches!(t, Token::Num120(_)));
        assert_eq!(t.is_char(), matches!(t, Token::Char(_)));
        assert_eq!(t.is_eof(), matches!(t, Token::Eof));
        assert_eq!(t.is_doc(), matches!(t, Token::Comment(true, _)));
    }
}

#[test]
fn doc_predicate_needs_the_flag() {
    let doc = Token::Comment(true, String::from("documented"));
    let plain = Token::Comment(false, String::from("documented"));
    assert!(doc.is_doc());
    assert!(!plain.is_doc());
    assert!(doc.same_variant(&plain));
}

#[test]
fn predicates_false_on_eof_and_error() {
    let eof = Token::Eof;
    assert!(eof.is_eof());
    assert!(!eof.is_lower_id());
    assert!(!eof.is_upper_id());
    assert!(!eof.is_str());
    assert!(!eof.is_num60());
    assert!(!eof.is_num120());
    assert!(!eof.is_char());
    assert!(!eof.is_doc());

    let err = Token::Error(Box::new(SyntaxDiagnostic {
        message: String::from("unexpected"),
    }));
    assert!(!err.is_eof());
    assert!(!err.is_lower_id());
}

#[test]
fn duplicated_token_is_same_kind_as_original() {
    let t = Token::Str(String::from("shared"));
    let copy = t.clone();
    assert!(t.same_variant(&copy));
    assert_eq!(copy.render(), t.render());
}
