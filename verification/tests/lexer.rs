use std::collections::VecDeque;

use esil::{Token, Tokenize, Tokenizer};

fn lex(s: &str) -> Vec<Token> {
    assert!(Tokenizer::is_lexable(s));
    let q: VecDeque<Token> = Tokenizer::tokenize(s);
    q.into_iter().collect()
}

fn ident(s: &str) -> Token {
    Token::EIdentifier(s.to_string())
}

#[test]
fn esil_basic() {
    let op = vec![Token::EAdd];
    assert_eq!(op[0], Tokenizer::tokenize("+")[0]);
}

#[test]
fn empty_expression_is_one_empty_identifier() {
    assert_eq!(lex(""), vec![ident("")]);
}

#[test]
fn words_are_split_at_every_comma() {
    assert_eq!(lex("a,,b"), vec![ident("a"), ident(""), ident("b")]);
    assert_eq!(lex(","), vec![ident(""), ident("")]);
}

#[test]
fn simple_operators() {
    assert_eq!(lex("$"), vec![Token::EInterrupt]);
    assert_eq!(lex("=="), vec![Token::ECmp]);
    assert_eq!(lex("?{"), vec![Token::EIf]);
    assert_eq!(lex("}"), vec![Token::ENop]);
    assert_eq!(lex(">>>"), vec![Token::ERor]);
    assert_eq!(lex("<<<"), vec![Token::ERol]);
    assert_eq!(lex("STACK"), vec![Token::EDump]);
    assert_eq!(lex("POP"), vec![Token::EPop]);
    assert_eq!(lex("TRAP"), vec![Token::ETrap]);
}

#[test]
fn comparison_expansions() {
    assert_eq!(
        lex("<="),
        vec![Token::PCopy(2), Token::ELt, Token::PPop(2), Token::ECmp, Token::EOr]
    );
    assert_eq!(
        lex(">="),
        vec![Token::PCopy(2), Token::EGt, Token::PPop(2), Token::ECmp, Token::EOr]
    );
}

#[test]
fn compound_assignments() {
    assert_eq!(
        lex("rax,rbx,+="),
        vec![
            ident("rax"),
            ident("rbx"),
            Token::PCopy(1),
            Token::EAdd,
            Token::PPop(1),
            Token::EEq
        ]
    );
    assert_eq!(
        lex("--="),
        vec![
            Token::PCopy(1),
            Token::PCopy(1),
            Token::EPop,
            Token::EConstant(1),
            Token::PPop(1),
            Token::ESub,
            Token::PPop(1),
            Token::EEq
        ]
    );
}

#[test]
fn memory_accesses() {
    assert_eq!(lex("=[]"), vec![Token::EPoke(64)]);
    assert_eq!(lex("=[4]"), vec![Token::EPoke(32)]);
    assert_eq!(lex("[2]"), vec![Token::EPeek(16)]);
    assert_eq!(lex("[*]"), vec![Token::EPeek(64)]);
    assert_eq!(
        lex("^=[1]"),
        vec![Token::PCopy(1), Token::EPeek(8), Token::EXor, Token::PPop(1), Token::EPoke(8)]
    );
}

#[test]
fn internal_variables() {
    assert_eq!(lex("$z"), vec![Token::IZero(64)]);
    assert_eq!(lex("$$"), vec![Token::IAddress(64)]);
    assert_eq!(lex("$c16"), vec![Token::ICarry(16)]);
    assert_eq!(lex("$b+8"), vec![Token::IBorrow(8)]);
    assert_eq!(lex("$p255"), vec![Token::IParity(255)]);
    assert_eq!(lex("$o256"), vec![Token::IOverflow(0)]);
    assert_eq!(lex("$sx"), vec![Token::ISign(0)]);
    assert_eq!(lex("$r"), vec![Token::ISize(64)]);
    assert_eq!(lex("$q"), vec![Token::EInvalid]);
    assert_eq!(lex("$q8"), vec![Token::EInvalid]);
}

#[test]
fn hexadecimal_constants() {
    assert_eq!(lex("0x10"), vec![Token::EConstant(16)]);
    assert_eq!(lex("0xFf"), vec![Token::EConstant(255)]);
    assert_eq!(lex("0x0x10"), vec![Token::EConstant(16)]);
    assert_eq!(lex("0x+1"), vec![Token::EConstant(1)]);
    assert_eq!(lex("0xffffffffffffffff"), vec![Token::EConstant(u64::MAX)]);
    assert_eq!(lex("0x10000000000000000"), vec![Token::EInvalid]);
    assert_eq!(lex("0x"), vec![Token::EInvalid]);
    assert_eq!(lex("0xg"), vec![Token::EInvalid]);
    assert_eq!(lex("0x-1"), vec![Token::EInvalid]);
}

#[test]
fn decimal_constants() {
    assert_eq!(lex("0"), vec![Token::EConstant(0)]);
    assert_eq!(lex("42"), vec![Token::EConstant(42)]);
    assert_eq!(lex("+7"), vec![Token::EConstant(7)]);
    assert_eq!(lex("18446744073709551615"), vec![Token::EConstant(u64::MAX)]);
    assert_eq!(lex("18446744073709551616"), vec![ident("18446744073709551616")]);
    assert_eq!(lex("-1"), vec![ident("-1")]);
    assert_eq!(lex("0X10"), vec![ident("0X10")]);
    assert_eq!(lex("1a"), vec![ident("1a")]);
}

#[test]
fn identifiers_keep_their_text() {
    assert_eq!(lex("rip"), vec![ident("rip")]);
    assert_eq!(lex("é,ü"), vec![ident("é"), ident("ü")]);
    assert_eq!(lex("r15d"), vec![ident("r15d")]);
}

#[test]
fn a_full_expression() {
    assert_eq!(
        lex("0x4,rsp,-=,rbp,rsp,=[8]"),
        vec![
            Token::EConstant(4),
            ident("rsp"),
            Token::PCopy(1),
            Token::ESub,
            Token::PPop(1),
            Token::EEq,
            ident("rbp"),
            ident("rsp"),
            Token::EPoke(64)
        ]
    );
}

#[test]
fn lexing_distributes_over_commas() {
    let pairs = [("rax", "1"), ("", "+="), ("$z,0x3", "[4],b"), ("a,b", "")];
    for (a, b) in pairs.iter() {
        let joined = format!("{},{}", a, b);
        let mut expected = lex(a);
        expected.extend(lex(b));
        assert_eq!(lex(&joined), expected);
    }
}

#[test]
fn lexer_output_laws_on_examples() {
    for s in ["", "a,b,+", "$z8,0x10,[2],=[1]", "++=[4],--,STACK"].iter() {
        let n_words = s.split(',').count();
        let toks = lex(s);
        assert!(toks.len() >= n_words);
        for t in toks.iter() {
            assert!(!matches!(
                t,
                Token::ERegister(_)
                    | Token::EEntry(_)
                    | Token::EOld
                    | Token::ECur
                    | Token::ELastsz
                    | Token::EAddress
            ));
            if let Token::EPeek(n) | Token::EPoke(n) = t {
                assert!([8u8, 16, 32, 64].contains(n));
            }
        }
    }
}

#[test]
fn lexability() {
    assert!(Tokenizer::is_lexable(""));
    assert!(Tokenizer::is_lexable("é,$a,$"));
    assert!(Tokenizer::is_lexable("a$é"));
    assert!(!Tokenizer::is_lexable("$é"));
    assert!(!Tokenizer::is_lexable("a,$é1,b"));
    assert!(Tokenizer::is_lexable("$,é"));
}

#[test]
fn arity_classification() {
    assert!(Token::EAdd.is_binary());
    assert!(Token::EPoke(8).is_binary());
    assert!(!Token::EPeek(8).is_binary());
    assert!(Token::EPeek(8).is_unary());
    assert!(Token::EIf.is_unary());
    assert!(!Token::EAdd.is_unary());
    assert!(Token::EDump.is_arity_zero());
    assert!(Token::ENop.is_arity_zero());
    assert!(!Token::EPop.is_arity_zero());
    assert!(!Token::ETodo.is_implemented());
    assert!(!Token::EInterrupt.is_implemented());
    assert!(Token::EAdd.is_implemented());
    assert!(!ident("x").is_binary());
}

#[test]
fn arity_classes_are_disjoint_on_examples() {
    let all = vec![
        Token::ECmp,
        Token::EPoke(8),
        Token::EPeek(8),
        Token::EPop,
        Token::ENeg,
        Token::EIf,
        Token::EDump,
        Token::ENop,
        Token::EConstant(3),
        ident("x"),
    ];
    for t in all.iter() {
        let n = [t.is_binary(), t.is_unary(), t.is_arity_zero()]
            .iter()
            .filter(|b| **b)
            .count();
        assert!(n <= 1);
        if n == 1 {
            assert!(t.is_implemented());
        }
    }
}
