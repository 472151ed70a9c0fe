//! Tokens of ESIL and the classification of opcodes by arity.

use vstd::prelude::*;

verus! {

/// A lexical unit of an ESIL expression.
#[derive(Debug, Clone, PartialEq)]
pub enum Token {
    // Esil Opcodes
    EInterrupt,
    ECmp,
    ELt,
    EGt,
    EEq,
    EIf,
    EEndIf,
    ELsl,
    ELsr,
    ERor,
    ERol,
    EAnd,
    EOr,
    ENop,
    ENeg,
    EMul,
    EXor,
    EAdd,
    ESub,
    EDiv,
    EMod,
    EPoke(u8),
    EPeek(u8),
    EDump,
    EPop,
    ETodo,
    EGoto,
    EBreak,
    EClear,
    EDup,
    ETrap,
    // Invalid
    EInvalid,
    // Parser Instructions.
    PCopy(usize),
    PPop(usize),
    PSync,
    // Esil Internal Vars
    IZero(u8),
    ICarry(u8),
    IParity(u8),
    IOverflow(u8),
    ISign(u8),
    IBorrow(u8),
    ISize(u8),
    IAddress(u8),
    // Esil Operands
    EConstant(u64),
    EIdentifier(String),
    // Custom type to allow pushing symbol table entries.
    EEntry(usize),
    ERegister(String),
    // Meta-variables
    // These are not emitted by the lexer, but are used by the parser to communicate special
    // variables to the `Evaluator`.
    EOld,
    ECur,
    ELastsz,
    EAddress,
}

/// The mathematical value of a token: the token itself, except that the
/// text of an identifier or a register is taken by its characters.
pub enum TokenView {
    Plain(Token),
    Identifier(Seq<char>),
    Register(Seq<char>),
}

impl View for Token {
    type V = TokenView;

    open spec fn view(&self) -> TokenView {
        match self {
            Token::EIdentifier(s) => TokenView::Identifier(s@),
            Token::ERegister(s) => TokenView::Register(s@),
            _ => TokenView::Plain(*self),
        }
    }
}

/// Opcodes that take two operands from the stack.
pub open spec fn binary_token(t: Token) -> bool {
    ||| t is ECmp
    ||| t is ELt
    ||| t is EGt
    ||| t is EEq
    ||| t is ELsl
    ||| t is ELsr
    ||| t is ERor
    ||| t is ERol
    ||| t is EAnd
    ||| t is EOr
    ||| t is EMul
    ||| t is EXor
    ||| t is EAdd
    ||| t is ESub
    ||| t is EDiv
    ||| t is EMod
    ||| t is EPoke
}

/// Opcodes that take one operand from the stack.
pub open spec fn unary_token(t: Token) -> bool {
    ||| t is EPop
    ||| t is ENeg
    ||| t is EIf
    ||| t is EPeek
}

/// Opcodes that take no operand.
pub open spec fn nullary_token(t: Token) -> bool {
    ||| t is EDump
    ||| t is ENop
}

/// Opcodes that the evaluator does not implement.
pub open spec fn unimplemented_token(t: Token) -> bool {
    ||| t is ETodo
    ||| t is EInterrupt
    ||| t is EGoto
    ||| t is EBreak
    ||| t is EClear
    ||| t is EDup
    ||| t is ETrap
}

/// Meta-variables: tokens the parser uses to talk to the evaluator, which
/// the lexer never produces.
pub open spec fn meta_token(t: Token) -> bool {
    ||| t is EOld
    ||| t is ECur
    ||| t is ELastsz
    ||| t is EAddress
}

/// Tokens that only the parser produces: registers, symbol-table entries and
/// the meta-variables.
pub open spec fn parser_only_token(t: Token) -> bool {
    t is ERegister || t is EEntry || meta_token(t)
}

/// The same, of a token's value.
pub open spec fn parser_only(v: TokenView) -> bool {
    match v {
        TokenView::Plain(t) => parser_only_token(t),
        TokenView::Identifier(_) => false,
        TokenView::Register(_) => true,
    }
}

/// A memory access moves 8, 16, 32 or 64 bits.
pub open spec fn access_width_ok(t: Token) -> bool {
    match t {
        Token::EPeek(n) => n == 8 || n == 16 || n == 32 || n == 64,
        Token::EPoke(n) => n == 8 || n == 16 || n == 32 || n == 64,
        _ => true,
    }
}

/// The same, of a token's value.
pub open spec fn access_width_ok_view(v: TokenView) -> bool {
    match v {
        TokenView::Plain(t) => access_width_ok(t),
        _ => true,
    }
}

impl Token {
    pub fn is_binary(&self) -> (res: bool)
        ensures
            res == binary_token(*self),
    {
        match *self {
            Token::ECmp | Token::ELt | Token::EGt | Token::EEq | Token::ELsl | Token::ELsr
            | Token::ERor | Token::ERol | Token::EAnd | Token::EOr | Token::EMul | Token::EXor
            | Token::EAdd | Token::ESub | Token::EDiv | Token::EMod | Token::EPoke(_) => true,
            _ => false,
        }
    }

    pub fn is_unary(&self) -> (res: bool)
        ensures
            res == unary_token(*self),
    {
        match *self {
            Token::EPop | Token::ENeg | Token::EIf | Token::EPeek(_) => true,
            _ => false,
        }
    }

    pub fn is_arity_zero(&self) -> (res: bool)
        ensures
            res == nullary_token(*self),
    {
        match *self {
            Token::EDump | Token::ENop => true,
            _ => false,
        }
    }

    pub fn is_implemented(&self) -> (res: bool)
        ensures
            res == !unimplemented_token(*self),
    {
        match *self {
            Token::ETodo | Token::EInterrupt | Token::EGoto | Token::EBreak | Token::EClear
            | Token::EDup | Token::ETrap => false,
            _ => true,
        }
    }
}

/// A token has at most one arity: no opcode is both binary and unary, and
/// neither a binary nor a unary opcode takes no operand.
pub proof fn lemma_arity_classes_disjoint(t: Token)
    ensures
        !(binary_token(t) && unary_token(t)),
        !(binary_token(t) && nullary_token(t)),
        !(unary_token(t) && nullary_token(t)),
{
}

/// Every opcode with an arity is implemented by the evaluator.
pub proof fn lemma_arity_implies_implemented(t: Token)
    ensures
        binary_token(t) || unary_token(t) || nullary_token(t) ==> !unimplemented_token(t),
{
}

} // verus!
