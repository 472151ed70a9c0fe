//! The fixed part of the ESIL vocabulary: operators, keywords and the
//! compound assignments, each with the tokens it stands for; and the laws
//! that tie it to the arity of opcodes and to the meaning of compound forms.

use vstd::prelude::*;
use crate::token::{
    access_width_ok, binary_token, nullary_token, parser_only_token, unary_token,
    unimplemented_token, Token,
};

verus! {

/// The tokens a word of the fixed vocabulary stands for; `None` for any
/// other word.
pub open spec fn keyword_tokens(w: Seq<char>) -> Option<Seq<Token>> {
    if w == seq!['$'] {
        Some(seq![Token::EInterrupt])
    } else if w == seq!['=', '='] {
        Some(seq![Token::ECmp])
    } else if w == seq!['<'] {
        Some(seq![Token::ELt])
    } else if w == seq!['>'] {
        Some(seq![Token::EGt])
    } else if w == seq!['<', '='] {
        Some(seq![Token::PCopy(2), Token::ELt, Token::PPop(2), Token::ECmp, Token::EOr])
    } else if w == seq!['>', '='] {
        Some(seq![Token::PCopy(2), Token::EGt, Token::PPop(2), Token::ECmp, Token::EOr])
    } else if w == seq!['?', '{'] {
        Some(seq![Token::EIf])
    } else if w == seq!['<', '<'] {
        Some(seq![Token::ELsl])
    } else if w == seq!['<', '<', '='] {
        Some(seq![Token::PCopy(1), Token::ELsl, Token::PPop(1), Token::EEq])
    } else if w == seq!['>', '>'] {
        Some(seq![Token::ELsr])
    } else if w == seq!['>', '>', '='] {
        Some(seq![Token::PCopy(1), Token::ELsr, Token::PPop(1), Token::EEq])
    } else if w == seq!['>', '>', '>'] {
        Some(seq![Token::ERor])
    } else if w == seq!['<', '<', '<'] {
        Some(seq![Token::ERol])
    } else if w == seq!['&'] {
        Some(seq![Token::EAnd])
    } else if w == seq!['&', '='] {
        Some(seq![Token::PCopy(1), Token::EAnd, Token::PPop(1), Token::EEq])
    } else if w == seq!['}'] {
        Some(seq![Token::ENop])
    } else if w == seq!['|'] {
        Some(seq![Token::EOr])
    } else if w == seq!['|', '='] {
        Some(seq![Token::PCopy(1), Token::EOr, Token::PPop(1), Token::EEq])
    } else if w == seq!['!'] {
        Some(seq![Token::ENeg])
    } else if w == seq!['!', '='] {
        Some(seq![Token::PCopy(1), Token::ENeg, Token::PPop(1), Token::EEq])
    } else if w == seq!['='] {
        Some(seq![Token::EEq])
    } else if w == seq!['*'] {
        Some(seq![Token::EMul])
    } else if w == seq!['*', '='] {
        Some(seq![Token::PCopy(1), Token::EMul, Token::PPop(1), Token::EEq])
    } else if w == seq!['^'] {
        Some(seq![Token::EXor])
    } else if w == seq!['^', '='] {
        Some(seq![Token::PCopy(1), Token::EXor, Token::PPop(1), Token::EEq])
    } else if w == seq!['+'] {
        Some(seq![Token::EAdd])
    } else if w == seq!['+', '='] {
        Some(seq![Token::PCopy(1), Token::EAdd, Token::PPop(1), Token::EEq])
    } else if w == seq!['+', '+'] {
        Some(seq![Token::PCopy(1), Token::EPop, Token::EConstant(1), Token::PPop(1), Token::EAdd])
    } else if w == seq!['+', '+', '='] {
        Some(seq![Token::PCopy(1), Token::PCopy(1), Token::EPop, Token::EConstant(1), Token::PPop(1), Token::EAdd, Token::PPop(1), Token::EEq])
    } else if w == seq!['-'] {
        Some(seq![Token::ESub])
    } else if w == seq!['-', '='] {
        Some(seq![Token::PCopy(1), Token::ESub, Token::PPop(1), Token::EEq])
    } else if w == seq!['-', '-'] {
        Some(seq![Token::PCopy(1), Token::EPop, Token::EConstant(1), Token::PPop(1), Token::ESub])
    } else if w == seq!['-', '-', '='] {
        Some(seq![Token::PCopy(1), Token::PCopy(1), Token::EPop, Token::EConstant(1), Token::PPop(1), Token::ESub, Token::PPop(1), Token::EEq])
    } else if w == seq!['/'] {
        Some(seq![Token::EDiv])
    } else if w == seq!['/', '='] {
        Some(seq![Token::PCopy(1), Token::EDiv, Token::PPop(1), Token::EEq])
    } else if w == seq!['%'] {
        Some(seq![Token::EMod])
    } else if w == seq!['%', '='] {
        Some(seq![Token::PCopy(1), Token::EMod, Token::PPop(1), Token::EEq])
    } else if w == seq!['=', '[', ']'] {
        Some(seq![Token::EPoke(64)])
    } else if w == seq!['=', '[', '1', ']'] {
        Some(seq![Token::EPoke(8)])
    } else if w == seq!['=', '[', '2', ']'] {
        Some(seq![Token::EPoke(16)])
    } else if w == seq!['=', '[', '4', ']'] {
        Some(seq![Token::EPoke(32)])
    } else if w == seq!['=', '[', '8', ']'] {
        Some(seq![Token::EPoke(64)])
    } else if w == seq!['|', '=', '[', ']'] {
        Some(seq![Token::PCopy(1), Token::EPeek(64), Token::EOr, Token::PPop(1), Token::EPoke(64)])
    } else if w == seq!['|', '=', '[', '1', ']'] {
        Some(seq![Token::PCopy(1), Token::EPeek(8), Token::EOr, Token::PPop(1), Token::EPoke(8)])
    } else if w == seq!['|', '=', '[', '2', ']'] {
        Some(seq![Token::PCopy(1), Token::EPeek(16), Token::EOr, Token::PPop(1), Token::EPoke(16)])
    } else if w == seq!['|', '=', '[', '4', ']'] {
        Some(seq![Token::PCopy(1), Token::EPeek(32), Token::EOr, Token::PPop(1), Token::EPoke(32)])
    } else if w == seq!['|', '=', '[', '8', ']'] {
        Some(seq![Token::PCopy(1), Token::EPeek(64), Token::EOr, Token::PPop(1), Token::EPoke(64)])
    } else if w == seq!['^', '=', '[', ']'] {
        Some(seq![Token::PCopy(1), Token::EPeek(64), Token::EXor, Token::PPop(1), Token::EPoke(64)])
    } else if w == seq!['^', '=', '[', '1', ']'] {
        Some(seq![Token::PCopy(1), Token::EPeek(8), Token::EXor, Token::PPop(1), Token::EPoke(8)])
    } else if w == seq!['^', '=', '[', '2', ']'] {
        Some(seq![Token::PCopy(1), Token::EPeek(16), Token::EXor, Token::PPop(1), Token::EPoke(16)])
    } else if w == seq!['^', '=', '[', '4', ']'] {
        Some(seq![Token::PCopy(1), Token::EPeek(32), Token::EXor, Token::PPop(1), Token::EPoke(32)])
    } else if w == seq!['^', '=', '[', '8', ']'] {
        Some(seq![Token::PCopy(1), Token::EPeek(64), Token::EXor, Token::PPop(1), Token::EPoke(64)])
    } else if w == seq!['&', '=', '[', ']'] {
        Some(seq![Token::PCopy(1), Token::EPeek(64), Token::EAnd, Token::PPop(1), Token::EPoke(64)])
    } else if w == seq!['&', '=', '[', '1', ']'] {
        Some(seq![Token::PCopy(1), Token::EPeek(8), Token::EAnd, Token::PPop(1), Token::EPoke(8)])
    } else if w == seq!['&', '=', '[', '2', ']'] {
        Some(seq![Token::PCopy(1), Token::EPeek(16), Token::EAnd, Token::PPop(1), Token::EPoke(16)])
    } else if w == seq!['&', '=', '[', '4', ']'] {
        Some(seq![Token::PCopy(1), Token::EPeek(32), Token::EAnd, Token::PPop(1), Token::EPoke(32)])
    } else if w == seq!['&', '=', '[', '8', ']'] {
        Some(seq![Token::PCopy(1), Token::EPeek(64), Token::EAnd, Token::PPop(1), Token::EPoke(64)])
    } else if w == seq!['+', '=', '[', ']'] {
        Some(seq![Token::PCopy(1), Token::EPeek(64), Token::EAdd, Token::PPop(1), Token::EPoke(64)])
    } else if w == seq!['+', '=', '[', '1', ']'] {
        Some(seq![Token::PCopy(1), Token::EPeek(8), Token::EAdd, Token::PPop(1), Token::EPoke(8)])
    } else if w == seq!['+', '=', '[', '2', ']'] {
        Some(seq![Token::PCopy(1), Token::EPeek(16), Token::EAdd, Token::PPop(1), Token::EPoke(16)])
    } else if w == seq!['+', '=', '[', '4', ']'] {
        Some(seq![Token::PCopy(1), Token::EPeek(32), Token::EAdd, Token::PPop(1), Token::EPoke(32)])
    } else if w == seq!['+', '=', '[', '8', ']'] {
        Some(seq![Token::PCopy(1), Token::EPeek(64), Token::EAdd, Token::PPop(1), Token::EPoke(64)])
    } else if w == seq!['-', '=', '[', ']'] {
        Some(seq![Token::PCopy(1), Token::EPeek(64), Token::ESub, Token::PPop(1), Token::EPoke(64)])
    } else if w == seq!['-', '=', '[', '1', ']'] {
        Some(seq![Token::PCopy(1), Token::EPeek(8), Token::ESub, Token::PPop(1), Token::EPoke(8)])
    } else if w == seq!['-', '=', '[', '2', ']'] {
        Some(seq![Token::PCopy(1), Token::EPeek(16), Token::ESub, Token::PPop(1), Token::EPoke(16)])
    } else if w == seq!['-', '=', '[', '4', ']'] {
        Some(seq![Token::PCopy(1), Token::EPeek(32), Token::ESub, Token::PPop(1), Token::EPoke(32)])
    } else if w == seq!['-', '=', '[', '8', ']'] {
        Some(seq![Token::PCopy(1), Token::EPeek(64), Token::ESub, Token::PPop(1), Token::EPoke(64)])
    } else if w == seq!['%', '=', '[', ']'] {
        Some(seq![Token::PCopy(1), Token::EPeek(64), Token::EMod, Token::PPop(1), Token::EPoke(64)])
    } else if w == seq!['%', '=', '[', '1', ']'] {
        Some(seq![Token::PCopy(1), Token::EPeek(8), Token::EMod, Token::PPop(1), Token::EPoke(8)])
    } else if w == seq!['%', '=', '[', '2', ']'] {
        Some(seq![Token::PCopy(1), Token::EPeek(16), Token::EMod, Token::PPop(1), Token::EPoke(16)])
    } else if w == seq!['%', '=', '[', '4', ']'] {
        Some(seq![Token::PCopy(1), Token::EPeek(32), Token::EMod, Token::PPop(1), Token::EPoke(32)])
    } else if w == seq!['%', '=', '[', '8', ']'] {
        Some(seq![Token::PCopy(1), Token::EPeek(64), Token::EMod, Token::PPop(1), Token::EPoke(64)])
    } else if w == seq!['/', '=', '[', ']'] {
        Some(seq![Token::PCopy(1), Token::EPeek(64), Token::EDiv, Token::PPop(1), Token::EPoke(64)])
    } else if w == seq!['/', '=', '[', '1', ']'] {
        Some(seq![Token::PCopy(1), Token::EPeek(8), Token::EDiv, Token::PPop(1), Token::EPoke(8)])
    } else if w == seq!['/', '=', '[', '2', ']'] {
        Some(seq![Token::PCopy(1), Token::EPeek(16), Token::EDiv, Token::PPop(1), Token::EPoke(16)])
    } else if w == seq!['/', '=', '[', '4', ']'] {
        Some(seq![Token::PCopy(1), Token::EPeek(32), Token::EDiv, Token::PPop(1), Token::EPoke(32)])
    } else if w == seq!['/', '=', '[', '8', ']'] {
        Some(seq![Token::PCopy(1), Token::EPeek(64), Token::EDiv, Token::PPop(1), Token::EPoke(64)])
    } else if w == seq!['*', '=', '[', ']'] {
        Some(seq![Token::PCopy(1), Token::EPeek(64), Token::EMul, Token::PPop(1), Token::EPoke(64)])
    } else if w == seq!['*', '=', '[', '1', ']'] {
        Some(seq![Token::PCopy(1), Token::EPeek(8), Token::EMul, Token::PPop(1), Token::EPoke(8)])
    } else if w == seq!['*', '=', '[', '2', ']'] {
        Some(seq![Token::PCopy(1), Token::EPeek(16), Token::EMul, Token::PPop(1), Token::EPoke(16)])
    } else if w == seq!['*', '=', '[', '4', ']'] {
        Some(seq![Token::PCopy(1), Token::EPeek(32), Token::EMul, Token::PPop(1), Token::EPoke(32)])
    } else if w == seq!['*', '=', '[', '8', ']'] {
        Some(seq![Token::PCopy(1), Token::EPeek(64), Token::EMul, Token::PPop(1), Token::EPoke(64)])
    } else if w == seq!['+', '+', '=', '[', ']'] {
        Some(seq![Token::PCopy(1), Token::EPeek(64), Token::PCopy(1), Token::EPop, Token::EConstant(1), Token::PPop(1), Token::EAdd, Token::PPop(1), Token::EPoke(64)])
    } else if w == seq!['+', '+', '=', '[', '1', ']'] {
        Some(seq![Token::PCopy(1), Token::EPeek(8), Token::PCopy(1), Token::EPop, Token::EConstant(1), Token::PPop(1), Token::EAdd, Token::PPop(1), Token::EPoke(8)])
    } else if w == seq!['+', '+', '=', '[', '2', ']'] {
        Some(seq![Token::PCopy(1), Token::EPeek(16), Token::PCopy(1), Token::EPop, Token::EConstant(1), Token::PPop(1), Token::EAdd, Token::PPop(1), Token::EPoke(16)])
    } else if w == seq!['+', '+', '=', '[', '4', ']'] {
        Some(seq![Token::PCopy(1), Token::EPeek(32), Token::PCopy(1), Token::EPop, Token::EConstant(1), Token::PPop(1), Token::EAdd, Token::PPop(1), Token::EPoke(32)])
    } else if w == seq!['+', '+', '=', '[', '8', ']'] {
        Some(seq![Token::PCopy(1), Token::EPeek(64), Token::PCopy(1), Token::EPop, Token::EConstant(1), Token::PPop(1), Token::EAdd, Token::PPop(1), Token::EPoke(64)])
    } else if w == seq!['-', '-', '=', '[', ']'] {
        Some(seq![Token::PCopy(1), Token::EPeek(64), Token::PCopy(1), Token::EPop, Token::EConstant(1), Token::PPop(1), Token::ESub, Token::PPop(1), Token::EPoke(64)])
    } else if w == seq!['-', '-', '=', '[', '1', ']'] {
        Some(seq![Token::PCopy(1), Token::EPeek(8), Token::PCopy(1), Token::EPop, Token::EConstant(1), Token::PPop(1), Token::ESub, Token::PPop(1), Token::EPoke(8)])
    } else if w == seq!['-', '-', '=', '[', '2', ']'] {
        Some(seq![Token::PCopy(1), Token::EPeek(16), Token::PCopy(1), Token::EPop, Token::EConstant(1), Token::PPop(1), Token::ESub, Token::PPop(1), Token::EPoke(16)])
    } else if w == seq!['-', '-', '=', '[', '4', ']'] {
        Some(seq![Token::PCopy(1), Token::EPeek(32), Token::PCopy(1), Token::EPop, Token::EConstant(1), Token::PPop(1), Token::ESub, Token::PPop(1), Token::EPoke(32)])
    } else if w == seq!['-', '-', '=', '[', '8', ']'] {
        Some(seq![Token::PCopy(1), Token::EPeek(64), Token::PCopy(1), Token::EPop, Token::EConstant(1), Token::PPop(1), Token::ESub, Token::PPop(1), Token::EPoke(64)])
    } else if w == seq!['[', ']'] {
        Some(seq![Token::EPeek(64)])
    } else if w == seq!['[', '*', ']'] {
        Some(seq![Token::EPeek(64)])
    } else if w == seq!['=', '[', '*', ']'] {
        Some(seq![Token::EPoke(64)])
    } else if w == seq!['[', '1', ']'] {
        Some(seq![Token::EPeek(8)])
    } else if w == seq!['[', '2', ']'] {
        Some(seq![Token::EPeek(16)])
    } else if w == seq!['[', '4', ']'] {
        Some(seq![Token::EPeek(32)])
    } else if w == seq!['[', '8', ']'] {
        Some(seq![Token::EPeek(64)])
    } else if w == seq!['S', 'T', 'A', 'C', 'K'] {
        Some(seq![Token::EDump])
    } else if w == seq!['P', 'O', 'P'] {
        Some(seq![Token::EPop])
    } else if w == seq!['T', 'O', 'D', 'O'] {
        Some(seq![Token::ETodo])
    } else if w == seq!['G', 'O', 'T', 'O'] {
        Some(seq![Token::EGoto])
    } else if w == seq!['B', 'R', 'E', 'A', 'K'] {
        Some(seq![Token::EBreak])
    } else if w == seq!['C', 'L', 'E', 'A', 'R'] {
        Some(seq![Token::EClear])
    } else if w == seq!['D', 'U', 'P'] {
        Some(seq![Token::EDup])
    } else if w == seq!['T', 'R', 'A', 'P'] {
        Some(seq![Token::ETrap])
    } else {
        None
    }
}

/// Each word of the fixed vocabulary stands for at least one token, none of
/// which is an identifier or a token that only the parser produces, and
/// whose memory accesses have a valid width.
pub proof fn lemma_keyword_tokens_fixed(w: Seq<char>)
    ensures
        keyword_tokens(w) matches Some(ts) ==> {
            &&& ts.len() >= 1
            &&& forall|i: int|
                0 <= i < ts.len() ==> {
                    &&& !(#[trigger] ts[i] is EIdentifier)
                    &&& !parser_only_token(ts[i])
                    &&& access_width_ok(ts[i])
                }
        },
{
}

/// The letters of the words of the fixed vocabulary, one by one.
pub proof fn lemma_vocabulary_letters()
    ensures
        seq!['$'].len() == 1 && seq!['$'][0] == '$',
        seq!['=', '='].len() == 2 && seq!['=', '='][0] == '=' && seq!['=', '='][1] == '=',
        seq!['<'].len() == 1 && seq!['<'][0] == '<',
        seq!['>'].len() == 1 && seq!['>'][0] == '>',
        seq!['<', '='].len() == 2 && seq!['<', '='][0] == '<' && seq!['<', '='][1] == '=',
        seq!['>', '='].len() == 2 && seq!['>', '='][0] == '>' && seq!['>', '='][1] == '=',
        seq!['?', '{'].len() == 2 && seq!['?', '{'][0] == '?' && seq!['?', '{'][1] == '{',
        seq!['<', '<'].len() == 2 && seq!['<', '<'][0] == '<' && seq!['<', '<'][1] == '<',
        seq!['<', '<', '='].len() == 3 && seq!['<', '<', '='][0] == '<' && seq!['<', '<', '='][1] == '<' && seq!['<', '<', '='][2] == '=',
        seq!['>', '>'].len() == 2 && seq!['>', '>'][0] == '>' && seq!['>', '>'][1] == '>',
        seq!['>', '>', '='].len() == 3 && seq!['>', '>', '='][0] == '>' && seq!['>', '>', '='][1] == '>' && seq!['>', '>', '='][2] == '=',
        seq!['>', '>', '>'].len() == 3 && seq!['>', '>', '>'][0] == '>' && seq!['>', '>', '>'][1] == '>' && seq!['>', '>', '>'][2] == '>',
        seq!['<', '<', '<'].len() == 3 && seq!['<', '<', '<'][0] == '<' && seq!['<', '<', '<'][1] == '<' && seq!['<', '<', '<'][2] == '<',
        seq!['&'].len() == 1 && seq!['&'][0] == '&',
        seq!['&', '='].len() == 2 && seq!['&', '='][0] == '&' && seq!['&', '='][1] == '=',
        seq!['}'].len() == 1 && seq!['}'][0] == '}',
        seq!['|'].len() == 1 && seq!['|'][0] == '|',
        seq!['|', '='].len() == 2 && seq!['|', '='][0] == '|' && seq!['|', '='][1] == '=',
        seq!['!'].len() == 1 && seq!['!'][0] == '!',
        seq!['!', '='].len() == 2 && seq!['!', '='][0] == '!' && seq!['!', '='][1] == '=',
        seq!['='].len() == 1 && seq!['='][0] == '=',
        seq!['*'].len() == 1 && seq!['*'][0] == '*',
        seq!['*', '='].len() == 2 && seq!['*', '='][0] == '*' && seq!['*', '='][1] == '=',
        seq!['^'].len() == 1 && seq!['^'][0] == '^',
        seq!['^', '='].len() == 2 && seq!['^', '='][0] == '^' && seq!['^', '='][1] == '=',
        seq!['+'].len() == 1 && seq!['+'][0] == '+',
        seq!['+', '='].len() == 2 && seq!['+', '='][0] == '+' && seq!['+', '='][1] == '=',
        seq!['+', '+'].len() == 2 && seq!['+', '+'][0] == '+' && seq!['+', '+'][1] == '+',
        seq!['+', '+', '='].len() == 3 && seq!['+', '+', '='][0] == '+' && seq!['+', '+', '='][1] == '+' && seq!['+', '+', '='][2] == '=',
        seq!['-'].len() == 1 && seq!['-'][0] == '-',
        seq!['-', '='].len() == 2 && seq!['-', '='][0] == '-' && seq!['-', '='][1] == '=',
        seq!['-', '-'].len() == 2 && seq!['-', '-'][0] == '-' && seq!['-', '-'][1] == '-',
        seq!['-', '-', '='].len() == 3 && seq!['-', '-', '='][0] == '-' && seq!['-', '-', '='][1] == '-' && seq!['-', '-', '='][2] == '=',
        seq!['/'].len() == 1 && seq!['/'][0] == '/',
        seq!['/', '='].len() == 2 && seq!['/', '='][0] == '/' && seq!['/', '='][1] == '=',
        seq!['%'].len() == 1 && seq!['%'][0] == '%',
        seq!['%', '='].len() == 2 && seq!['%', '='][0] == '%' && seq!['%', '='][1] == '=',
        seq!['=', '[', ']'].len() == 3 && seq!['=', '[', ']'][0] == '=' && seq!['=', '[', ']'][1] == '[' && seq!['=', '[', ']'][2] == ']',
        seq!['=', '[', '1', ']'].len() == 4 && seq!['=', '[', '1', ']'][0] == '=' && seq!['=', '[', '1', ']'][1] == '[' && seq!['=', '[', '1', ']'][2] == '1' && seq!['=', '[', '1', ']'][3] == ']',
        seq!['=', '[', '2', ']'].len() == 4 && seq!['=', '[', '2', ']'][0] == '=' && seq!['=', '[', '2', ']'][1] == '[' && seq!['=', '[', '2', ']'][2] == '2' && seq!['=', '[', '2', ']'][3] == ']',
        seq!['=', '[', '4', ']'].len() == 4 && seq!['=', '[', '4', ']'][0] == '=' && seq!['=', '[', '4', ']'][1] == '[' && seq!['=', '[', '4', ']'][2] == '4' && seq!['=', '[', '4', ']'][3] == ']',
        seq!['=', '[', '8', ']'].len() == 4 && seq!['=', '[', '8', ']'][0] == '=' && seq!['=', '[', '8', ']'][1] == '[' && seq!['=', '[', '8', ']'][2] == '8' && seq!['=', '[', '8', ']'][3] == ']',
        seq!['|', '=', '[', ']'].len() == 4 && seq!['|', '=', '[', ']'][0] == '|' && seq!['|', '=', '[', ']'][1] == '=' && seq!['|', '=', '[', ']'][2] == '[' && seq!['|', '=', '[', ']'][3] == ']',
        seq!['|', '=', '[', '1', ']'].len() == 5 && seq!['|', '=', '[', '1', ']'][0] == '|' && seq!['|', '=', '[', '1', ']'][1] == '=' && seq!['|', '=', '[', '1', ']'][2] == '[' && seq!['|', '=', '[', '1', ']'][3] == '1' && seq!['|', '=', '[', '1', ']'][4] == ']',
        seq!['|', '=', '[', '2', ']'].len() == 5 && seq!['|', '=', '[', '2', ']'][0] == '|' && seq!['|', '=', '[', '2', ']'][1] == '=' && seq!['|', '=', '[', '2', ']'][2] == '[' && seq!['|', '=', '[', '2', ']'][3] == '2' && seq!['|', '=', '[', '2', ']'][4] == ']',
        seq!['|', '=', '[', '4', ']'].len() == 5 && seq!['|', '=', '[', '4', ']'][0] == '|' && seq!['|', '=', '[', '4', ']'][1] == '=' && seq!['|', '=', '[', '4', ']'][2] == '[' && seq!['|', '=', '[', '4', ']'][3] == '4' && seq!['|', '=', '[', '4', ']'][4] == ']',
        seq!['|', '=', '[', '8', ']'].len() == 5 && seq!['|', '=', '[', '8', ']'][0] == '|' && seq!['|', '=', '[', '8', ']'][1] == '=' && seq!['|', '=', '[', '8', ']'][2] == '[' && seq!['|', '=', '[', '8', ']'][3] == '8' && seq!['|', '=', '[', '8', ']'][4] == ']',
        seq!['^', '=', '[', ']'].len() == 4 && seq!['^', '=', '[', ']'][0] == '^' && seq!['^', '=', '[', ']'][1] == '=' && seq!['^', '=', '[', ']'][2] == '[' && seq!['^', '=', '[', ']'][3] == ']',
        seq!['^', '=', '[', '1', ']'].len() == 5 && seq!['^', '=', '[', '1', ']'][0] == '^' && seq!['^', '=', '[', '1', ']'][1] == '=' && seq!['^', '=', '[', '1', ']'][2] == '[' && seq!['^', '=', '[', '1', ']'][3] == '1' && seq!['^', '=', '[', '1', ']'][4] == ']',
        seq!['^', '=', '[', '2', ']'].len() == 5 && seq!['^', '=', '[', '2', ']'][0] == '^' && seq!['^', '=', '[', '2', ']'][1] == '=' && seq!['^', '=', '[', '2', ']'][2] == '[' && seq!['^', '=', '[', '2', ']'][3] == '2' && seq!['^', '=', '[', '2', ']'][4] == ']',
        seq!['^', '=', '[', '4', ']'].len() == 5 && seq!['^', '=', '[', '4', ']'][0] == '^' && seq!['^', '=', '[', '4', ']'][1] == '=' && seq!['^', '=', '[', '4', ']'][2] == '[' && seq!['^', '=', '[', '4', ']'][3] == '4' && seq!['^', '=', '[', '4', ']'][4] == ']',
        seq!['^', '=', '[', '8', ']'].len() == 5 && seq!['^', '=', '[', '8', ']'][0] == '^' && seq!['^', '=', '[', '8', ']'][1] == '=' && seq!['^', '=', '[', '8', ']'][2] == '[' && seq!['^', '=', '[', '8', ']'][3] == '8' && seq!['^', '=', '[', '8', ']'][4] == ']',
        seq!['&', '=', '[', ']'].len() == 4 && seq!['&', '=', '[', ']'][0] == '&' && seq!['&', '=', '[', ']'][1] == '=' && seq!['&', '=', '[', ']'][2] == '[' && seq!['&', '=', '[', ']'][3] == ']',
        seq!['&', '=', '[', '1', ']'].len() == 5 && seq!['&', '=', '[', '1', ']'][0] == '&' && seq!['&', '=', '[', '1', ']'][1] == '=' && seq!['&', '=', '[', '1', ']'][2] == '[' && seq!['&', '=', '[', '1', ']'][3] == '1' && seq!['&', '=', '[', '1', ']'][4] == ']',
        seq!['&', '=', '[', '2', ']'].len() == 5 && seq!['&', '=', '[', '2', ']'][0] == '&' && seq!['&', '=', '[', '2', ']'][1] == '=' && seq!['&', '=', '[', '2', ']'][2] == '[' && seq!['&', '=', '[', '2', ']'][3] == '2' && seq!['&', '=', '[', '2', ']'][4] == ']',
        seq!['&', '=', '[', '4', ']'].len() == 5 && seq!['&', '=', '[', '4', ']'][0] == '&' && seq!['&', '=', '[', '4', ']'][1] == '=' && seq!['&', '=', '[', '4', ']'][2] == '[' && seq!['&', '=', '[', '4', ']'][3] == '4' && seq!['&', '=', '[', '4', ']'][4] == ']',
        seq!['&', '=', '[', '8', ']'].len() == 5 && seq!['&', '=', '[', '8', ']'][0] == '&' && seq!['&', '=', '[', '8', ']'][1] == '=' && seq!['&', '=', '[', '8', ']'][2] == '[' && seq!['&', '=', '[', '8', ']'][3] == '8' && seq!['&', '=', '[', '8', ']'][4] == ']',
        seq!['+', '=', '[', ']'].len() == 4 && seq!['+', '=', '[', ']'][0] == '+' && seq!['+', '=', '[', ']'][1] == '=' && seq!['+', '=', '[', ']'][2] == '[' && seq!['+', '=', '[', ']'][3] == ']',
        seq!['+', '=', '[', '1', ']'].len() == 5 && seq!['+', '=', '[', '1', ']'][0] == '+' && seq!['+', '=', '[', '1', ']'][1] == '=' && seq!['+', '=', '[', '1', ']'][2] == '[' && seq!['+', '=', '[', '1', ']'][3] == '1' && seq!['+', '=', '[', '1', ']'][4] == ']',
        seq!['+', '=', '[', '2', ']'].len() == 5 && seq!['+', '=', '[', '2', ']'][0] == '+' && seq!['+', '=', '[', '2', ']'][1] == '=' && seq!['+', '=', '[', '2', ']'][2] == '[' && seq!['+', '=', '[', '2', ']'][3] == '2' && seq!['+', '=', '[', '2', ']'][4] == ']',
        seq!['+', '=', '[', '4', ']'].len() == 5 && seq!['+', '=', '[', '4', ']'][0] == '+' && seq!['+', '=', '[', '4', ']'][1] == '=' && seq!['+', '=', '[', '4', ']'][2] == '[' && seq!['+', '=', '[', '4', ']'][3] == '4' && seq!['+', '=', '[', '4', ']'][4] == ']',
        seq!['+', '=', '[', '8', ']'].len() == 5 && seq!['+', '=', '[', '8', ']'][0] == '+' && seq!['+', '=', '[', '8', ']'][1] == '=' && seq!['+', '=', '[', '8', ']'][2] == '[' && seq!['+', '=', '[', '8', ']'][3] == '8' && seq!['+', '=', '[', '8', ']'][4] == ']',
        seq!['-', '=', '[', ']'].len() == 4 && seq!['-', '=', '[', ']'][0] == '-' && seq!['-', '=', '[', ']'][1] == '=' && seq!['-', '=', '[', ']'][2] == '[' && seq!['-', '=', '[', ']'][3] == ']',
        seq!['-', '=', '[', '1', ']'].len() == 5 && seq!['-', '=', '[', '1', ']'][0] == '-' && seq!['-', '=', '[', '1', ']'][1] == '=' && seq!['-', '=', '[', '1', ']'][2] == '[' && seq!['-', '=', '[', '1', ']'][3] == '1' && seq!['-', '=', '[', '1', ']'][4] == ']',
        seq!['-', '=', '[', '2', ']'].len() == 5 && seq!['-', '=', '[', '2', ']'][0] == '-' && seq!['-', '=', '[', '2', ']'][1] == '=' && seq!['-', '=', '[', '2', ']'][2] == '[' && seq!['-', '=', '[', '2', ']'][3] == '2' && seq!['-', '=', '[', '2', ']'][4] == ']',
        seq!['-', '=', '[', '4', ']'].len() == 5 && seq!['-', '=', '[', '4', ']'][0] == '-' && seq!['-', '=', '[', '4', ']'][1] == '=' && seq!['-', '=', '[', '4', ']'][2] == '[' && seq!['-', '=', '[', '4', ']'][3] == '4' && seq!['-', '=', '[', '4', ']'][4] == ']',
        seq!['-', '=', '[', '8', ']'].len() == 5 && seq!['-', '=', '[', '8', ']'][0] == '-' && seq!['-', '=', '[', '8', ']'][1] == '=' && seq!['-', '=', '[', '8', ']'][2] == '[' && seq!['-', '=', '[', '8', ']'][3] == '8' && seq!['-', '=', '[', '8', ']'][4] == ']',
        seq!['%', '=', '[', ']'].len() == 4 && seq!['%', '=', '[', ']'][0] == '%' && seq!['%', '=', '[', ']'][1] == '=' && seq!['%', '=', '[', ']'][2] == '[' && seq!['%', '=', '[', ']'][3] == ']',
        seq!['%', '=', '[', '1', ']'].len() == 5 && seq!['%', '=', '[', '1', ']'][0] == '%' && seq!['%', '=', '[', '1', ']'][1] == '=' && seq!['%', '=', '[', '1', ']'][2] == '[' && seq!['%', '=', '[', '1', ']'][3] == '1' && seq!['%', '=', '[', '1', ']'][4] == ']',
        seq!['%', '=', '[', '2', ']'].len() == 5 && seq!['%', '=', '[', '2', ']'][0] == '%' && seq!['%', '=', '[', '2', ']'][1] == '=' && seq!['%', '=', '[', '2', ']'][2] == '[' && seq!['%', '=', '[', '2', ']'][3] == '2' && seq!['%', '=', '[', '2', ']'][4] == ']',
        seq!['%', '=', '[', '4', ']'].len() == 5 && seq!['%', '=', '[', '4', ']'][0] == '%' && seq!['%', '=', '[', '4', ']'][1] == '=' && seq!['%', '=', '[', '4', ']'][2] == '[' && seq!['%', '=', '[', '4', ']'][3] == '4' && seq!['%', '=', '[', '4', ']'][4] == ']',
        seq!['%', '=', '[', '8', ']'].len() == 5 && seq!['%', '=', '[', '8', ']'][0] == '%' && seq!['%', '=', '[', '8', ']'][1] == '=' && seq!['%', '=', '[', '8', ']'][2] == '[' && seq!['%', '=', '[', '8', ']'][3] == '8' && seq!['%', '=', '[', '8', ']'][4] == ']',
        seq!['/', '=', '[', ']'].len() == 4 && seq!['/', '=', '[', ']'][0] == '/' && seq!['/', '=', '[', ']'][1] == '=' && seq!['/', '=', '[', ']'][2] == '[' && seq!['/', '=', '[', ']'][3] == ']',
        seq!['/', '=', '[', '1', ']'].len() == 5 && seq!['/', '=', '[', '1', ']'][0] == '/' && seq!['/', '=', '[', '1', ']'][1] == '=' && seq!['/', '=', '[', '1', ']'][2] == '[' && seq!['/', '=', '[', '1', ']'][3] == '1' && seq!['/', '=', '[', '1', ']'][4] == ']',
        seq!['/', '=', '[', '2', ']'].len() == 5 && seq!['/', '=', '[', '2', ']'][0] == '/' && seq!['/', '=', '[', '2', ']'][1] == '=' && seq!['/', '=', '[', '2', ']'][2] == '[' && seq!['/', '=', '[', '2', ']'][3] == '2' && seq!['/', '=', '[', '2', ']'][4] == ']',
        seq!['/', '=', '[', '4', ']'].len() == 5 && seq!['/', '=', '[', '4', ']'][0] == '/' && seq!['/', '=', '[', '4', ']'][1] == '=' && seq!['/', '=', '[', '4', ']'][2] == '[' && seq!['/', '=', '[', '4', ']'][3] == '4' && seq!['/', '=', '[', '4', ']'][4] == ']',
        seq!['/', '=', '[', '8', ']'].len() == 5 && seq!['/', '=', '[', '8', ']'][0] == '/' && seq!['/', '=', '[', '8', ']'][1] == '=' && seq!['/', '=', '[', '8', ']'][2] == '[' && seq!['/', '=', '[', '8', ']'][3] == '8' && seq!['/', '=', '[', '8', ']'][4] == ']',
        seq!['*', '=', '[', ']'].len() == 4 && seq!['*', '=', '[', ']'][0] == '*' && seq!['*', '=', '[', ']'][1] == '=' && seq!['*', '=', '[', ']'][2] == '[' && seq!['*', '=', '[', ']'][3] == ']',
        seq!['*', '=', '[', '1', ']'].len() == 5 && seq!['*', '=', '[', '1', ']'][0] == '*' && seq!['*', '=', '[', '1', ']'][1] == '=' && seq!['*', '=', '[', '1', ']'][2] == '[' && seq!['*', '=', '[', '1', ']'][3] == '1' && seq!['*', '=', '[', '1', ']'][4] == ']',
        seq!['*', '=', '[', '2', ']'].len() == 5 && seq!['*', '=', '[', '2', ']'][0] == '*' && seq!['*', '=', '[', '2', ']'][1] == '=' && seq!['*', '=', '[', '2', ']'][2] == '[' && seq!['*', '=', '[', '2', ']'][3] == '2' && seq!['*', '=', '[', '2', ']'][4] == ']',
        seq!['*', '=', '[', '4', ']'].len() == 5 && seq!['*', '=', '[', '4', ']'][0] == '*' && seq!['*', '=', '[', '4', ']'][1] == '=' && seq!['*', '=', '[', '4', ']'][2] == '[' && seq!['*', '=', '[', '4', ']'][3] == '4' && seq!['*', '=', '[', '4', ']'][4] == ']',
        seq!['*', '=', '[', '8', ']'].len() == 5 && seq!['*', '=', '[', '8', ']'][0] == '*' && seq!['*', '=', '[', '8', ']'][1] == '=' && seq!['*', '=', '[', '8', ']'][2] == '[' && seq!['*', '=', '[', '8', ']'][3] == '8' && seq!['*', '=', '[', '8', ']'][4] == ']',
        seq!['+', '+', '=', '[', ']'].len() == 5 && seq!['+', '+', '=', '[', ']'][0] == '+' && seq!['+', '+', '=', '[', ']'][1] == '+' && seq!['+', '+', '=', '[', ']'][2] == '=' && seq!['+', '+', '=', '[', ']'][3] == '[' && seq!['+', '+', '=', '[', ']'][4] == ']',
        seq!['+', '+', '=', '[', '1', ']'].len() == 6 && seq!['+', '+', '=', '[', '1', ']'][0] == '+' && seq!['+', '+', '=', '[', '1', ']'][1] == '+' && seq!['+', '+', '=', '[', '1', ']'][2] == '=' && seq!['+', '+', '=', '[', '1', ']'][3] == '[' && seq!['+', '+', '=', '[', '1', ']'][4] == '1' && seq!['+', '+', '=', '[', '1', ']'][5] == ']',
        seq!['+', '+', '=', '[', '2', ']'].len() == 6 && seq!['+', '+', '=', '[', '2', ']'][0] == '+' && seq!['+', '+', '=', '[', '2', ']'][1] == '+' && seq!['+', '+', '=', '[', '2', ']'][2] == '=' && seq!['+', '+', '=', '[', '2', ']'][3] == '[' && seq!['+', '+', '=', '[', '2', ']'][4] == '2' && seq!['+', '+', '=', '[', '2', ']'][5] == ']',
        seq!['+', '+', '=', '[', '4', ']'].len() == 6 && seq!['+', '+', '=', '[', '4', ']'][0] == '+' && seq!['+', '+', '=', '[', '4', ']'][1] == '+' && seq!['+', '+', '=', '[', '4', ']'][2] == '=' && seq!['+', '+', '=', '[', '4', ']'][3] == '[' && seq!['+', '+', '=', '[', '4', ']'][4] == '4' && seq!['+', '+', '=', '[', '4', ']'][5] == ']',
        seq!['+', '+', '=', '[', '8', ']'].len() == 6 && seq!['+', '+', '=', '[', '8', ']'][0] == '+' && seq!['+', '+', '=', '[', '8', ']'][1] == '+' && seq!['+', '+', '=', '[', '8', ']'][2] == '=' && seq!['+', '+', '=', '[', '8', ']'][3] == '[' && seq!['+', '+', '=', '[', '8', ']'][4] == '8' && seq!['+', '+', '=', '[', '8', ']'][5] == ']',
        seq!['-', '-', '=', '[', ']'].len() == 5 && seq!['-', '-', '=', '[', ']'][0] == '-' && seq!['-', '-', '=', '[', ']'][1] == '-' && seq!['-', '-', '=', '[', ']'][2] == '=' && seq!['-', '-', '=', '[', ']'][3] == '[' && seq!['-', '-', '=', '[', ']'][4] == ']',
        seq!['-', '-', '=', '[', '1', ']'].len() == 6 && seq!['-', '-', '=', '[', '1', ']'][0] == '-' && seq!['-', '-', '=', '[', '1', ']'][1] == '-' && seq!['-', '-', '=', '[', '1', ']'][2] == '=' && seq!['-', '-', '=', '[', '1', ']'][3] == '[' && seq!['-', '-', '=', '[', '1', ']'][4] == '1' && seq!['-', '-', '=', '[', '1', ']'][5] == ']',
        seq!['-', '-', '=', '[', '2', ']'].len() == 6 && seq!['-', '-', '=', '[', '2', ']'][0] == '-' && seq!['-', '-', '=', '[', '2', ']'][1] == '-' && seq!['-', '-', '=', '[', '2', ']'][2] == '=' && seq!['-', '-', '=', '[', '2', ']'][3] == '[' && seq!['-', '-', '=', '[', '2', ']'][4] == '2' && seq!['-', '-', '=', '[', '2', ']'][5] == ']',
        seq!['-', '-', '=', '[', '4', ']'].len() == 6 && seq!['-', '-', '=', '[', '4', ']'][0] == '-' && seq!['-', '-', '=', '[', '4', ']'][1] == '-' && seq!['-', '-', '=', '[', '4', ']'][2] == '=' && seq!['-', '-', '=', '[', '4', ']'][3] == '[' && seq!['-', '-', '=', '[', '4', ']'][4] == '4' && seq!['-', '-', '=', '[', '4', ']'][5] == ']',
        seq!['-', '-', '=', '[', '8', ']'].len() == 6 && seq!['-', '-', '=', '[', '8', ']'][0] == '-' && seq!['-', '-', '=', '[', '8', ']'][1] == '-' && seq!['-', '-', '=', '[', '8', ']'][2] == '=' && seq!['-', '-', '=', '[', '8', ']'][3] == '[' && seq!['-', '-', '=', '[', '8', ']'][4] == '8' && seq!['-', '-', '=', '[', '8', ']'][5] == ']',
        seq!['[', ']'].len() == 2 && seq!['[', ']'][0] == '[' && seq!['[', ']'][1] == ']',
        seq!['[', '*', ']'].len() == 3 && seq!['[', '*', ']'][0] == '[' && seq!['[', '*', ']'][1] == '*' && seq!['[', '*', ']'][2] == ']',
        seq!['=', '[', '*', ']'].len() == 4 && seq!['=', '[', '*', ']'][0] == '=' && seq!['=', '[', '*', ']'][1] == '[' && seq!['=', '[', '*', ']'][2] == '*' && seq!['=', '[', '*', ']'][3] == ']',
        seq!['[', '1', ']'].len() == 3 && seq!['[', '1', ']'][0] == '[' && seq!['[', '1', ']'][1] == '1' && seq!['[', '1', ']'][2] == ']',
        seq!['[', '2', ']'].len() == 3 && seq!['[', '2', ']'][0] == '[' && seq!['[', '2', ']'][1] == '2' && seq!['[', '2', ']'][2] == ']',
        seq!['[', '4', ']'].len() == 3 && seq!['[', '4', ']'][0] == '[' && seq!['[', '4', ']'][1] == '4' && seq!['[', '4', ']'][2] == ']',
        seq!['[', '8', ']'].len() == 3 && seq!['[', '8', ']'][0] == '[' && seq!['[', '8', ']'][1] == '8' && seq!['[', '8', ']'][2] == ']',
        seq!['S', 'T', 'A', 'C', 'K'].len() == 5 && seq!['S', 'T', 'A', 'C', 'K'][0] == 'S' && seq!['S', 'T', 'A', 'C', 'K'][1] == 'T' && seq!['S', 'T', 'A', 'C', 'K'][2] == 'A' && seq!['S', 'T', 'A', 'C', 'K'][3] == 'C' && seq!['S', 'T', 'A', 'C', 'K'][4] == 'K',
        seq!['P', 'O', 'P'].len() == 3 && seq!['P', 'O', 'P'][0] == 'P' && seq!['P', 'O', 'P'][1] == 'O' && seq!['P', 'O', 'P'][2] == 'P',
        seq!['T', 'O', 'D', 'O'].len() == 4 && seq!['T', 'O', 'D', 'O'][0] == 'T' && seq!['T', 'O', 'D', 'O'][1] == 'O' && seq!['T', 'O', 'D', 'O'][2] == 'D' && seq!['T', 'O', 'D', 'O'][3] == 'O',
        seq!['G', 'O', 'T', 'O'].len() == 4 && seq!['G', 'O', 'T', 'O'][0] == 'G' && seq!['G', 'O', 'T', 'O'][1] == 'O' && seq!['G', 'O', 'T', 'O'][2] == 'T' && seq!['G', 'O', 'T', 'O'][3] == 'O',
        seq!['B', 'R', 'E', 'A', 'K'].len() == 5 && seq!['B', 'R', 'E', 'A', 'K'][0] == 'B' && seq!['B', 'R', 'E', 'A', 'K'][1] == 'R' && seq!['B', 'R', 'E', 'A', 'K'][2] == 'E' && seq!['B', 'R', 'E', 'A', 'K'][3] == 'A' && seq!['B', 'R', 'E', 'A', 'K'][4] == 'K',
        seq!['C', 'L', 'E', 'A', 'R'].len() == 5 && seq!['C', 'L', 'E', 'A', 'R'][0] == 'C' && seq!['C', 'L', 'E', 'A', 'R'][1] == 'L' && seq!['C', 'L', 'E', 'A', 'R'][2] == 'E' && seq!['C', 'L', 'E', 'A', 'R'][3] == 'A' && seq!['C', 'L', 'E', 'A', 'R'][4] == 'R',
        seq!['D', 'U', 'P'].len() == 3 && seq!['D', 'U', 'P'][0] == 'D' && seq!['D', 'U', 'P'][1] == 'U' && seq!['D', 'U', 'P'][2] == 'P',
        seq!['T', 'R', 'A', 'P'].len() == 4 && seq!['T', 'R', 'A', 'P'][0] == 'T' && seq!['T', 'R', 'A', 'P'][1] == 'R' && seq!['T', 'R', 'A', 'P'][2] == 'A' && seq!['T', 'R', 'A', 'P'][3] == 'P',
{
}

/// The words that name an operation on two operands: comparisons, shifts,
/// rotations, bitwise and arithmetic operators, and the assignment `=`.
pub open spec fn binary_operator_word(w: Seq<char>) -> bool {
    ||| w == seq!['=', '=']
    ||| w == seq!['<']
    ||| w == seq!['>']
    ||| w == seq!['<', '<']
    ||| w == seq!['>', '>']
    ||| w == seq!['>', '>', '>']
    ||| w == seq!['<', '<', '<']
    ||| w == seq!['&']
    ||| w == seq!['|']
    ||| w == seq!['*']
    ||| w == seq!['^']
    ||| w == seq!['+']
    ||| w == seq!['-']
    ||| w == seq!['/']
    ||| w == seq!['%']
    ||| w == seq!['=']
}

/// The words that name an operation on one operand: `POP`, the negation `!`
/// and the conditional `?{`.
pub open spec fn unary_operator_word(w: Seq<char>) -> bool {
    ||| w == seq!['P', 'O', 'P']
    ||| w == seq!['!']
    ||| w == seq!['?', '{']
}

/// The words that name an operation on no operand: `STACK` and the end of a
/// conditional `}`.
pub open spec fn nullary_word(w: Seq<char>) -> bool {
    ||| w == seq!['S', 'T', 'A', 'C', 'K']
    ||| w == seq!['}']
}

/// The words whose operations the evaluator lacks: `TODO`, the interrupt
/// `$`, `GOTO`, `BREAK`, `CLEAR`, `DUP` and `TRAP`.
pub open spec fn unimplemented_word(w: Seq<char>) -> bool {
    ||| w == seq!['T', 'O', 'D', 'O']
    ||| w == seq!['$']
    ||| w == seq!['G', 'O', 'T', 'O']
    ||| w == seq!['B', 'R', 'E', 'A', 'K']
    ||| w == seq!['C', 'L', 'E', 'A', 'R']
    ||| w == seq!['D', 'U', 'P']
    ||| w == seq!['T', 'R', 'A', 'P']
}

/// The operators with a compound assignment `op=`.
pub open spec fn compound_operator(w: Seq<char>) -> bool {
    ||| w == seq!['<', '<']
    ||| w == seq!['>', '>']
    ||| w == seq!['&']
    ||| w == seq!['|']
    ||| w == seq!['!']
    ||| w == seq!['*']
    ||| w == seq!['^']
    ||| w == seq!['+']
    ||| w == seq!['+', '+']
    ||| w == seq!['-']
    ||| w == seq!['-', '-']
    ||| w == seq!['/']
    ||| w == seq!['%']
}

/// The operators with a compound assignment to memory `op=[n]`.
pub open spec fn memory_compound_operator(w: Seq<char>) -> bool {
    ||| w == seq!['|']
    ||| w == seq!['^']
    ||| w == seq!['&']
    ||| w == seq!['+']
    ||| w == seq!['-']
    ||| w == seq!['%']
    ||| w == seq!['/']
    ||| w == seq!['*']
    ||| w == seq!['+', '+']
    ||| w == seq!['-', '-']
}

/// The sizes a memory access can be written with inside its brackets: none
/// (the default), or a number of bytes.
pub open spec fn access_size(w: Seq<char>) -> bool {
    ||| w == Seq::<char>::empty()
    ||| w == seq!['1']
    ||| w == seq!['2']
    ||| w == seq!['4']
    ||| w == seq!['8']
}

/// An opcode takes two operands exactly when it is a memory write or what a
/// binary operator word lexes to.
#[verifier::spinoff_prover]
#[verifier::rlimit(100)]
pub proof fn lemma_binary_opcodes(t: Token)
    ensures
        binary_token(t) <==> (t is EPoke || exists|w: Seq<char>| binary_operator_word(w) && #[trigger] keyword_tokens(w) == Some(seq![t])),
{
    lemma_vocabulary_letters();
    assert(seq![t][0] == t);
    assert(keyword_tokens(seq!['=', '=']) == Some(seq![Token::ECmp]));
    assert(seq![Token::ECmp][0] == Token::ECmp);
    assert(keyword_tokens(seq!['<']) == Some(seq![Token::ELt]));
    assert(seq![Token::ELt][0] == Token::ELt);
    assert(keyword_tokens(seq!['>']) == Some(seq![Token::EGt]));
    assert(seq![Token::EGt][0] == Token::EGt);
    assert(keyword_tokens(seq!['<', '<']) == Some(seq![Token::ELsl]));
    assert(seq![Token::ELsl][0] == Token::ELsl);
    assert(keyword_tokens(seq!['>', '>']) == Some(seq![Token::ELsr]));
    assert(seq![Token::ELsr][0] == Token::ELsr);
    assert(keyword_tokens(seq!['>', '>', '>']) == Some(seq![Token::ERor]));
    assert(seq![Token::ERor][0] == Token::ERor);
    assert(keyword_tokens(seq!['<', '<', '<']) == Some(seq![Token::ERol]));
    assert(seq![Token::ERol][0] == Token::ERol);
    assert(keyword_tokens(seq!['&']) == Some(seq![Token::EAnd]));
    assert(seq![Token::EAnd][0] == Token::EAnd);
    assert(keyword_tokens(seq!['|']) == Some(seq![Token::EOr]));
    assert(seq![Token::EOr][0] == Token::EOr);
    assert(keyword_tokens(seq!['*']) == Some(seq![Token::EMul]));
    assert(seq![Token::EMul][0] == Token::EMul);
    assert(keyword_tokens(seq!['^']) == Some(seq![Token::EXor]));
    assert(seq![Token::EXor][0] == Token::EXor);
    assert(keyword_tokens(seq!['+']) == Some(seq![Token::EAdd]));
    assert(seq![Token::EAdd][0] == Token::EAdd);
    assert(keyword_tokens(seq!['-']) == Some(seq![Token::ESub]));
    assert(seq![Token::ESub][0] == Token::ESub);
    assert(keyword_tokens(seq!['/']) == Some(seq![Token::EDiv]));
    assert(seq![Token::EDiv][0] == Token::EDiv);
    assert(keyword_tokens(seq!['%']) == Some(seq![Token::EMod]));
    assert(seq![Token::EMod][0] == Token::EMod);
    assert(keyword_tokens(seq!['=']) == Some(seq![Token::EEq]));
    assert(seq![Token::EEq][0] == Token::EEq);
    if exists|w: Seq<char>| binary_operator_word(w) && #[trigger] keyword_tokens(w) == Some(seq![t]) {
        let w = choose|w: Seq<char>| binary_operator_word(w) && #[trigger] keyword_tokens(w) == Some(seq![t]);
        if w == seq!['=', '='] {
            assert(t == Token::ECmp);
        }
        if w == seq!['<'] {
            assert(t == Token::ELt);
        }
        if w == seq!['>'] {
            assert(t == Token::EGt);
        }
        if w == seq!['<', '<'] {
            assert(t == Token::ELsl);
        }
        if w == seq!['>', '>'] {
            assert(t == Token::ELsr);
        }
        if w == seq!['>', '>', '>'] {
            assert(t == Token::ERor);
        }
        if w == seq!['<', '<', '<'] {
            assert(t == Token::ERol);
        }
        if w == seq!['&'] {
            assert(t == Token::EAnd);
        }
        if w == seq!['|'] {
            assert(t == Token::EOr);
        }
        if w == seq!['*'] {
            assert(t == Token::EMul);
        }
        if w == seq!['^'] {
            assert(t == Token::EXor);
        }
        if w == seq!['+'] {
            assert(t == Token::EAdd);
        }
        if w == seq!['-'] {
            assert(t == Token::ESub);
        }
        if w == seq!['/'] {
            assert(t == Token::EDiv);
        }
        if w == seq!['%'] {
            assert(t == Token::EMod);
        }
        if w == seq!['='] {
            assert(t == Token::EEq);
        }
    }
    if binary_token(t) {
        if t == Token::ECmp {
            assert(binary_operator_word(seq!['=', '=']) && keyword_tokens(seq!['=', '=']) == Some(seq![t]));
        }
        if t == Token::ELt {
            assert(binary_operator_word(seq!['<']) && keyword_tokens(seq!['<']) == Some(seq![t]));
        }
        if t == Token::EGt {
            assert(binary_operator_word(seq!['>']) && keyword_tokens(seq!['>']) == Some(seq![t]));
        }
        if t == Token::ELsl {
            assert(binary_operator_word(seq!['<', '<']) && keyword_tokens(seq!['<', '<']) == Some(seq![t]));
        }
        if t == Token::ELsr {
            assert(binary_operator_word(seq!['>', '>']) && keyword_tokens(seq!['>', '>']) == Some(seq![t]));
        }
        if t == Token::ERor {
            assert(binary_operator_word(seq!['>', '>', '>']) && keyword_tokens(seq!['>', '>', '>']) == Some(seq![t]));
        }
        if t == Token::ERol {
            assert(binary_operator_word(seq!['<', '<', '<']) && keyword_tokens(seq!['<', '<', '<']) == Some(seq![t]));
        }
        if t == Token::EAnd {
            assert(binary_operator_word(seq!['&']) && keyword_tokens(seq!['&']) == Some(seq![t]));
        }
        if t == Token::EOr {
            assert(binary_operator_word(seq!['|']) && keyword_tokens(seq!['|']) == Some(seq![t]));
        }
        if t == Token::EMul {
            assert(binary_operator_word(seq!['*']) && keyword_tokens(seq!['*']) == Some(seq![t]));
        }
        if t == Token::EXor {
            assert(binary_operator_word(seq!['^']) && keyword_tokens(seq!['^']) == Some(seq![t]));
        }
        if t == Token::EAdd {
            assert(binary_operator_word(seq!['+']) && keyword_tokens(seq!['+']) == Some(seq![t]));
        }
        if t == Token::ESub {
            assert(binary_operator_word(seq!['-']) && keyword_tokens(seq!['-']) == Some(seq![t]));
        }
        if t == Token::EDiv {
            assert(binary_operator_word(seq!['/']) && keyword_tokens(seq!['/']) == Some(seq![t]));
        }
        if t == Token::EMod {
            assert(binary_operator_word(seq!['%']) && keyword_tokens(seq!['%']) == Some(seq![t]));
        }
        if t == Token::EEq {
            assert(binary_operator_word(seq!['=']) && keyword_tokens(seq!['=']) == Some(seq![t]));
        }
    }
}
/// An opcode takes one operand exactly when it is a memory read or what a
/// unary operator word lexes to.
#[verifier::spinoff_prover]
#[verifier::rlimit(100)]
pub proof fn lemma_unary_opcodes(t: Token)
    ensures
        unary_token(t) <==> (t is EPeek || exists|w: Seq<char>| unary_operator_word(w) && #[trigger] keyword_tokens(w) == Some(seq![t])),
{
    lemma_vocabulary_letters();
    assert(seq![t][0] == t);
    assert(keyword_tokens(seq!['P', 'O', 'P']) == Some(seq![Token::EPop]));
    assert(seq![Token::EPop][0] == Token::EPop);
    assert(keyword_tokens(seq!['!']) == Some(seq![Token::ENeg]));
    assert(seq![Token::ENeg][0] == Token::ENeg);
    assert(keyword_tokens(seq!['?', '{']) == Some(seq![Token::EIf]));
    assert(seq![Token::EIf][0] == Token::EIf);
    if exists|w: Seq<char>| unary_operator_word(w) && #[trigger] keyword_tokens(w) == Some(seq![t]) {
        let w = choose|w: Seq<char>| unary_operator_word(w) && #[trigger] keyword_tokens(w) == Some(seq![t]);
        if w == seq!['P', 'O', 'P'] {
            assert(t == Token::EPop);
        }
        if w == seq!['!'] {
            assert(t == Token::ENeg);
        }
        if w == seq!['?', '{'] {
            assert(t == Token::EIf);
        }
    }
    if unary_token(t) {
        if t == Token::EPop {
            assert(unary_operator_word(seq!['P', 'O', 'P']) && keyword_tokens(seq!['P', 'O', 'P']) == Some(seq![t]));
        }
        if t == Token::ENeg {
            assert(unary_operator_word(seq!['!']) && keyword_tokens(seq!['!']) == Some(seq![t]));
        }
        if t == Token::EIf {
            assert(unary_operator_word(seq!['?', '{']) && keyword_tokens(seq!['?', '{']) == Some(seq![t]));
        }
    }
}
/// An opcode takes no operand exactly when it is what `STACK` or `}` lexes
/// to; no operand, constant or other opcode does.
#[verifier::spinoff_prover]
#[verifier::rlimit(100)]
pub proof fn lemma_nullary_opcodes(t: Token)
    ensures
        nullary_token(t) <==> (exists|w: Seq<char>| nullary_word(w) && #[trigger] keyword_tokens(w) == Some(seq![t])),
{
    lemma_vocabulary_letters();
    assert(seq![t][0] == t);
    assert(keyword_tokens(seq!['S', 'T', 'A', 'C', 'K']) == Some(seq![Token::EDump]));
    assert(seq![Token::EDump][0] == Token::EDump);
    assert(keyword_tokens(seq!['}']) == Some(seq![Token::ENop]));
    assert(seq![Token::ENop][0] == Token::ENop);
    if exists|w: Seq<char>| nullary_word(w) && #[trigger] keyword_tokens(w) == Some(seq![t]) {
        let w = choose|w: Seq<char>| nullary_word(w) && #[trigger] keyword_tokens(w) == Some(seq![t]);
        if w == seq!['S', 'T', 'A', 'C', 'K'] {
            assert(t == Token::EDump);
        }
        if w == seq!['}'] {
            assert(t == Token::ENop);
        }
    }
    if nullary_token(t) {
        if t == Token::EDump {
            assert(nullary_word(seq!['S', 'T', 'A', 'C', 'K']) && keyword_tokens(seq!['S', 'T', 'A', 'C', 'K']) == Some(seq![t]));
        }
        if t == Token::ENop {
            assert(nullary_word(seq!['}']) && keyword_tokens(seq!['}']) == Some(seq![t]));
        }
    }
}
/// The evaluator lacks an opcode exactly when it is what one of the words
/// `TODO`, `$`, `GOTO`, `BREAK`, `CLEAR`, `DUP` and `TRAP` lexes to.
#[verifier::spinoff_prover]
#[verifier::rlimit(100)]
pub proof fn lemma_unimplemented_opcodes(t: Token)
    ensures
        unimplemented_token(t) <==> (exists|w: Seq<char>| unimplemented_word(w) && #[trigger] keyword_tokens(w) == Some(seq![t])),
{
    lemma_vocabulary_letters();
    assert(seq![t][0] == t);
    assert(keyword_tokens(seq!['T', 'O', 'D', 'O']) == Some(seq![Token::ETodo]));
    assert(seq![Token::ETodo][0] == Token::ETodo);
    assert(keyword_tokens(seq!['$']) == Some(seq![Token::EInterrupt]));
    assert(seq![Token::EInterrupt][0] == Token::EInterrupt);
    assert(keyword_tokens(seq!['G', 'O', 'T', 'O']) == Some(seq![Token::EGoto]));
    assert(seq![Token::EGoto][0] == Token::EGoto);
    assert(keyword_tokens(seq!['B', 'R', 'E', 'A', 'K']) == Some(seq![Token::EBreak]));
    assert(seq![Token::EBreak][0] == Token::EBreak);
    assert(keyword_tokens(seq!['C', 'L', 'E', 'A', 'R']) == Some(seq![Token::EClear]));
    assert(seq![Token::EClear][0] == Token::EClear);
    assert(keyword_tokens(seq!['D', 'U', 'P']) == Some(seq![Token::EDup]));
    assert(seq![Token::EDup][0] == Token::EDup);
    assert(keyword_tokens(seq!['T', 'R', 'A', 'P']) == Some(seq![Token::ETrap]));
    assert(seq![Token::ETrap][0] == Token::ETrap);
    if exists|w: Seq<char>| unimplemented_word(w) && #[trigger] keyword_tokens(w) == Some(seq![t]) {
        let w = choose|w: Seq<char>| unimplemented_word(w) && #[trigger] keyword_tokens(w) == Some(seq![t]);
        if w == seq!['T', 'O', 'D', 'O'] {
            assert(t == Token::ETodo);
        }
        if w == seq!['$'] {
            assert(t == Token::EInterrupt);
        }
        if w == seq!['G', 'O', 'T', 'O'] {
            assert(t == Token::EGoto);
        }
        if w == seq!['B', 'R', 'E', 'A', 'K'] {
            assert(t == Token::EBreak);
        }
        if w == seq!['C', 'L', 'E', 'A', 'R'] {
            assert(t == Token::EClear);
        }
        if w == seq!['D', 'U', 'P'] {
            assert(t == Token::EDup);
        }
        if w == seq!['T', 'R', 'A', 'P'] {
            assert(t == Token::ETrap);
        }
    }
    if unimplemented_token(t) {
        if t == Token::ETodo {
            assert(unimplemented_word(seq!['T', 'O', 'D', 'O']) && keyword_tokens(seq!['T', 'O', 'D', 'O']) == Some(seq![t]));
        }
        if t == Token::EInterrupt {
            assert(unimplemented_word(seq!['$']) && keyword_tokens(seq!['$']) == Some(seq![t]));
        }
        if t == Token::EGoto {
            assert(unimplemented_word(seq!['G', 'O', 'T', 'O']) && keyword_tokens(seq!['G', 'O', 'T', 'O']) == Some(seq![t]));
        }
        if t == Token::EBreak {
            assert(unimplemented_word(seq!['B', 'R', 'E', 'A', 'K']) && keyword_tokens(seq!['B', 'R', 'E', 'A', 'K']) == Some(seq![t]));
        }
        if t == Token::EClear {
            assert(unimplemented_word(seq!['C', 'L', 'E', 'A', 'R']) && keyword_tokens(seq!['C', 'L', 'E', 'A', 'R']) == Some(seq![t]));
        }
        if t == Token::EDup {
            assert(unimplemented_word(seq!['D', 'U', 'P']) && keyword_tokens(seq!['D', 'U', 'P']) == Some(seq![t]));
        }
        if t == Token::ETrap {
            assert(unimplemented_word(seq!['T', 'R', 'A', 'P']) && keyword_tokens(seq!['T', 'R', 'A', 'P']) == Some(seq![t]));
        }
    }
}
/// A compound assignment `op=` applies `op` to a copy of its destination and
/// assigns the result back: it lexes to `PCopy(1)`, the tokens of `op`,
/// `PPop(1)`, then the tokens of the plain assignment `=`; and that plain
/// assignment is not the comparison `==`.
#[verifier::spinoff_prover]
#[verifier::rlimit(100)]
pub proof fn lemma_compound_assignment(op: Seq<char>)
    requires
        compound_operator(op),
    ensures
        keyword_tokens(op.push('=')) == Some(
            seq![Token::PCopy(1)] + keyword_tokens(op).unwrap() + seq![Token::PPop(1)]
                + keyword_tokens(seq!['=']).unwrap(),
        ),
        keyword_tokens(seq!['=']) != keyword_tokens(seq!['=', '=']),
{
    lemma_vocabulary_letters();
    assert(keyword_tokens(seq!['=']) == Some(seq![Token::EEq]));
    assert(keyword_tokens(seq!['=', '=']) == Some(seq![Token::ECmp]));
    assert(seq![Token::EEq][0] != seq![Token::ECmp][0]);
    if op == seq!['<', '<'] {
        assert(op.push('=') == seq!['<', '<', '=']);
        assert(keyword_tokens(seq!['<', '<']) == Some(seq![Token::ELsl]));
        assert(keyword_tokens(seq!['<', '<', '=']) == Some(seq![Token::PCopy(1), Token::ELsl, Token::PPop(1), Token::EEq]));
        assert(seq![Token::PCopy(1), Token::ELsl, Token::PPop(1), Token::EEq] =~= seq![Token::PCopy(1)] + seq![Token::ELsl] + seq![Token::PPop(1)] + seq![Token::EEq]);
    }
    if op == seq!['>', '>'] {
        assert(op.push('=') == seq!['>', '>', '=']);
        assert(keyword_tokens(seq!['>', '>']) == Some(seq![Token::ELsr]));
        assert(keyword_tokens(seq!['>', '>', '=']) == Some(seq![Token::PCopy(1), Token::ELsr, Token::PPop(1), Token::EEq]));
        assert(seq![Token::PCopy(1), Token::ELsr, Token::PPop(1), Token::EEq] =~= seq![Token::PCopy(1)] + seq![Token::ELsr] + seq![Token::PPop(1)] + seq![Token::EEq]);
    }
    if op == seq!['&'] {
        assert(op.push('=') == seq!['&', '=']);
        assert(keyword_tokens(seq!['&']) == Some(seq![Token::EAnd]));
        assert(keyword_tokens(seq!['&', '=']) == Some(seq![Token::PCopy(1), Token::EAnd, Token::PPop(1), Token::EEq]));
        assert(seq![Token::PCopy(1), Token::EAnd, Token::PPop(1), Token::EEq] =~= seq![Token::PCopy(1)] + seq![Token::EAnd] + seq![Token::PPop(1)] + seq![Token::EEq]);
    }
    if op == seq!['|'] {
        assert(op.push('=') == seq!['|', '=']);
        assert(keyword_tokens(seq!['|']) == Some(seq![Token::EOr]));
        assert(keyword_tokens(seq!['|', '=']) == Some(seq![Token::PCopy(1), Token::EOr, Token::PPop(1), Token::EEq]));
        assert(seq![Token::PCopy(1), Token::EOr, Token::PPop(1), Token::EEq] =~= seq![Token::PCopy(1)] + seq![Token::EOr] + seq![Token::PPop(1)] + seq![Token::EEq]);
    }
    if op == seq!['!'] {
        assert(op.push('=') == seq!['!', '=']);
        assert(keyword_tokens(seq!['!']) == Some(seq![Token::ENeg]));
        assert(keyword_tokens(seq!['!', '=']) == Some(seq![Token::PCopy(1), Token::ENeg, Token::PPop(1), Token::EEq]));
        assert(seq![Token::PCopy(1), Token::ENeg, Token::PPop(1), Token::EEq] =~= seq![Token::PCopy(1)] + seq![Token::ENeg] + seq![Token::PPop(1)] + seq![Token::EEq]);
    }
    if op == seq!['*'] {
        assert(op.push('=') == seq!['*', '=']);
        assert(keyword_tokens(seq!['*']) == Some(seq![Token::EMul]));
        assert(keyword_tokens(seq!['*', '=']) == Some(seq![Token::PCopy(1), Token::EMul, Token::PPop(1), Token::EEq]));
        assert(seq![Token::PCopy(1), Token::EMul, Token::PPop(1), Token::EEq] =~= seq![Token::PCopy(1)] + seq![Token::EMul] + seq![Token::PPop(1)] + seq![Token::EEq]);
    }
    if op == seq!['^'] {
        assert(op.push('=') == seq!['^', '=']);
        assert(keyword_tokens(seq!['^']) == Some(seq![Token::EXor]));
        assert(keyword_tokens(seq!['^', '=']) == Some(seq![Token::PCopy(1), Token::EXor, Token::PPop(1), Token::EEq]));
        assert(seq![Token::PCopy(1), Token::EXor, Token::PPop(1), Token::EEq] =~= seq![Token::PCopy(1)] + seq![Token::EXor] + seq![Token::PPop(1)] + seq![Token::EEq]);
    }
    if op == seq!['+'] {
        assert(op.push('=') == seq!['+', '=']);
        assert(keyword_tokens(seq!['+']) == Some(seq![Token::EAdd]));
        assert(keyword_tokens(seq!['+', '=']) == Some(seq![Token::PCopy(1), Token::EAdd, Token::PPop(1), Token::EEq]));
        assert(seq![Token::PCopy(1), Token::EAdd, Token::PPop(1), Token::EEq] =~= seq![Token::PCopy(1)] + seq![Token::EAdd] + seq![Token::PPop(1)] + seq![Token::EEq]);
    }
    if op == seq!['+', '+'] {
        assert(op.push('=') == seq!['+', '+', '=']);
        assert(keyword_tokens(seq!['+', '+']) == Some(seq![Token::PCopy(1), Token::EPop, Token::EConstant(1), Token::PPop(1), Token::EAdd]));
        assert(keyword_tokens(seq!['+', '+', '=']) == Some(seq![Token::PCopy(1), Token::PCopy(1), Token::EPop, Token::EConstant(1), Token::PPop(1), Token::EAdd, Token::PPop(1), Token::EEq]));
        assert(seq![Token::PCopy(1), Token::PCopy(1), Token::EPop, Token::EConstant(1), Token::PPop(1), Token::EAdd, Token::PPop(1), Token::EEq] =~= seq![Token::PCopy(1)] + seq![Token::PCopy(1), Token::EPop, Token::EConstant(1), Token::PPop(1), Token::EAdd] + seq![Token::PPop(1)] + seq![Token::EEq]);
    }
    if op == seq!['-'] {
        assert(op.push('=') == seq!['-', '=']);
        assert(keyword_tokens(seq!['-']) == Some(seq![Token::ESub]));
        assert(keyword_tokens(seq!['-', '=']) == Some(seq![Token::PCopy(1), Token::ESub, Token::PPop(1), Token::EEq]));
        assert(seq![Token::PCopy(1), Token::ESub, Token::PPop(1), Token::EEq] =~= seq![Token::PCopy(1)] + seq![Token::ESub] + seq![Token::PPop(1)] + seq![Token::EEq]);
    }
    if op == seq!['-', '-'] {
        assert(op.push('=') == seq!['-', '-', '=']);
        assert(keyword_tokens(seq!['-', '-']) == Some(seq![Token::PCopy(1), Token::EPop, Token::EConstant(1), Token::PPop(1), Token::ESub]));
        assert(keyword_tokens(seq!['-', '-', '=']) == Some(seq![Token::PCopy(1), Token::PCopy(1), Token::EPop, Token::EConstant(1), Token::PPop(1), Token::ESub, Token::PPop(1), Token::EEq]));
        assert(seq![Token::PCopy(1), Token::PCopy(1), Token::EPop, Token::EConstant(1), Token::PPop(1), Token::ESub, Token::PPop(1), Token::EEq] =~= seq![Token::PCopy(1)] + seq![Token::PCopy(1), Token::EPop, Token::EConstant(1), Token::PPop(1), Token::ESub] + seq![Token::PPop(1)] + seq![Token::EEq]);
    }
    if op == seq!['/'] {
        assert(op.push('=') == seq!['/', '=']);
        assert(keyword_tokens(seq!['/']) == Some(seq![Token::EDiv]));
        assert(keyword_tokens(seq!['/', '=']) == Some(seq![Token::PCopy(1), Token::EDiv, Token::PPop(1), Token::EEq]));
        assert(seq![Token::PCopy(1), Token::EDiv, Token::PPop(1), Token::EEq] =~= seq![Token::PCopy(1)] + seq![Token::EDiv] + seq![Token::PPop(1)] + seq![Token::EEq]);
    }
    if op == seq!['%'] {
        assert(op.push('=') == seq!['%', '=']);
        assert(keyword_tokens(seq!['%']) == Some(seq![Token::EMod]));
        assert(keyword_tokens(seq!['%', '=']) == Some(seq![Token::PCopy(1), Token::EMod, Token::PPop(1), Token::EEq]));
        assert(seq![Token::PCopy(1), Token::EMod, Token::PPop(1), Token::EEq] =~= seq![Token::PCopy(1)] + seq![Token::EMod] + seq![Token::PPop(1)] + seq![Token::EEq]);
    }
}
/// A compound assignment to memory `op=[n]` loads the value at the address,
/// applies `op` and stores the result back with the same size: it lexes to
/// `PCopy(1)`, the tokens of the load `[n]`, the tokens of `op`, `PPop(1)`,
/// then the tokens of the store `=[n]`.
#[verifier::spinoff_prover]
#[verifier::rlimit(100)]
pub proof fn lemma_memory_compound_assignment(op: Seq<char>, n: Seq<char>)
    requires
        memory_compound_operator(op),
        access_size(n),
    ensures
        keyword_tokens(op + seq!['=', '['] + n + seq![']']) == Some(
            seq![Token::PCopy(1)] + keyword_tokens(seq!['['] + n + seq![']']).unwrap()
                + keyword_tokens(op).unwrap() + seq![Token::PPop(1)] + keyword_tokens(
                seq!['=', '['] + n + seq![']'],
            ).unwrap(),
        ),
{
    lemma_vocabulary_letters();
    if op == seq!['|'] && n == Seq::<char>::empty() {
        assert(op + seq!['=', '['] + n + seq![']'] =~= seq!['|', '=', '[', ']']);
        assert(seq!['['] + n + seq![']'] =~= seq!['[', ']']);
        assert(seq!['=', '['] + n + seq![']'] =~= seq!['=', '[', ']']);
        assert(keyword_tokens(seq!['|', '=', '[', ']']) == Some(seq![Token::PCopy(1), Token::EPeek(64), Token::EOr, Token::PPop(1), Token::EPoke(64)]));
        assert(keyword_tokens(seq!['[', ']']) == Some(seq![Token::EPeek(64)]));
        assert(keyword_tokens(seq!['|']) == Some(seq![Token::EOr]));
        assert(keyword_tokens(seq!['=', '[', ']']) == Some(seq![Token::EPoke(64)]));
        assert(seq![Token::PCopy(1), Token::EPeek(64), Token::EOr, Token::PPop(1), Token::EPoke(64)] =~= seq![Token::PCopy(1)] + seq![Token::EPeek(64)] + seq![Token::EOr] + seq![Token::PPop(1)] + seq![Token::EPoke(64)]);
    }
    if op == seq!['|'] && n == seq!['1'] {
        assert(op + seq!['=', '['] + n + seq![']'] =~= seq!['|', '=', '[', '1', ']']);
        assert(seq!['['] + n + seq![']'] =~= seq!['[', '1', ']']);
        assert(seq!['=', '['] + n + seq![']'] =~= seq!['=', '[', '1', ']']);
        assert(keyword_tokens(seq!['|', '=', '[', '1', ']']) == Some(seq![Token::PCopy(1), Token::EPeek(8), Token::EOr, Token::PPop(1), Token::EPoke(8)]));
        assert(keyword_tokens(seq!['[', '1', ']']) == Some(seq![Token::EPeek(8)]));
        assert(keyword_tokens(seq!['|']) == Some(seq![Token::EOr]));
        assert(keyword_tokens(seq!['=', '[', '1', ']']) == Some(seq![Token::EPoke(8)]));
        assert(seq![Token::PCopy(1), Token::EPeek(8), Token::EOr, Token::PPop(1), Token::EPoke(8)] =~= seq![Token::PCopy(1)] + seq![Token::EPeek(8)] + seq![Token::EOr] + seq![Token::PPop(1)] + seq![Token::EPoke(8)]);
    }
    if op == seq!['|'] && n == seq!['2'] {
        assert(op + seq!['=', '['] + n + seq![']'] =~= seq!['|', '=', '[', '2', ']']);
        assert(seq!['['] + n + seq![']'] =~= seq!['[', '2', ']']);
        assert(seq!['=', '['] + n + seq![']'] =~= seq!['=', '[', '2', ']']);
        assert(keyword_tokens(seq!['|', '=', '[', '2', ']']) == Some(seq![Token::PCopy(1), Token::EPeek(16), Token::EOr, Token::PPop(1), Token::EPoke(16)]));
        assert(keyword_tokens(seq!['[', '2', ']']) == Some(seq![Token::EPeek(16)]));
        assert(keyword_tokens(seq!['|']) == Some(seq![Token::EOr]));
        assert(keyword_tokens(seq!['=', '[', '2', ']']) == Some(seq![Token::EPoke(16)]));
        assert(seq![Token::PCopy(1), Token::EPeek(16), Token::EOr, Token::PPop(1), Token::EPoke(16)] =~= seq![Token::PCopy(1)] + seq![Token::EPeek(16)] + seq![Token::EOr] + seq![Token::PPop(1)] + seq![Token::EPoke(16)]);
    }
    if op == seq!['|'] && n == seq!['4'] {
        assert(op + seq!['=', '['] + n + seq![']'] =~= seq!['|', '=', '[', '4', ']']);
        assert(seq!['['] + n + seq![']'] =~= seq!['[', '4', ']']);
        assert(seq!['=', '['] + n + seq![']'] =~= seq!['=', '[', '4', ']']);
        assert(keyword_tokens(seq!['|', '=', '[', '4', ']']) == Some(seq![Token::PCopy(1), Token::EPeek(32), Token::EOr, Token::PPop(1), Token::EPoke(32)]));
        assert(keyword_tokens(seq!['[', '4', ']']) == Some(seq![Token::EPeek(32)]));
        assert(keyword_tokens(seq!['|']) == Some(seq![Token::EOr]));
        assert(keyword_tokens(seq!['=', '[', '4', ']']) == Some(seq![Token::EPoke(32)]));
        assert(seq![Token::PCopy(1), Token::EPeek(32), Token::EOr, Token::PPop(1), Token::EPoke(32)] =~= seq![Token::PCopy(1)] + seq![Token::EPeek(32)] + seq![Token::EOr] + seq![Token::PPop(1)] + seq![Token::EPoke(32)]);
    }
    if op == seq!['|'] && n == seq!['8'] {
        assert(op + seq!['=', '['] + n + seq![']'] =~= seq!['|', '=', '[', '8', ']']);
        assert(seq!['['] + n + seq![']'] =~= seq!['[', '8', ']']);
        assert(seq!['=', '['] + n + seq![']'] =~= seq!['=', '[', '8', ']']);
        assert(keyword_tokens(seq!['|', '=', '[', '8', ']']) == Some(seq![Token::PCopy(1), Token::EPeek(64), Token::EOr, Token::PPop(1), Token::EPoke(64)]));
        assert(keyword_tokens(seq!['[', '8', ']']) == Some(seq![Token::EPeek(64)]));
        assert(keyword_tokens(seq!['|']) == Some(seq![Token::EOr]));
        assert(keyword_tokens(seq!['=', '[', '8', ']']) == Some(seq![Token::EPoke(64)]));
        assert(seq![Token::PCopy(1), Token::EPeek(64), Token::EOr, Token::PPop(1), Token::EPoke(64)] =~= seq![Token::PCopy(1)] + seq![Token::EPeek(64)] + seq![Token::EOr] + seq![Token::PPop(1)] + seq![Token::EPoke(64)]);
    }
    if op == seq!['^'] && n == Seq::<char>::empty() {
        assert(op + seq!['=', '['] + n + seq![']'] =~= seq!['^', '=', '[', ']']);
        assert(seq!['['] + n + seq![']'] =~= seq!['[', ']']);
        assert(seq!['=', '['] + n + seq![']'] =~= seq!['=', '[', ']']);
        assert(keyword_tokens(seq!['^', '=', '[', ']']) == Some(seq![Token::PCopy(1), Token::EPeek(64), Token::EXor, Token::PPop(1), Token::EPoke(64)]));
        assert(keyword_tokens(seq!['[', ']']) == Some(seq![Token::EPeek(64)]));
        assert(keyword_tokens(seq!['^']) == Some(seq![Token::EXor]));
        assert(keyword_tokens(seq!['=', '[', ']']) == Some(seq![Token::EPoke(64)]));
        assert(seq![Token::PCopy(1), Token::EPeek(64), Token::EXor, Token::PPop(1), Token::EPoke(64)] =~= seq![Token::PCopy(1)] + seq![Token::EPeek(64)] + seq![Token::EXor] + seq![Token::PPop(1)] + seq![Token::EPoke(64)]);
    }
    if op == seq!['^'] && n == seq!['1'] {
        assert(op + seq!['=', '['] + n + seq![']'] =~= seq!['^', '=', '[', '1', ']']);
        assert(seq!['['] + n + seq![']'] =~= seq!['[', '1', ']']);
        assert(seq!['=', '['] + n + seq![']'] =~= seq!['=', '[', '1', ']']);
        assert(keyword_tokens(seq!['^', '=', '[', '1', ']']) == Some(seq![Token::PCopy(1), Token::EPeek(8), Token::EXor, Token::PPop(1), Token::EPoke(8)]));
        assert(keyword_tokens(seq!['[', '1', ']']) == Some(seq![Token::EPeek(8)]));
        assert(keyword_tokens(seq!['^']) == Some(seq![Token::EXor]));
        assert(keyword_tokens(seq!['=', '[', '1', ']']) == Some(seq![Token::EPoke(8)]));
        assert(seq![Token::PCopy(1), Token::EPeek(8), Token::EXor, Token::PPop(1), Token::EPoke(8)] =~= seq![Token::PCopy(1)] + seq![Token::EPeek(8)] + seq![Token::EXor] + seq![Token::PPop(1)] + seq![Token::EPoke(8)]);
    }
    if op == seq!['^'] && n == seq!['2'] {
        assert(op + seq!['=', '['] + n + seq![']'] =~= seq!['^', '=', '[', '2', ']']);
        assert(seq!['['] + n + seq![']'] =~= seq!['[', '2', ']']);
        assert(seq!['=', '['] + n + seq![']'] =~= seq!['=', '[', '2', ']']);
        assert(keyword_tokens(seq!['^', '=', '[', '2', ']']) == Some(seq![Token::PCopy(1), Token::EPeek(16), Token::EXor, Token::PPop(1), Token::EPoke(16)]));
        assert(keyword_tokens(seq!['[', '2', ']']) == Some(seq![Token::EPeek(16)]));
        assert(keyword_tokens(seq!['^']) == Some(seq![Token::EXor]));
        assert(keyword_tokens(seq!['=', '[', '2', ']']) == Some(seq![Token::EPoke(16)]));
        assert(seq![Token::PCopy(1), Token::EPeek(16), Token::EXor, Token::PPop(1), Token::EPoke(16)] =~= seq![Token::PCopy(1)] + seq![Token::EPeek(16)] + seq![Token::EXor] + seq![Token::PPop(1)] + seq![Token::EPoke(16)]);
    }
    if op == seq!['^'] && n == seq!['4'] {
        assert(op + seq!['=', '['] + n + seq![']'] =~= seq!['^', '=', '[', '4', ']']);
        assert(seq!['['] + n + seq![']'] =~= seq!['[', '4', ']']);
        assert(seq!['=', '['] + n + seq![']'] =~= seq!['=', '[', '4', ']']);
        assert(keyword_tokens(seq!['^', '=', '[', '4', ']']) == Some(seq![Token::PCopy(1), Token::EPeek(32), Token::EXor, Token::PPop(1), Token::EPoke(32)]));
        assert(keyword_tokens(seq!['[', '4', ']']) == Some(seq![Token::EPeek(32)]));
        assert(keyword_tokens(seq!['^']) == Some(seq![Token::EXor]));
        assert(keyword_tokens(seq!['=', '[', '4', ']']) == Some(seq![Token::EPoke(32)]));
        assert(seq![Token::PCopy(1), Token::EPeek(32), Token::EXor, Token::PPop(1), Token::EPoke(32)] =~= seq![Token::PCopy(1)] + seq![Token::EPeek(32)] + seq![Token::EXor] + seq![Token::PPop(1)] + seq![Token::EPoke(32)]);
    }
    if op == seq!['^'] && n == seq!['8'] {
        assert(op + seq!['=', '['] + n + seq![']'] =~= seq!['^', '=', '[', '8', ']']);
        assert(seq!['['] + n + seq![']'] =~= seq!['[', '8', ']']);
        assert(seq!['=', '['] + n + seq![']'] =~= seq!['=', '[', '8', ']']);
        assert(keyword_tokens(seq!['^', '=', '[', '8', ']']) == Some(seq![Token::PCopy(1), Token::EPeek(64), Token::EXor, Token::PPop(1), Token::EPoke(64)]));
        assert(keyword_tokens(seq!['[', '8', ']']) == Some(seq![Token::EPeek(64)]));
        assert(keyword_tokens(seq!['^']) == Some(seq![Token::EXor]));
        assert(keyword_tokens(seq!['=', '[', '8', ']']) == Some(seq![Token::EPoke(64)]));
        assert(seq![Token::PCopy(1), Token::EPeek(64), Token::EXor, Token::PPop(1), Token::EPoke(64)] =~= seq![Token::PCopy(1)] + seq![Token::EPeek(64)] + seq![Token::EXor] + seq![Token::PPop(1)] + seq![Token::EPoke(64)]);
    }
    if op == seq!['&'] && n == Seq::<char>::empty() {
        assert(op + seq!['=', '['] + n + seq![']'] =~= seq!['&', '=', '[', ']']);
        assert(seq!['['] + n + seq![']'] =~= seq!['[', ']']);
        assert(seq!['=', '['] + n + seq![']'] =~= seq!['=', '[', ']']);
        assert(keyword_tokens(seq!['&', '=', '[', ']']) == Some(seq![Token::PCopy(1), Token::EPeek(64), Token::EAnd, Token::PPop(1), Token::EPoke(64)]));
        assert(keyword_tokens(seq!['[', ']']) == Some(seq![Token::EPeek(64)]));
        assert(keyword_tokens(seq!['&']) == Some(seq![Token::EAnd]));
        assert(keyword_tokens(seq!['=', '[', ']']) == Some(seq![Token::EPoke(64)]));
        assert(seq![Token::PCopy(1), Token::EPeek(64), Token::EAnd, Token::PPop(1), Token::EPoke(64)] =~= seq![Token::PCopy(1)] + seq![Token::EPeek(64)] + seq![Token::EAnd] + seq![Token::PPop(1)] + seq![Token::EPoke(64)]);
    }
    if op == seq!['&'] && n == seq!['1'] {
        assert(op + seq!['=', '['] + n + seq![']'] =~= seq!['&', '=', '[', '1', ']']);
        assert(seq!['['] + n + seq![']'] =~= seq!['[', '1', ']']);
        assert(seq!['=', '['] + n + seq![']'] =~= seq!['=', '[', '1', ']']);
        assert(keyword_tokens(seq!['&', '=', '[', '1', ']']) == Some(seq![Token::PCopy(1), Token::EPeek(8), Token::EAnd, Token::PPop(1), Token::EPoke(8)]));
        assert(keyword_tokens(seq!['[', '1', ']']) == Some(seq![Token::EPeek(8)]));
        assert(keyword_tokens(seq!['&']) == Some(seq![Token::EAnd]));
        assert(keyword_tokens(seq!['=', '[', '1', ']']) == Some(seq![Token::EPoke(8)]));
        assert(seq![Token::PCopy(1), Token::EPeek(8), Token::EAnd, Token::PPop(1), Token::EPoke(8)] =~= seq![Token::PCopy(1)] + seq![Token::EPeek(8)] + seq![Token::EAnd] + seq![Token::PPop(1)] + seq![Token::EPoke(8)]);
    }
    if op == seq!['&'] && n == seq!['2'] {
        assert(op + seq!['=', '['] + n + seq![']'] =~= seq!['&', '=', '[', '2', ']']);
        assert(seq!['['] + n + seq![']'] =~= seq!['[', '2', ']']);
        assert(seq!['=', '['] + n + seq![']'] =~= seq!['=', '[', '2', ']']);
        assert(keyword_tokens(seq!['&', '=', '[', '2', ']']) == Some(seq![Token::PCopy(1), Token::EPeek(16), Token::EAnd, Token::PPop(1), Token::EPoke(16)]));
        assert(keyword_tokens(seq!['[', '2', ']']) == Some(seq![Token::EPeek(16)]));
        assert(keyword_tokens(seq!['&']) == Some(seq![Token::EAnd]));
        assert(keyword_tokens(seq!['=', '[', '2', ']']) == Some(seq![Token::EPoke(16)]));
        assert(seq![Token::PCopy(1), Token::EPeek(16), Token::EAnd, Token::PPop(1), Token::EPoke(16)] =~= seq![Token::PCopy(1)] + seq![Token::EPeek(16)] + seq![Token::EAnd] + seq![Token::PPop(1)] + seq![Token::EPoke(16)]);
    }
    if op == seq!['&'] && n == seq!['4'] {
        assert(op + seq!['=', '['] + n + seq![']'] =~= seq!['&', '=', '[', '4', ']']);
        assert(seq!['['] + n + seq![']'] =~= seq!['[', '4', ']']);
        assert(seq!['=', '['] + n + seq![']'] =~= seq!['=', '[', '4', ']']);
        assert(keyword_tokens(seq!['&', '=', '[', '4', ']']) == Some(seq![Token::PCopy(1), Token::EPeek(32), Token::EAnd, Token::PPop(1), Token::EPoke(32)]));
        assert(keyword_tokens(seq!['[', '4', ']']) == Some(seq![Token::EPeek(32)]));
        assert(keyword_tokens(seq!['&']) == Some(seq![Token::EAnd]));
        assert(keyword_tokens(seq!['=', '[', '4', ']']) == Some(seq![Token::EPoke(32)]));
        assert(seq![Token::PCopy(1), Token::EPeek(32), Token::EAnd, Token::PPop(1), Token::EPoke(32)] =~= seq![Token::PCopy(1)] + seq![Token::EPeek(32)] + seq![Token::EAnd] + seq![Token::PPop(1)] + seq![Token::EPoke(32)]);
    }
    if op == seq!['&'] && n == seq!['8'] {
        assert(op + seq!['=', '['] + n + seq![']'] =~= seq!['&', '=', '[', '8', ']']);
        assert(seq!['['] + n + seq![']'] =~= seq!['[', '8', ']']);
        assert(seq!['=', '['] + n + seq![']'] =~= seq!['=', '[', '8', ']']);
        assert(keyword_tokens(seq!['&', '=', '[', '8', ']']) == Some(seq![Token::PCopy(1), Token::EPeek(64), Token::EAnd, Token::PPop(1), Token::EPoke(64)]));
        assert(keyword_tokens(seq!['[', '8', ']']) == Some(seq![Token::EPeek(64)]));
        assert(keyword_tokens(seq!['&']) == Some(seq![Token::EAnd]));
        assert(keyword_tokens(seq!['=', '[', '8', ']']) == Some(seq![Token::EPoke(64)]));
        assert(seq![Token::PCopy(1), Token::EPeek(64), Token::EAnd, Token::PPop(1), Token::EPoke(64)] =~= seq![Token::PCopy(1)] + seq![Token::EPeek(64)] + seq![Token::EAnd] + seq![Token::PPop(1)] + seq![Token::EPoke(64)]);
    }
    if op == seq!['+'] && n == Seq::<char>::empty() {
        assert(op + seq!['=', '['] + n + seq![']'] =~= seq!['+', '=', '[', ']']);
        assert(seq!['['] + n + seq![']'] =~= seq!['[', ']']);
        assert(seq!['=', '['] + n + seq![']'] =~= seq!['=', '[', ']']);
        assert(keyword_tokens(seq!['+', '=', '[', ']']) == Some(seq![Token::PCopy(1), Token::EPeek(64), Token::EAdd, Token::PPop(1), Token::EPoke(64)]));
        assert(keyword_tokens(seq!['[', ']']) == Some(seq![Token::EPeek(64)]));
        assert(keyword_tokens(seq!['+']) == Some(seq![Token::EAdd]));
        assert(keyword_tokens(seq!['=', '[', ']']) == Some(seq![Token::EPoke(64)]));
        assert(seq![Token::PCopy(1), Token::EPeek(64), Token::EAdd, Token::PPop(1), Token::EPoke(64)] =~= seq![Token::PCopy(1)] + seq![Token::EPeek(64)] + seq![Token::EAdd] + seq![Token::PPop(1)] + seq![Token::EPoke(64)]);
    }
    if op == seq!['+'] && n == seq!['1'] {
        assert(op + seq!['=', '['] + n + seq![']'] =~= seq!['+', '=', '[', '1', ']']);
        assert(seq!['['] + n + seq![']'] =~= seq!['[', '1', ']']);
        assert(seq!['=', '['] + n + seq![']'] =~= seq!['=', '[', '1', ']']);
        assert(keyword_tokens(seq!['+', '=', '[', '1', ']']) == Some(seq![Token::PCopy(1), Token::EPeek(8), Token::EAdd, Token::PPop(1), Token::EPoke(8)]));
        assert(keyword_tokens(seq!['[', '1', ']']) == Some(seq![Token::EPeek(8)]));
        assert(keyword_tokens(seq!['+']) == Some(seq![Token::EAdd]));
        assert(keyword_tokens(seq!['=', '[', '1', ']']) == Some(seq![Token::EPoke(8)]));
        assert(seq![Token::PCopy(1), Token::EPeek(8), Token::EAdd, Token::PPop(1), Token::EPoke(8)] =~= seq![Token::PCopy(1)] + seq![Token::EPeek(8)] + seq![Token::EAdd] + seq![Token::PPop(1)] + seq![Token::EPoke(8)]);
    }
    if op == seq!['+'] && n == seq!['2'] {
        assert(op + seq!['=', '['] + n + seq![']'] =~= seq!['+', '=', '[', '2', ']']);
        assert(seq!['['] + n + seq![']'] =~= seq!['[', '2', ']']);
        assert(seq!['=', '['] + n + seq![']'] =~= seq!['=', '[', '2', ']']);
        assert(keyword_tokens(seq!['+', '=', '[', '2', ']']) == Some(seq![Token::PCopy(1), Token::EPeek(16), Token::EAdd, Token::PPop(1), Token::EPoke(16)]));
        assert(keyword_tokens(seq!['[', '2', ']']) == Some(seq![Token::EPeek(16)]));
        assert(keyword_tokens(seq!['+']) == Some(seq![Token::EAdd]));
        assert(keyword_tokens(seq!['=', '[', '2', ']']) == Some(seq![Token::EPoke(16)]));
        assert(seq![Token::PCopy(1), Token::EPeek(16), Token::EAdd, Token::PPop(1), Token::EPoke(16)] =~= seq![Token::PCopy(1)] + seq![Token::EPeek(16)] + seq![Token::EAdd] + seq![Token::PPop(1)] + seq![Token::EPoke(16)]);
    }
    if op == seq!['+'] && n == seq!['4'] {
        assert(op + seq!['=', '['] + n + seq![']'] =~= seq!['+', '=', '[', '4', ']']);
        assert(seq!['['] + n + seq![']'] =~= seq!['[', '4', ']']);
        assert(seq!['=', '['] + n + seq![']'] =~= seq!['=', '[', '4', ']']);
        assert(keyword_tokens(seq!['+', '=', '[', '4', ']']) == Some(seq![Token::PCopy(1), Token::EPeek(32), Token::EAdd, Token::PPop(1), Token::EPoke(32)]));
        assert(keyword_tokens(seq!['[', '4', ']']) == Some(seq![Token::EPeek(32)]));
        assert(keyword_tokens(seq!['+']) == Some(seq![Token::EAdd]));
        assert(keyword_tokens(seq!['=', '[', '4', ']']) == Some(seq![Token::EPoke(32)]));
        assert(seq![Token::PCopy(1), Token::EPeek(32), Token::EAdd, Token::PPop(1), Token::EPoke(32)] =~= seq![Token::PCopy(1)] + seq![Token::EPeek(32)] + seq![Token::EAdd] + seq![Token::PPop(1)] + seq![Token::EPoke(32)]);
    }
    if op == seq!['+'] && n == seq!['8'] {
        assert(op + seq!['=', '['] + n + seq![']'] =~= seq!['+', '=', '[', '8', ']']);
        assert(seq!['['] + n + seq![']'] =~= seq!['[', '8', ']']);
        assert(seq!['=', '['] + n + seq![']'] =~= seq!['=', '[', '8', ']']);
        assert(keyword_tokens(seq!['+', '=', '[', '8', ']']) == Some(seq![Token::PCopy(1), Token::EPeek(64), Token::EAdd, Token::PPop(1), Token::EPoke(64)]));
        assert(keyword_tokens(seq!['[', '8', ']']) == Some(seq![Token::EPeek(64)]));
        assert(keyword_tokens(seq!['+']) == Some(seq![Token::EAdd]));
        assert(keyword_tokens(seq!['=', '[', '8', ']']) == Some(seq![Token::EPoke(64)]));
        assert(seq![Token::PCopy(1), Token::EPeek(64), Token::EAdd, Token::PPop(1), Token::EPoke(64)] =~= seq![Token::PCopy(1)] + seq![Token::EPeek(64)] + seq![Token::EAdd] + seq![Token::PPop(1)] + seq![Token::EPoke(64)]);
    }
    if op == seq!['-'] && n == Seq::<char>::empty() {
        assert(op + seq!['=', '['] + n + seq![']'] =~= seq!['-', '=', '[', ']']);
        assert(seq!['['] + n + seq![']'] =~= seq!['[', ']']);
        assert(seq!['=', '['] + n + seq![']'] =~= seq!['=', '[', ']']);
        assert(keyword_tokens(seq!['-', '=', '[', ']']) == Some(seq![Token::PCopy(1), Token::EPeek(64), Token::ESub, Token::PPop(1), Token::EPoke(64)]));
        assert(keyword_tokens(seq!['[', ']']) == Some(seq![Token::EPeek(64)]));
        assert(keyword_tokens(seq!['-']) == Some(seq![Token::ESub]));
        assert(keyword_tokens(seq!['=', '[', ']']) == Some(seq![Token::EPoke(64)]));
        assert(seq![Token::PCopy(1), Token::EPeek(64), Token::ESub, Token::PPop(1), Token::EPoke(64)] =~= seq![Token::PCopy(1)] + seq![Token::EPeek(64)] + seq![Token::ESub] + seq![Token::PPop(1)] + seq![Token::EPoke(64)]);
    }
    if op == seq!['-'] && n == seq!['1'] {
        assert(op + seq!['=', '['] + n + seq![']'] =~= seq!['-', '=', '[', '1', ']']);
        assert(seq!['['] + n + seq![']'] =~= seq!['[', '1', ']']);
        assert(seq!['=', '['] + n + seq![']'] =~= seq!['=', '[', '1', ']']);
        assert(keyword_tokens(seq!['-', '=', '[', '1', ']']) == Some(seq![Token::PCopy(1), Token::EPeek(8), Token::ESub, Token::PPop(1), Token::EPoke(8)]));
        assert(keyword_tokens(seq!['[', '1', ']']) == Some(seq![Token::EPeek(8)]));
        assert(keyword_tokens(seq!['-']) == Some(seq![Token::ESub]));
        assert(keyword_tokens(seq!['=', '[', '1', ']']) == Some(seq![Token::EPoke(8)]));
        assert(seq![Token::PCopy(1), Token::EPeek(8), Token::ESub, Token::PPop(1), Token::EPoke(8)] =~= seq![Token::PCopy(1)] + seq![Token::EPeek(8)] + seq![Token::ESub] + seq![Token::PPop(1)] + seq![Token::EPoke(8)]);
    }
    if op == seq!['-'] && n == seq!['2'] {
        assert(op + seq!['=', '['] + n + seq![']'] =~= seq!['-', '=', '[', '2', ']']);
        assert(seq!['['] + n + seq![']'] =~= seq!['[', '2', ']']);
        assert(seq!['=', '['] + n + seq![']'] =~= seq!['=', '[', '2', ']']);
        assert(keyword_tokens(seq!['-', '=', '[', '2', ']']) == Some(seq![Token::PCopy(1), Token::EPeek(16), Token::ESub, Token::PPop(1), Token::EPoke(16)]));
        assert(keyword_tokens(seq!['[', '2', ']']) == Some(seq![Token::EPeek(16)]));
        assert(keyword_tokens(seq!['-']) == Some(seq![Token::ESub]));
        assert(keyword_tokens(seq!['=', '[', '2', ']']) == Some(seq![Token::EPoke(16)]));
        assert(seq![Token::PCopy(1), Token::EPeek(16), Token::ESub, Token::PPop(1), Token::EPoke(16)] =~= seq![Token::PCopy(1)] + seq![Token::EPeek(16)] + seq![Token::ESub] + seq![Token::PPop(1)] + seq![Token::EPoke(16)]);
    }
    if op == seq!['-'] && n == seq!['4'] {
        assert(op + seq!['=', '['] + n + seq![']'] =~= seq!['-', '=', '[', '4', ']']);
        assert(seq!['['] + n + seq![']'] =~= seq!['[', '4', ']']);
        assert(seq!['=', '['] + n + seq![']'] =~= seq!['=', '[', '4', ']']);
        assert(keyword_tokens(seq!['-', '=', '[', '4', ']']) == Some(seq![Token::PCopy(1), Token::EPeek(32), Token::ESub, Token::PPop(1), Token::EPoke(32)]));
        assert(keyword_tokens(seq!['[', '4', ']']) == Some(seq![Token::EPeek(32)]));
        assert(keyword_tokens(seq!['-']) == Some(seq![Token::ESub]));
        assert(keyword_tokens(seq!['=', '[', '4', ']']) == Some(seq![Token::EPoke(32)]));
        assert(seq![Token::PCopy(1), Token::EPeek(32), Token::ESub, Token::PPop(1), Token::EPoke(32)] =~= seq![Token::PCopy(1)] + seq![Token::EPeek(32)] + seq![Token::ESub] + seq![Token::PPop(1)] + seq![Token::EPoke(32)]);
    }
    if op == seq!['-'] && n == seq!['8'] {
        assert(op + seq!['=', '['] + n + seq![']'] =~= seq!['-', '=', '[', '8', ']']);
        assert(seq!['['] + n + seq![']'] =~= seq!['[', '8', ']']);
        assert(seq!['=', '['] + n + seq![']'] =~= seq!['=', '[', '8', ']']);
        assert(keyword_tokens(seq!['-', '=', '[', '8', ']']) == Some(seq![Token::PCopy(1), Token::EPeek(64), Token::ESub, Token::PPop(1), Token::EPoke(64)]));
        assert(keyword_tokens(seq!['[', '8', ']']) == Some(seq![Token::EPeek(64)]));
        assert(keyword_tokens(seq!['-']) == Some(seq![Token::ESub]));
        assert(keyword_tokens(seq!['=', '[', '8', ']']) == Some(seq![Token::EPoke(64)]));
        assert(seq![Token::PCopy(1), Token::EPeek(64), Token::ESub, Token::PPop(1), Token::EPoke(64)] =~= seq![Token::PCopy(1)] + seq![Token::EPeek(64)] + seq![Token::ESub] + seq![Token::PPop(1)] + seq![Token::EPoke(64)]);
    }
    if op == seq!['%'] && n == Seq::<char>::empty() {
        assert(op + seq!['=', '['] + n + seq![']'] =~= seq!['%', '=', '[', ']']);
        assert(seq!['['] + n + seq![']'] =~= seq!['[', ']']);
        assert(seq!['=', '['] + n + seq![']'] =~= seq!['=', '[', ']']);
        assert(keyword_tokens(seq!['%', '=', '[', ']']) == Some(seq![Token::PCopy(1), Token::EPeek(64), Token::EMod, Token::PPop(1), Token::EPoke(64)]));
        assert(keyword_tokens(seq!['[', ']']) == Some(seq![Token::EPeek(64)]));
        assert(keyword_tokens(seq!['%']) == Some(seq![Token::EMod]));
        assert(keyword_tokens(seq!['=', '[', ']']) == Some(seq![Token::EPoke(64)]));
        assert(seq![Token::PCopy(1), Token::EPeek(64), Token::EMod, Token::PPop(1), Token::EPoke(64)] =~= seq![Token::PCopy(1)] + seq![Token::EPeek(64)] + seq![Token::EMod] + seq![Token::PPop(1)] + seq![Token::EPoke(64)]);
    }
    if op == seq!['%'] && n == seq!['1'] {
        assert(op + seq!['=', '['] + n + seq![']'] =~= seq!['%', '=', '[', '1', ']']);
        assert(seq!['['] + n + seq![']'] =~= seq!['[', '1', ']']);
        assert(seq!['=', '['] + n + seq![']'] =~= seq!['=', '[', '1', ']']);
        assert(keyword_tokens(seq!['%', '=', '[', '1', ']']) == Some(seq![Token::PCopy(1), Token::EPeek(8), Token::EMod, Token::PPop(1), Token::EPoke(8)]));
        assert(keyword_tokens(seq!['[', '1', ']']) == Some(seq![Token::EPeek(8)]));
        assert(keyword_tokens(seq!['%']) == Some(seq![Token::EMod]));
        assert(keyword_tokens(seq!['=', '[', '1', ']']) == Some(seq![Token::EPoke(8)]));
        assert(seq![Token::PCopy(1), Token::EPeek(8), Token::EMod, Token::PPop(1), Token::EPoke(8)] =~= seq![Token::PCopy(1)] + seq![Token::EPeek(8)] + seq![Token::EMod] + seq![Token::PPop(1)] + seq![Token::EPoke(8)]);
    }
    if op == seq!['%'] && n == seq!['2'] {
        assert(op + seq!['=', '['] + n + seq![']'] =~= seq!['%', '=', '[', '2', ']']);
        assert(seq!['['] + n + seq![']'] =~= seq!['[', '2', ']']);
        assert(seq!['=', '['] + n + seq![']'] =~= seq!['=', '[', '2', ']']);
        assert(keyword_tokens(seq!['%', '=', '[', '2', ']']) == Some(seq![Token::PCopy(1), Token::EPeek(16), Token::EMod, Token::PPop(1), Token::EPoke(16)]));
        assert(keyword_tokens(seq!['[', '2', ']']) == Some(seq![Token::EPeek(16)]));
        assert(keyword_tokens(seq!['%']) == Some(seq![Token::EMod]));
        assert(keyword_tokens(seq!['=', '[', '2', ']']) == Some(seq![Token::EPoke(16)]));
        assert(seq![Token::PCopy(1), Token::EPeek(16), Token::EMod, Token::PPop(1), Token::EPoke(16)] =~= seq![Token::PCopy(1)] + seq![Token::EPeek(16)] + seq![Token::EMod] + seq![Token::PPop(1)] + seq![Token::EPoke(16)]);
    }
    if op == seq!['%'] && n == seq!['4'] {
        assert(op + seq!['=', '['] + n + seq![']'] =~= seq!['%', '=', '[', '4', ']']);
        assert(seq!['['] + n + seq![']'] =~= seq!['[', '4', ']']);
        assert(seq!['=', '['] + n + seq![']'] =~= seq!['=', '[', '4', ']']);
        assert(keyword_tokens(seq!['%', '=', '[', '4', ']']) == Some(seq![Token::PCopy(1), Token::EPeek(32), Token::EMod, Token::PPop(1), Token::EPoke(32)]));
        assert(keyword_tokens(seq!['[', '4', ']']) == Some(seq![Token::EPeek(32)]));
        assert(keyword_tokens(seq!['%']) == Some(seq![Token::EMod]));
        assert(keyword_tokens(seq!['=', '[', '4', ']']) == Some(seq![Token::EPoke(32)]));
        assert(seq![Token::PCopy(1), Token::EPeek(32), Token::EMod, Token::PPop(1), Token::EPoke(32)] =~= seq![Token::PCopy(1)] + seq![Token::EPeek(32)] + seq![Token::EMod] + seq![Token::PPop(1)] + seq![Token::EPoke(32)]);
    }
    if op == seq!['%'] && n == seq!['8'] {
        assert(op + seq!['=', '['] + n + seq![']'] =~= seq!['%', '=', '[', '8', ']']);
        assert(seq!['['] + n + seq![']'] =~= seq!['[', '8', ']']);
        assert(seq!['=', '['] + n + seq![']'] =~= seq!['=', '[', '8', ']']);
        assert(keyword_tokens(seq!['%', '=', '[', '8', ']']) == Some(seq![Token::PCopy(1), Token::EPeek(64), Token::EMod, Token::PPop(1), Token::EPoke(64)]));
        assert(keyword_tokens(seq!['[', '8', ']']) == Some(seq![Token::EPeek(64)]));
        assert(keyword_tokens(seq!['%']) == Some(seq![Token::EMod]));
        assert(keyword_tokens(seq!['=', '[', '8', ']']) == Some(seq![Token::EPoke(64)]));
        assert(seq![Token::PCopy(1), Token::EPeek(64), Token::EMod, Token::PPop(1), Token::EPoke(64)] =~= seq![Token::PCopy(1)] + seq![Token::EPeek(64)] + seq![Token::EMod] + seq![Token::PPop(1)] + seq![Token::EPoke(64)]);
    }
    if op == seq!['/'] && n == Seq::<char>::empty() {
        assert(op + seq!['=', '['] + n + seq![']'] =~= seq!['/', '=', '[', ']']);
        assert(seq!['['] + n + seq![']'] =~= seq!['[', ']']);
        assert(seq!['=', '['] + n + seq![']'] =~= seq!['=', '[', ']']);
        assert(keyword_tokens(seq!['/', '=', '[', ']']) == Some(seq![Token::PCopy(1), Token::EPeek(64), Token::EDiv, Token::PPop(1), Token::EPoke(64)]));
        assert(keyword_tokens(seq!['[', ']']) == Some(seq![Token::EPeek(64)]));
        assert(keyword_tokens(seq!['/']) == Some(seq![Token::EDiv]));
        assert(keyword_tokens(seq!['=', '[', ']']) == Some(seq![Token::EPoke(64)]));
        assert(seq![Token::PCopy(1), Token::EPeek(64), Token::EDiv, Token::PPop(1), Token::EPoke(64)] =~= seq![Token::PCopy(1)] + seq![Token::EPeek(64)] + seq![Token::EDiv] + seq![Token::PPop(1)] + seq![Token::EPoke(64)]);
    }
    if op == seq!['/'] && n == seq!['1'] {
        assert(op + seq!['=', '['] + n + seq![']'] =~= seq!['/', '=', '[', '1', ']']);
        assert(seq!['['] + n + seq![']'] =~= seq!['[', '1', ']']);
        assert(seq!['=', '['] + n + seq![']'] =~= seq!['=', '[', '1', ']']);
        assert(keyword_tokens(seq!['/', '=', '[', '1', ']']) == Some(seq![Token::PCopy(1), Token::EPeek(8), Token::EDiv, Token::PPop(1), Token::EPoke(8)]));
        assert(keyword_tokens(seq!['[', '1', ']']) == Some(seq![Token::EPeek(8)]));
        assert(keyword_tokens(seq!['/']) == Some(seq![Token::EDiv]));
        assert(keyword_tokens(seq!['=', '[', '1', ']']) == Some(seq![Token::EPoke(8)]));
        assert(seq![Token::PCopy(1), Token::EPeek(8), Token::EDiv, Token::PPop(1), Token::EPoke(8)] =~= seq![Token::PCopy(1)] + seq![Token::EPeek(8)] + seq![Token::EDiv] + seq![Token::PPop(1)] + seq![Token::EPoke(8)]);
    }
    if op == seq!['/'] && n == seq!['2'] {
        assert(op + seq!['=', '['] + n + seq![']'] =~= seq!['/', '=', '[', '2', ']']);
        assert(seq!['['] + n + seq![']'] =~= seq!['[', '2', ']']);
        assert(seq!['=', '['] + n + seq![']'] =~= seq!['=', '[', '2', ']']);
        assert(keyword_tokens(seq!['/', '=', '[', '2', ']']) == Some(seq![Token::PCopy(1), Token::EPeek(16), Token::EDiv, Token::PPop(1), Token::EPoke(16)]));
        assert(keyword_tokens(seq!['[', '2', ']']) == Some(seq![Token::EPeek(16)]));
        assert(keyword_tokens(seq!['/']) == Some(seq![Token::EDiv]));
        assert(keyword_tokens(seq!['=', '[', '2', ']']) == Some(seq![Token::EPoke(16)]));
        assert(seq![Token::PCopy(1), Token::EPeek(16), Token::EDiv, Token::PPop(1), Token::EPoke(16)] =~= seq![Token::PCopy(1)] + seq![Token::EPeek(16)] + seq![Token::EDiv] + seq![Token::PPop(1)] + seq![Token::EPoke(16)]);
    }
    if op == seq!['/'] && n == seq!['4'] {
        assert(op + seq!['=', '['] + n + seq![']'] =~= seq!['/', '=', '[', '4', ']']);
        assert(seq!['['] + n + seq![']'] =~= seq!['[', '4', ']']);
        assert(seq!['=', '['] + n + seq![']'] =~= seq!['=', '[', '4', ']']);
        assert(keyword_tokens(seq!['/', '=', '[', '4', ']']) == Some(seq![Token::PCopy(1), Token::EPeek(32), Token::EDiv, Token::PPop(1), Token::EPoke(32)]));
        assert(keyword_tokens(seq!['[', '4', ']']) == Some(seq![Token::EPeek(32)]));
        assert(keyword_tokens(seq!['/']) == Some(seq![Token::EDiv]));
        assert(keyword_tokens(seq!['=', '[', '4', ']']) == Some(seq![Token::EPoke(32)]));
        assert(seq![Token::PCopy(1), Token::EPeek(32), Token::EDiv, Token::PPop(1), Token::EPoke(32)] =~= seq![Token::PCopy(1)] + seq![Token::EPeek(32)] + seq![Token::EDiv] + seq![Token::PPop(1)] + seq![Token::EPoke(32)]);
    }
    if op == seq!['/'] && n == seq!['8'] {
        assert(op + seq!['=', '['] + n + seq![']'] =~= seq!['/', '=', '[', '8', ']']);
        assert(seq!['['] + n + seq![']'] =~= seq!['[', '8', ']']);
        assert(seq!['=', '['] + n + seq![']'] =~= seq!['=', '[', '8', ']']);
        assert(keyword_tokens(seq!['/', '=', '[', '8', ']']) == Some(seq![Token::PCopy(1), Token::EPeek(64), Token::EDiv, Token::PPop(1), Token::EPoke(64)]));
        assert(keyword_tokens(seq!['[', '8', ']']) == Some(seq![Token::EPeek(64)]));
        assert(keyword_tokens(seq!['/']) == Some(seq![Token::EDiv]));
        assert(keyword_tokens(seq!['=', '[', '8', ']']) == Some(seq![Token::EPoke(64)]));
        assert(seq![Token::PCopy(1), Token::EPeek(64), Token::EDiv, Token::PPop(1), Token::EPoke(64)] =~= seq![Token::PCopy(1)] + seq![Token::EPeek(64)] + seq![Token::EDiv] + seq![Token::PPop(1)] + seq![Token::EPoke(64)]);
    }
    if op == seq!['*'] && n == Seq::<char>::empty() {
        assert(op + seq!['=', '['] + n + seq![']'] =~= seq!['*', '=', '[', ']']);
        assert(seq!['['] + n + seq![']'] =~= seq!['[', ']']);
        assert(seq!['=', '['] + n + seq![']'] =~= seq!['=', '[', ']']);
        assert(keyword_tokens(seq!['*', '=', '[', ']']) == Some(seq![Token::PCopy(1), Token::EPeek(64), Token::EMul, Token::PPop(1), Token::EPoke(64)]));
        assert(keyword_tokens(seq!['[', ']']) == Some(seq![Token::EPeek(64)]));
        assert(keyword_tokens(seq!['*']) == Some(seq![Token::EMul]));
        assert(keyword_tokens(seq!['=', '[', ']']) == Some(seq![Token::EPoke(64)]));
        assert(seq![Token::PCopy(1), Token::EPeek(64), Token::EMul, Token::PPop(1), Token::EPoke(64)] =~= seq![Token::PCopy(1)] + seq![Token::EPeek(64)] + seq![Token::EMul] + seq![Token::PPop(1)] + seq![Token::EPoke(64)]);
    }
    if op == seq!['*'] && n == seq!['1'] {
        assert(op + seq!['=', '['] + n + seq![']'] =~= seq!['*', '=', '[', '1', ']']);
        assert(seq!['['] + n + seq![']'] =~= seq!['[', '1', ']']);
        assert(seq!['=', '['] + n + seq![']'] =~= seq!['=', '[', '1', ']']);
        assert(keyword_tokens(seq!['*', '=', '[', '1', ']']) == Some(seq![Token::PCopy(1), Token::EPeek(8), Token::EMul, Token::PPop(1), Token::EPoke(8)]));
        assert(keyword_tokens(seq!['[', '1', ']']) == Some(seq![Token::EPeek(8)]));
        assert(keyword_tokens(seq!['*']) == Some(seq![Token::EMul]));
        assert(keyword_tokens(seq!['=', '[', '1', ']']) == Some(seq![Token::EPoke(8)]));
        assert(seq![Token::PCopy(1), Token::EPeek(8), Token::EMul, Token::PPop(1), Token::EPoke(8)] =~= seq![Token::PCopy(1)] + seq![Token::EPeek(8)] + seq![Token::EMul] + seq![Token::PPop(1)] + seq![Token::EPoke(8)]);
    }
    if op == seq!['*'] && n == seq!['2'] {
        assert(op + seq!['=', '['] + n + seq![']'] =~= seq!['*', '=', '[', '2', ']']);
        assert(seq!['['] + n + seq![']'] =~= seq!['[', '2', ']']);
        assert(seq!['=', '['] + n + seq![']'] =~= seq!['=', '[', '2', ']']);
        assert(keyword_tokens(seq!['*', '=', '[', '2', ']']) == Some(seq![Token::PCopy(1), Token::EPeek(16), Token::EMul, Token::PPop(1), Token::EPoke(16)]));
        assert(keyword_tokens(seq!['[', '2', ']']) == Some(seq![Token::EPeek(16)]));
        assert(keyword_tokens(seq!['*']) == Some(seq![Token::EMul]));
        assert(keyword_tokens(seq!['=', '[', '2', ']']) == Some(seq![Token::EPoke(16)]));
        assert(seq![Token::PCopy(1), Token::EPeek(16), Token::EMul, Token::PPop(1), Token::EPoke(16)] =~= seq![Token::PCopy(1)] + seq![Token::EPeek(16)] + seq![Token::EMul] + seq![Token::PPop(1)] + seq![Token::EPoke(16)]);
    }
    if op == seq!['*'] && n == seq!['4'] {
        assert(op + seq!['=', '['] + n + seq![']'] =~= seq!['*', '=', '[', '4', ']']);
        assert(seq!['['] + n + seq![']'] =~= seq!['[', '4', ']']);
        assert(seq!['=', '['] + n + seq![']'] =~= seq!['=', '[', '4', ']']);
        assert(keyword_tokens(seq!['*', '=', '[', '4', ']']) == Some(seq![Token::PCopy(1), Token::EPeek(32), Token::EMul, Token::PPop(1), Token::EPoke(32)]));
        assert(keyword_tokens(seq!['[', '4', ']']) == Some(seq![Token::EPeek(32)]));
        assert(keyword_tokens(seq!['*']) == Some(seq![Token::EMul]));
        assert(keyword_tokens(seq!['=', '[', '4', ']']) == Some(seq![Token::EPoke(32)]));
        assert(seq![Token::PCopy(1), Token::EPeek(32), Token::EMul, Token::PPop(1), Token::EPoke(32)] =~= seq![Token::PCopy(1)] + seq![Token::EPeek(32)] + seq![Token::EMul] + seq![Token::PPop(1)] + seq![Token::EPoke(32)]);
    }
    if op == seq!['*'] && n == seq!['8'] {
        assert(op + seq!['=', '['] + n + seq![']'] =~= seq!['*', '=', '[', '8', ']']);
        assert(seq!['['] + n + seq![']'] =~= seq!['[', '8', ']']);
        assert(seq!['=', '['] + n + seq![']'] =~= seq!['=', '[', '8', ']']);
        assert(keyword_tokens(seq!['*', '=', '[', '8', ']']) == Some(seq![Token::PCopy(1), Token::EPeek(64), Token::EMul, Token::PPop(1), Token::EPoke(64)]));
        assert(keyword_tokens(seq!['[', '8', ']']) == Some(seq![Token::EPeek(64)]));
        assert(keyword_tokens(seq!['*']) == Some(seq![Token::EMul]));
        assert(keyword_tokens(seq!['=', '[', '8', ']']) == Some(seq![Token::EPoke(64)]));
        assert(seq![Token::PCopy(1), Token::EPeek(64), Token::EMul, Token::PPop(1), Token::EPoke(64)] =~= seq![Token::PCopy(1)] + seq![Token::EPeek(64)] + seq![Token::EMul] + seq![Token::PPop(1)] + seq![Token::EPoke(64)]);
    }
    if op == seq!['+', '+'] && n == Seq::<char>::empty() {
        assert(op + seq!['=', '['] + n + seq![']'] =~= seq!['+', '+', '=', '[', ']']);
        assert(seq!['['] + n + seq![']'] =~= seq!['[', ']']);
        assert(seq!['=', '['] + n + seq![']'] =~= seq!['=', '[', ']']);
        assert(keyword_tokens(seq!['+', '+', '=', '[', ']']) == Some(seq![Token::PCopy(1), Token::EPeek(64), Token::PCopy(1), Token::EPop, Token::EConstant(1), Token::PPop(1), Token::EAdd, Token::PPop(1), Token::EPoke(64)]));
        assert(keyword_tokens(seq!['[', ']']) == Some(seq![Token::EPeek(64)]));
        assert(keyword_tokens(seq!['+', '+']) == Some(seq![Token::PCopy(1), Token::EPop, Token::EConstant(1), Token::PPop(1), Token::EAdd]));
        assert(keyword_tokens(seq!['=', '[', ']']) == Some(seq![Token::EPoke(64)]));
        assert(seq![Token::PCopy(1), Token::EPeek(64), Token::PCopy(1), Token::EPop, Token::EConstant(1), Token::PPop(1), Token::EAdd, Token::PPop(1), Token::EPoke(64)] =~= seq![Token::PCopy(1)] + seq![Token::EPeek(64)] + seq![Token::PCopy(1), Token::EPop, Token::EConstant(1), Token::PPop(1), Token::EAdd] + seq![Token::PPop(1)] + seq![Token::EPoke(64)]);
    }
    if op == seq!['+', '+'] && n == seq!['1'] {
        assert(op + seq!['=', '['] + n + seq![']'] =~= seq!['+', '+', '=', '[', '1', ']']);
        assert(seq!['['] + n + seq![']'] =~= seq!['[', '1', ']']);
        assert(seq!['=', '['] + n + seq![']'] =~= seq!['=', '[', '1', ']']);
        assert(keyword_tokens(seq!['+', '+', '=', '[', '1', ']']) == Some(seq![Token::PCopy(1), Token::EPeek(8), Token::PCopy(1), Token::EPop, Token::EConstant(1), Token::PPop(1), Token::EAdd, Token::PPop(1), Token::EPoke(8)]));
        assert(keyword_tokens(seq!['[', '1', ']']) == Some(seq![Token::EPeek(8)]));
        assert(keyword_tokens(seq!['+', '+']) == Some(seq![Token::PCopy(1), Token::EPop, Token::EConstant(1), Token::PPop(1), Token::EAdd]));
        assert(keyword_tokens(seq!['=', '[', '1', ']']) == Some(seq![Token::EPoke(8)]));
        assert(seq![Token::PCopy(1), Token::EPeek(8), Token::PCopy(1), Token::EPop, Token::EConstant(1), Token::PPop(1), Token::EAdd, Token::PPop(1), Token::EPoke(8)] =~= seq![Token::PCopy(1)] + seq![Token::EPeek(8)] + seq![Token::PCopy(1), Token::EPop, Token::EConstant(1), Token::PPop(1), Token::EAdd] + seq![Token::PPop(1)] + seq![Token::EPoke(8)]);
    }
    if op == seq!['+', '+'] && n == seq!['2'] {
        assert(op + seq!['=', '['] + n + seq![']'] =~= seq!['+', '+', '=', '[', '2', ']']);
        assert(seq!['['] + n + seq![']'] =~= seq!['[', '2', ']']);
        assert(seq!['=', '['] + n + seq![']'] =~= seq!['=', '[', '2', ']']);
        assert(keyword_tokens(seq!['+', '+', '=', '[', '2', ']']) == Some(seq![Token::PCopy(1), Token::EPeek(16), Token::PCopy(1), Token::EPop, Token::EConstant(1), Token::PPop(1), Token::EAdd, Token::PPop(1), Token::EPoke(16)]));
        assert(keyword_tokens(seq!['[', '2', ']']) == Some(seq![Token::EPeek(16)]));
        assert(keyword_tokens(seq!['+', '+']) == Some(seq![Token::PCopy(1), Token::EPop, Token::EConstant(1), Token::PPop(1), Token::EAdd]));
        assert(keyword_tokens(seq!['=', '[', '2', ']']) == Some(seq![Token::EPoke(16)]));
        assert(seq![Token::PCopy(1), Token::EPeek(16), Token::PCopy(1), Token::EPop, Token::EConstant(1), Token::PPop(1), Token::EAdd, Token::PPop(1), Token::EPoke(16)] =~= seq![Token::PCopy(1)] + seq![Token::EPeek(16)] + seq![Token::PCopy(1), Token::EPop, Token::EConstant(1), Token::PPop(1), Token::EAdd] + seq![Token::PPop(1)] + seq![Token::EPoke(16)]);
    }
    if op == seq!['+', '+'] && n == seq!['4'] {
        assert(op + seq!['=', '['] + n + seq![']'] =~= seq!['+', '+', '=', '[', '4', ']']);
        assert(seq!['['] + n + seq![']'] =~= seq!['[', '4', ']']);
        assert(seq!['=', '['] + n + seq![']'] =~= seq!['=', '[', '4', ']']);
        assert(keyword_tokens(seq!['+', '+', '=', '[', '4', ']']) == Some(seq![Token::PCopy(1), Token::EPeek(32), Token::PCopy(1), Token::EPop, Token::EConstant(1), Token::PPop(1), Token::EAdd, Token::PPop(1), Token::EPoke(32)]));
        assert(keyword_tokens(seq!['[', '4', ']']) == Some(seq![Token::EPeek(32)]));
        assert(keyword_tokens(seq!['+', '+']) == Some(seq![Token::PCopy(1), Token::EPop, Token::EConstant(1), Token::PPop(1), Token::EAdd]));
        assert(keyword_tokens(seq!['=', '[', '4', ']']) == Some(seq![Token::EPoke(32)]));
        assert(seq![Token::PCopy(1), Token::EPeek(32), Token::PCopy(1), Token::EPop, Token::EConstant(1), Token::PPop(1), Token::EAdd, Token::PPop(1), Token::EPoke(32)] =~= seq![Token::PCopy(1)] + seq![Token::EPeek(32)] + seq![Token::PCopy(1), Token::EPop, Token::EConstant(1), Token::PPop(1), Token::EAdd] + seq![Token::PPop(1)] + seq![Token::EPoke(32)]);
    }
    if op == seq!['+', '+'] && n == seq!['8'] {
        assert(op + seq!['=', '['] + n + seq![']'] =~= seq!['+', '+', '=', '[', '8', ']']);
        assert(seq!['['] + n + seq![']'] =~= seq!['[', '8', ']']);
        assert(seq!['=', '['] + n + seq![']'] =~= seq!['=', '[', '8', ']']);
        assert(keyword_tokens(seq!['+', '+', '=', '[', '8', ']']) == Some(seq![Token::PCopy(1), Token::EPeek(64), Token::PCopy(1), Token::EPop, Token::EConstant(1), Token::PPop(1), Token::EAdd, Token::PPop(1), Token::EPoke(64)]));
        assert(keyword_tokens(seq!['[', '8', ']']) == Some(seq![Token::EPeek(64)]));
        assert(keyword_tokens(seq!['+', '+']) == Some(seq![Token::PCopy(1), Token::EPop, Token::EConstant(1), Token::PPop(1), Token::EAdd]));
        assert(keyword_tokens(seq!['=', '[', '8', ']']) == Some(seq![Token::EPoke(64)]));
        assert(seq![Token::PCopy(1), Token::EPeek(64), Token::PCopy(1), Token::EPop, Token::EConstant(1), Token::PPop(1), Token::EAdd, Token::PPop(1), Token::EPoke(64)] =~= seq![Token::PCopy(1)] + seq![Token::EPeek(64)] + seq![Token::PCopy(1), Token::EPop, Token::EConstant(1), Token::PPop(1), Token::EAdd] + seq![Token::PPop(1)] + seq![Token::EPoke(64)]);
    }
    if op == seq!['-', '-'] && n == Seq::<char>::empty() {
        assert(op + seq!['=', '['] + n + seq![']'] =~= seq!['-', '-', '=', '[', ']']);
        assert(seq!['['] + n + seq![']'] =~= seq!['[', ']']);
        assert(seq!['=', '['] + n + seq![']'] =~= seq!['=', '[', ']']);
        assert(keyword_tokens(seq!['-', '-', '=', '[', ']']) == Some(seq![Token::PCopy(1), Token::EPeek(64), Token::PCopy(1), Token::EPop, Token::EConstant(1), Token::PPop(1), Token::ESub, Token::PPop(1), Token::EPoke(64)]));
        assert(keyword_tokens(seq!['[', ']']) == Some(seq![Token::EPeek(64)]));
        assert(keyword_tokens(seq!['-', '-']) == Some(seq![Token::PCopy(1), Token::EPop, Token::EConstant(1), Token::PPop(1), Token::ESub]));
        assert(keyword_tokens(seq!['=', '[', ']']) == Some(seq![Token::EPoke(64)]));
        assert(seq![Token::PCopy(1), Token::EPeek(64), Token::PCopy(1), Token::EPop, Token::EConstant(1), Token::PPop(1), Token::ESub, Token::PPop(1), Token::EPoke(64)] =~= seq![Token::PCopy(1)] + seq![Token::EPeek(64)] + seq![Token::PCopy(1), Token::EPop, Token::EConstant(1), Token::PPop(1), Token::ESub] + seq![Token::PPop(1)] + seq![Token::EPoke(64)]);
    }
    if op == seq!['-', '-'] && n == seq!['1'] {
        assert(op + seq!['=', '['] + n + seq![']'] =~= seq!['-', '-', '=', '[', '1', ']']);
        assert(seq!['['] + n + seq![']'] =~= seq!['[', '1', ']']);
        assert(seq!['=', '['] + n + seq![']'] =~= seq!['=', '[', '1', ']']);
        assert(keyword_tokens(seq!['-', '-', '=', '[', '1', ']']) == Some(seq![Token::PCopy(1), Token::EPeek(8), Token::PCopy(1), Token::EPop, Token::EConstant(1), Token::PPop(1), Token::ESub, Token::PPop(1), Token::EPoke(8)]));
        assert(keyword_tokens(seq!['[', '1', ']']) == Some(seq![Token::EPeek(8)]));
        assert(keyword_tokens(seq!['-', '-']) == Some(seq![Token::PCopy(1), Token::EPop, Token::EConstant(1), Token::PPop(1), Token::ESub]));
        assert(keyword_tokens(seq!['=', '[', '1', ']']) == Some(seq![Token::EPoke(8)]));
        assert(seq![Token::PCopy(1), Token::EPeek(8), Token::PCopy(1), Token::EPop, Token::EConstant(1), Token::PPop(1), Token::ESub, Token::PPop(1), Token::EPoke(8)] =~= seq![Token::PCopy(1)] + seq![Token::EPeek(8)] + seq![Token::PCopy(1), Token::EPop, Token::EConstant(1), Token::PPop(1), Token::ESub] + seq![Token::PPop(1)] + seq![Token::EPoke(8)]);
    }
    if op == seq!['-', '-'] && n == seq!['2'] {
        assert(op + seq!['=', '['] + n + seq![']'] =~= seq!['-', '-', '=', '[', '2', ']']);
        assert(seq!['['] + n + seq![']'] =~= seq!['[', '2', ']']);
        assert(seq!['=', '['] + n + seq![']'] =~= seq!['=', '[', '2', ']']);
        assert(keyword_tokens(seq!['-', '-', '=', '[', '2', ']']) == Some(seq![Token::PCopy(1), Token::EPeek(16), Token::PCopy(1), Token::EPop, Token::EConstant(1), Token::PPop(1), Token::ESub, Token::PPop(1), Token::EPoke(16)]));
        assert(keyword_tokens(seq!['[', '2', ']']) == Some(seq![Token::EPeek(16)]));
        assert(keyword_tokens(seq!['-', '-']) == Some(seq![Token::PCopy(1), Token::EPop, Token::EConstant(1), Token::PPop(1), Token::ESub]));
        assert(keyword_tokens(seq!['=', '[', '2', ']']) == Some(seq![Token::EPoke(16)]));
        assert(seq![Token::PCopy(1), Token::EPeek(16), Token::PCopy(1), Token::EPop, Token::EConstant(1), Token::PPop(1), Token::ESub, Token::PPop(1), Token::EPoke(16)] =~= seq![Token::PCopy(1)] + seq![Token::EPeek(16)] + seq![Token::PCopy(1), Token::EPop, Token::EConstant(1), Token::PPop(1), Token::ESub] + seq![Token::PPop(1)] + seq![Token::EPoke(16)]);
    }
    if op == seq!['-', '-'] && n == seq!['4'] {
        assert(op + seq!['=', '['] + n + seq![']'] =~= seq!['-', '-', '=', '[', '4', ']']);
        assert(seq!['['] + n + seq![']'] =~= seq!['[', '4', ']']);
        assert(seq!['=', '['] + n + seq![']'] =~= seq!['=', '[', '4', ']']);
        assert(keyword_tokens(seq!['-', '-', '=', '[', '4', ']']) == Some(seq![Token::PCopy(1), Token::EPeek(32), Token::PCopy(1), Token::EPop, Token::EConstant(1), Token::PPop(1), Token::ESub, Token::PPop(1), Token::EPoke(32)]));
        assert(keyword_tokens(seq!['[', '4', ']']) == Some(seq![Token::EPeek(32)]));
        assert(keyword_tokens(seq!['-', '-']) == Some(seq![Token::PCopy(1), Token::EPop, Token::EConstant(1), Token::PPop(1), Token::ESub]));
        assert(keyword_tokens(seq!['=', '[', '4', ']']) == Some(seq![Token::EPoke(32)]));
        assert(seq![Token::PCopy(1), Token::EPeek(32), Token::PCopy(1), Token::EPop, Token::EConstant(1), Token::PPop(1), Token::ESub, Token::PPop(1), Token::EPoke(32)] =~= seq![Token::PCopy(1)] + seq![Token::EPeek(32)] + seq![Token::PCopy(1), Token::EPop, Token::EConstant(1), Token::PPop(1), Token::ESub] + seq![Token::PPop(1)] + seq![Token::EPoke(32)]);
    }
    if op == seq!['-', '-'] && n == seq!['8'] {
        assert(op + seq!['=', '['] + n + seq![']'] =~= seq!['-', '-', '=', '[', '8', ']']);
        assert(seq!['['] + n + seq![']'] =~= seq!['[', '8', ']']);
        assert(seq!['=', '['] + n + seq![']'] =~= seq!['=', '[', '8', ']']);
        assert(keyword_tokens(seq!['-', '-', '=', '[', '8', ']']) == Some(seq![Token::PCopy(1), Token::EPeek(64), Token::PCopy(1), Token::EPop, Token::EConstant(1), Token::PPop(1), Token::ESub, Token::PPop(1), Token::EPoke(64)]));
        assert(keyword_tokens(seq!['[', '8', ']']) == Some(seq![Token::EPeek(64)]));
        assert(keyword_tokens(seq!['-', '-']) == Some(seq![Token::PCopy(1), Token::EPop, Token::EConstant(1), Token::PPop(1), Token::ESub]));
        assert(keyword_tokens(seq!['=', '[', '8', ']']) == Some(seq![Token::EPoke(64)]));
        assert(seq![Token::PCopy(1), Token::EPeek(64), Token::PCopy(1), Token::EPop, Token::EConstant(1), Token::PPop(1), Token::ESub, Token::PPop(1), Token::EPoke(64)] =~= seq![Token::PCopy(1)] + seq![Token::EPeek(64)] + seq![Token::PCopy(1), Token::EPop, Token::EConstant(1), Token::PPop(1), Token::ESub] + seq![Token::PPop(1)] + seq![Token::EPoke(64)]);
    }
}

/// `<=` and `>=` are the strict comparison or the equality on a copy of the
/// two operands: `PCopy(2)`, the tokens of `<` (of `>`), `PPop(2)`, then the
/// tokens of `==` and of `|`.
#[verifier::spinoff_prover]
#[verifier::rlimit(100)]
pub proof fn lemma_non_strict_comparisons(op: Seq<char>)
    requires
        op == seq!['<'] || op == seq!['>'],
    ensures
        keyword_tokens(op.push('=')) == Some(
            seq![Token::PCopy(2)] + keyword_tokens(op).unwrap() + seq![Token::PPop(2)]
                + keyword_tokens(seq!['=', '=']).unwrap() + keyword_tokens(seq!['|']).unwrap(),
        ),
{
    lemma_vocabulary_letters();
    assert(keyword_tokens(seq!['=', '=']) == Some(seq![Token::ECmp]));
    assert(keyword_tokens(seq!['|']) == Some(seq![Token::EOr]));
    if op == seq!['<'] {
        assert(op.push('=') == seq!['<', '=']);
        assert(keyword_tokens(seq!['<']) == Some(seq![Token::ELt]));
        assert(keyword_tokens(seq!['<', '=']) == Some(
            seq![Token::PCopy(2), Token::ELt, Token::PPop(2), Token::ECmp, Token::EOr],
        ));
        assert(seq![Token::PCopy(2), Token::ELt, Token::PPop(2), Token::ECmp, Token::EOr]
            =~= seq![Token::PCopy(2)] + seq![Token::ELt] + seq![Token::PPop(2)] + seq![Token::ECmp]
            + seq![Token::EOr]);
    } else {
        assert(op.push('=') == seq!['>', '=']);
        assert(keyword_tokens(seq!['>']) == Some(seq![Token::EGt]));
        assert(keyword_tokens(seq!['>', '=']) == Some(
            seq![Token::PCopy(2), Token::EGt, Token::PPop(2), Token::ECmp, Token::EOr],
        ));
        assert(seq![Token::PCopy(2), Token::EGt, Token::PPop(2), Token::ECmp, Token::EOr]
            =~= seq![Token::PCopy(2)] + seq![Token::EGt] + seq![Token::PPop(2)] + seq![Token::ECmp]
            + seq![Token::EOr]);
    }
}

/// A memory access `[n]` reads, and `=[n]` writes, `n` bytes, that is
/// `8 * n` bits; with no size, or the size `*`, it moves 8 bytes.
#[verifier::spinoff_prover]
#[verifier::rlimit(100)]
pub proof fn lemma_access_sizes(n: Seq<char>, bytes: u8)
    requires
        (n == seq!['1'] && bytes == 1) || (n == seq!['2'] && bytes == 2) || (n == seq!['4']
            && bytes == 4) || (n == seq!['8'] && bytes == 8) || (n == Seq::<char>::empty()
            && bytes == 8) || (n == seq!['*'] && bytes == 8),
    ensures
        keyword_tokens(seq!['['] + n + seq![']']) == Some(seq![Token::EPeek((8 * bytes) as u8)]),
        keyword_tokens(seq!['=', '['] + n + seq![']']) == Some(
            seq![Token::EPoke((8 * bytes) as u8)],
        ),
{
    lemma_vocabulary_letters();
    if n == seq!['1'] {
        assert(seq!['['] + n + seq![']'] =~= seq!['[', '1', ']']);
        assert(seq!['=', '['] + n + seq![']'] =~= seq!['=', '[', '1', ']']);
        assert(keyword_tokens(seq!['[', '1', ']']) == Some(seq![Token::EPeek(8)]));
        assert(keyword_tokens(seq!['=', '[', '1', ']']) == Some(seq![Token::EPoke(8)]));
    }
    if n == seq!['2'] {
        assert(seq!['['] + n + seq![']'] =~= seq!['[', '2', ']']);
        assert(seq!['=', '['] + n + seq![']'] =~= seq!['=', '[', '2', ']']);
        assert(keyword_tokens(seq!['[', '2', ']']) == Some(seq![Token::EPeek(16)]));
        assert(keyword_tokens(seq!['=', '[', '2', ']']) == Some(seq![Token::EPoke(16)]));
    }
    if n == seq!['4'] {
        assert(seq!['['] + n + seq![']'] =~= seq!['[', '4', ']']);
        assert(seq!['=', '['] + n + seq![']'] =~= seq!['=', '[', '4', ']']);
        assert(keyword_tokens(seq!['[', '4', ']']) == Some(seq![Token::EPeek(32)]));
        assert(keyword_tokens(seq!['=', '[', '4', ']']) == Some(seq![Token::EPoke(32)]));
    }
    if n == seq!['8'] {
        assert(seq!['['] + n + seq![']'] =~= seq!['[', '8', ']']);
        assert(seq!['=', '['] + n + seq![']'] =~= seq!['=', '[', '8', ']']);
        assert(keyword_tokens(seq!['[', '8', ']']) == Some(seq![Token::EPeek(64)]));
        assert(keyword_tokens(seq!['=', '[', '8', ']']) == Some(seq![Token::EPoke(64)]));
    }
    if n == Seq::<char>::empty() {
        assert(seq!['['] + n + seq![']'] =~= seq!['[', ']']);
        assert(seq!['=', '['] + n + seq![']'] =~= seq!['=', '[', ']']);
        assert(keyword_tokens(seq!['[', ']']) == Some(seq![Token::EPeek(64)]));
        assert(keyword_tokens(seq!['=', '[', ']']) == Some(seq![Token::EPoke(64)]));
    }
    if n == seq!['*'] {
        assert(seq!['['] + n + seq![']'] =~= seq!['[', '*', ']']);
        assert(seq!['=', '['] + n + seq![']'] =~= seq!['=', '[', '*', ']']);
        assert(keyword_tokens(seq!['[', '*', ']']) == Some(seq![Token::EPeek(64)]));
        assert(keyword_tokens(seq!['=', '[', '*', ']']) == Some(seq![Token::EPoke(64)]));
    }
}

/// Whether the characters `s[lo..hi]` spell `lit`.
pub fn word_is(s: &Vec<char>, lo: usize, hi: usize, lit: &str) -> (res: bool)
    requires
        lo <= hi <= s.len(),
    ensures
        res == (s@.subrange(lo as int, hi as int) == lit@),
{
    let n = lit.unicode_len();
    if hi - lo != n {
        return false;
    }
    let mut j: usize = 0;
    while j < n
        invariant
            lo <= hi <= s.len(),
            hi - lo == n,
            n == lit@.len(),
            j <= n,
            forall|k: int| 0 <= k < j ==> s@[lo + k] == lit@[k],
        decreases n - j,
    {
        if s[lo + j] != lit.get_char(j) {
            assert(s@.subrange(lo as int, hi as int)[j as int] != lit@[j as int]);
            return false;
        }
        j = j + 1;
    }
    assert(s@.subrange(lo as int, hi as int) =~= lit@);
    true
}

/// How the words of the fixed vocabulary are spelt.
proof fn lemma_vocabulary_spelling()
    ensures
        "$"@ == seq!['$'],
        "=="@ == seq!['=', '='],
        "<"@ == seq!['<'],
        ">"@ == seq!['>'],
        "<="@ == seq!['<', '='],
        ">="@ == seq!['>', '='],
        "?{"@ == seq!['?', '{'],
        "<<"@ == seq!['<', '<'],
        "<<="@ == seq!['<', '<', '='],
        ">>"@ == seq!['>', '>'],
        ">>="@ == seq!['>', '>', '='],
        ">>>"@ == seq!['>', '>', '>'],
        "<<<"@ == seq!['<', '<', '<'],
        "&"@ == seq!['&'],
        "&="@ == seq!['&', '='],
        "}"@ == seq!['}'],
        "|"@ == seq!['|'],
        "|="@ == seq!['|', '='],
        "!"@ == seq!['!'],
        "!="@ == seq!['!', '='],
        "="@ == seq!['='],
        "*"@ == seq!['*'],
        "*="@ == seq!['*', '='],
        "^"@ == seq!['^'],
        "^="@ == seq!['^', '='],
        "+"@ == seq!['+'],
        "+="@ == seq!['+', '='],
        "++"@ == seq!['+', '+'],
        "++="@ == seq!['+', '+', '='],
        "-"@ == seq!['-'],
        "-="@ == seq!['-', '='],
        "--"@ == seq!['-', '-'],
        "--="@ == seq!['-', '-', '='],
        "/"@ == seq!['/'],
        "/="@ == seq!['/', '='],
        "%"@ == seq!['%'],
        "%="@ == seq!['%', '='],
        "=[]"@ == seq!['=', '[', ']'],
        "=[1]"@ == seq!['=', '[', '1', ']'],
        "=[2]"@ == seq!['=', '[', '2', ']'],
        "=[4]"@ == seq!['=', '[', '4', ']'],
        "=[8]"@ == seq!['=', '[', '8', ']'],
        "|=[]"@ == seq!['|', '=', '[', ']'],
        "|=[1]"@ == seq!['|', '=', '[', '1', ']'],
        "|=[2]"@ == seq!['|', '=', '[', '2', ']'],
        "|=[4]"@ == seq!['|', '=', '[', '4', ']'],
        "|=[8]"@ == seq!['|', '=', '[', '8', ']'],
        "^=[]"@ == seq!['^', '=', '[', ']'],
        "^=[1]"@ == seq!['^', '=', '[', '1', ']'],
        "^=[2]"@ == seq!['^', '=', '[', '2', ']'],
        "^=[4]"@ == seq!['^', '=', '[', '4', ']'],
        "^=[8]"@ == seq!['^', '=', '[', '8', ']'],
        "&=[]"@ == seq!['&', '=', '[', ']'],
        "&=[1]"@ == seq!['&', '=', '[', '1', ']'],
        "&=[2]"@ == seq!['&', '=', '[', '2', ']'],
        "&=[4]"@ == seq!['&', '=', '[', '4', ']'],
        "&=[8]"@ == seq!['&', '=', '[', '8', ']'],
        "+=[]"@ == seq!['+', '=', '[', ']'],
        "+=[1]"@ == seq!['+', '=', '[', '1', ']'],
        "+=[2]"@ == seq!['+', '=', '[', '2', ']'],
        "+=[4]"@ == seq!['+', '=', '[', '4', ']'],
        "+=[8]"@ == seq!['+', '=', '[', '8', ']'],
        "-=[]"@ == seq!['-', '=', '[', ']'],
        "-=[1]"@ == seq!['-', '=', '[', '1', ']'],
        "-=[2]"@ == seq!['-', '=', '[', '2', ']'],
        "-=[4]"@ == seq!['-', '=', '[', '4', ']'],
        "-=[8]"@ == seq!['-', '=', '[', '8', ']'],
        "%=[]"@ == seq!['%', '=', '[', ']'],
        "%=[1]"@ == seq!['%', '=', '[', '1', ']'],
        "%=[2]"@ == seq!['%', '=', '[', '2', ']'],
        "%=[4]"@ == seq!['%', '=', '[', '4', ']'],
        "%=[8]"@ == seq!['%', '=', '[', '8', ']'],
        "/=[]"@ == seq!['/', '=', '[', ']'],
        "/=[1]"@ == seq!['/', '=', '[', '1', ']'],
        "/=[2]"@ == seq!['/', '=', '[', '2', ']'],
        "/=[4]"@ == seq!['/', '=', '[', '4', ']'],
        "/=[8]"@ == seq!['/', '=', '[', '8', ']'],
        "*=[]"@ == seq!['*', '=', '[', ']'],
        "*=[1]"@ == seq!['*', '=', '[', '1', ']'],
        "*=[2]"@ == seq!['*', '=', '[', '2', ']'],
        "*=[4]"@ == seq!['*', '=', '[', '4', ']'],
        "*=[8]"@ == seq!['*', '=', '[', '8', ']'],
        "++=[]"@ == seq!['+', '+', '=', '[', ']'],
        "++=[1]"@ == seq!['+', '+', '=', '[', '1', ']'],
        "++=[2]"@ == seq!['+', '+', '=', '[', '2', ']'],
        "++=[4]"@ == seq!['+', '+', '=', '[', '4', ']'],
        "++=[8]"@ == seq!['+', '+', '=', '[', '8', ']'],
        "--=[]"@ == seq!['-', '-', '=', '[', ']'],
        "--=[1]"@ == seq!['-', '-', '=', '[', '1', ']'],
        "--=[2]"@ == seq!['-', '-', '=', '[', '2', ']'],
        "--=[4]"@ == seq!['-', '-', '=', '[', '4', ']'],
        "--=[8]"@ == seq!['-', '-', '=', '[', '8', ']'],
        "[]"@ == seq!['[', ']'],
        "[*]"@ == seq!['[', '*', ']'],
        "=[*]"@ == seq!['=', '[', '*', ']'],
        "[1]"@ == seq!['[', '1', ']'],
        "[2]"@ == seq!['[', '2', ']'],
        "[4]"@ == seq!['[', '4', ']'],
        "[8]"@ == seq!['[', '8', ']'],
        "STACK"@ == seq!['S', 'T', 'A', 'C', 'K'],
        "POP"@ == seq!['P', 'O', 'P'],
        "TODO"@ == seq!['T', 'O', 'D', 'O'],
        "GOTO"@ == seq!['G', 'O', 'T', 'O'],
        "BREAK"@ == seq!['B', 'R', 'E', 'A', 'K'],
        "CLEAR"@ == seq!['C', 'L', 'E', 'A', 'R'],
        "DUP"@ == seq!['D', 'U', 'P'],
        "TRAP"@ == seq!['T', 'R', 'A', 'P'],
{
    reveal_strlit("$");
    reveal_strlit("==");
    reveal_strlit("<");
    reveal_strlit(">");
    reveal_strlit("<=");
    reveal_strlit(">=");
    reveal_strlit("?{");
    reveal_strlit("<<");
    reveal_strlit("<<=");
    reveal_strlit(">>");
    reveal_strlit(">>=");
    reveal_strlit(">>>");
    reveal_strlit("<<<");
    reveal_strlit("&");
    reveal_strlit("&=");
    reveal_strlit("}");
    reveal_strlit("|");
    reveal_strlit("|=");
    reveal_strlit("!");
    reveal_strlit("!=");
    reveal_strlit("=");
    reveal_strlit("*");
    reveal_strlit("*=");
    reveal_strlit("^");
    reveal_strlit("^=");
    reveal_strlit("+");
    reveal_strlit("+=");
    reveal_strlit("++");
    reveal_strlit("++=");
    reveal_strlit("-");
    reveal_strlit("-=");
    reveal_strlit("--");
    reveal_strlit("--=");
    reveal_strlit("/");
    reveal_strlit("/=");
    reveal_strlit("%");
    reveal_strlit("%=");
    reveal_strlit("=[]");
    reveal_strlit("=[1]");
    reveal_strlit("=[2]");
    reveal_strlit("=[4]");
    reveal_strlit("=[8]");
    reveal_strlit("|=[]");
    reveal_strlit("|=[1]");
    reveal_strlit("|=[2]");
    reveal_strlit("|=[4]");
    reveal_strlit("|=[8]");
    reveal_strlit("^=[]");
    reveal_strlit("^=[1]");
    reveal_strlit("^=[2]");
    reveal_strlit("^=[4]");
    reveal_strlit("^=[8]");
    reveal_strlit("&=[]");
    reveal_strlit("&=[1]");
    reveal_strlit("&=[2]");
    reveal_strlit("&=[4]");
    reveal_strlit("&=[8]");
    reveal_strlit("+=[]");
    reveal_strlit("+=[1]");
    reveal_strlit("+=[2]");
    reveal_strlit("+=[4]");
    reveal_strlit("+=[8]");
    reveal_strlit("-=[]");
    reveal_strlit("-=[1]");
    reveal_strlit("-=[2]");
    reveal_strlit("-=[4]");
    reveal_strlit("-=[8]");
    reveal_strlit("%=[]");
    reveal_strlit("%=[1]");
    reveal_strlit("%=[2]");
    reveal_strlit("%=[4]");
    reveal_strlit("%=[8]");
    reveal_strlit("/=[]");
    reveal_strlit("/=[1]");
    reveal_strlit("/=[2]");
    reveal_strlit("/=[4]");
    reveal_strlit("/=[8]");
    reveal_strlit("*=[]");
    reveal_strlit("*=[1]");
    reveal_strlit("*=[2]");
    reveal_strlit("*=[4]");
    reveal_strlit("*=[8]");
    reveal_strlit("++=[]");
    reveal_strlit("++=[1]");
    reveal_strlit("++=[2]");
    reveal_strlit("++=[4]");
    reveal_strlit("++=[8]");
    reveal_strlit("--=[]");
    reveal_strlit("--=[1]");
    reveal_strlit("--=[2]");
    reveal_strlit("--=[4]");
    reveal_strlit("--=[8]");
    reveal_strlit("[]");
    reveal_strlit("[*]");
    reveal_strlit("=[*]");
    reveal_strlit("[1]");
    reveal_strlit("[2]");
    reveal_strlit("[4]");
    reveal_strlit("[8]");
    reveal_strlit("STACK");
    reveal_strlit("POP");
    reveal_strlit("TODO");
    reveal_strlit("GOTO");
    reveal_strlit("BREAK");
    reveal_strlit("CLEAR");
    reveal_strlit("DUP");
    reveal_strlit("TRAP");
}

/// Looks the word `s[lo..hi]` up in the fixed vocabulary.
pub fn keyword(s: &Vec<char>, lo: usize, hi: usize) -> (res: Option<Vec<Token>>)
    requires
        lo <= hi <= s.len(),
    ensures
        match res {
            Some(v) => keyword_tokens(s@.subrange(lo as int, hi as int)) == Some(v@),
            None => keyword_tokens(s@.subrange(lo as int, hi as int)) is None,
        },
{
    proof {
        lemma_vocabulary_spelling();
    }
    if word_is(s, lo, hi, "$") {
        return Some(vec![Token::EInterrupt]);
    }
    if word_is(s, lo, hi, "==") {
        return Some(vec![Token::ECmp]);
    }
    if word_is(s, lo, hi, "<") {
        return Some(vec![Token::ELt]);
    }
    if word_is(s, lo, hi, ">") {
        return Some(vec![Token::EGt]);
    }
    if word_is(s, lo, hi, "<=") {
        return Some(vec![Token::PCopy(2), Token::ELt, Token::PPop(2), Token::ECmp, Token::EOr]);
    }
    if word_is(s, lo, hi, ">=") {
        return Some(vec![Token::PCopy(2), Token::EGt, Token::PPop(2), Token::ECmp, Token::EOr]);
    }
    if word_is(s, lo, hi, "?{") {
        return Some(vec![Token::EIf]);
    }
    if word_is(s, lo, hi, "<<") {
        return Some(vec![Token::ELsl]);
    }
    if word_is(s, lo, hi, "<<=") {
        return Some(vec![Token::PCopy(1), Token::ELsl, Token::PPop(1), Token::EEq]);
    }
    if word_is(s, lo, hi, ">>") {
        return Some(vec![Token::ELsr]);
    }
    if word_is(s, lo, hi, ">>=") {
        return Some(vec![Token::PCopy(1), Token::ELsr, Token::PPop(1), Token::EEq]);
    }
    if word_is(s, lo, hi, ">>>") {
        return Some(vec![Token::ERor]);
    }
    if word_is(s, lo, hi, "<<<") {
        return Some(vec![Token::ERol]);
    }
    if word_is(s, lo, hi, "&") {
        return Some(vec![Token::EAnd]);
    }
    if word_is(s, lo, hi, "&=") {
        return Some(vec![Token::PCopy(1), Token::EAnd, Token::PPop(1), Token::EEq]);
    }
    if word_is(s, lo, hi, "}") {
        return Some(vec![Token::ENop]);
    }
    if word_is(s, lo, hi, "|") {
        return Some(vec![Token::EOr]);
    }
    if word_is(s, lo, hi, "|=") {
        return Some(vec![Token::PCopy(1), Token::EOr, Token::PPop(1), Token::EEq]);
    }
    if word_is(s, lo, hi, "!") {
        return Some(vec![Token::ENeg]);
    }
    if word_is(s, lo, hi, "!=") {
        return Some(vec![Token::PCopy(1), Token::ENeg, Token::PPop(1), Token::EEq]);
    }
    if word_is(s, lo, hi, "=") {
        return Some(vec![Token::EEq]);
    }
    if word_is(s, lo, hi, "*") {
        return Some(vec![Token::EMul]);
    }
    if word_is(s, lo, hi, "*=") {
        return Some(vec![Token::PCopy(1), Token::EMul, Token::PPop(1), Token::EEq]);
    }
    if word_is(s, lo, hi, "^") {
        return Some(vec![Token::EXor]);
    }
    if word_is(s, lo, hi, "^=") {
        return Some(vec![Token::PCopy(1), Token::EXor, Token::PPop(1), Token::EEq]);
    }
    if word_is(s, lo, hi, "+") {
        return Some(vec![Token::EAdd]);
    }
    if word_is(s, lo, hi, "+=") {
        return Some(vec![Token::PCopy(1), Token::EAdd, Token::PPop(1), Token::EEq]);
    }
    if word_is(s, lo, hi, "++") {
        return Some(vec![Token::PCopy(1), Token::EPop, Token::EConstant(1), Token::PPop(1), Token::EAdd]);
    }
    if word_is(s, lo, hi, "++=") {
        return Some(vec![Token::PCopy(1), Token::PCopy(1), Token::EPop, Token::EConstant(1), Token::PPop(1), Token::EAdd, Token::PPop(1), Token::EEq]);
    }
    if word_is(s, lo, hi, "-") {
        return Some(vec![Token::ESub]);
    }
    if word_is(s, lo, hi, "-=") {
        return Some(vec![Token::PCopy(1), Token::ESub, Token::PPop(1), Token::EEq]);
    }
    if word_is(s, lo, hi, "--") {
        return Some(vec![Token::PCopy(1), Token::EPop, Token::EConstant(1), Token::PPop(1), Token::ESub]);
    }
    if word_is(s, lo, hi, "--=") {
        return Some(vec![Token::PCopy(1), Token::PCopy(1), Token::EPop, Token::EConstant(1), Token::PPop(1), Token::ESub, Token::PPop(1), Token::EEq]);
    }
    if word_is(s, lo, hi, "/") {
        return Some(vec![Token::EDiv]);
    }
    if word_is(s, lo, hi, "/=") {
        return Some(vec![Token::PCopy(1), Token::EDiv, Token::PPop(1), Token::EEq]);
    }
    if word_is(s, lo, hi, "%") {
        return Some(vec![Token::EMod]);
    }
    if word_is(s, lo, hi, "%=") {
        return Some(vec![Token::PCopy(1), Token::EMod, Token::PPop(1), Token::EEq]);
    }
    if word_is(s, lo, hi, "=[]") {
        return Some(vec![Token::EPoke(64)]);
    }
    if word_is(s, lo, hi, "=[1]") {
        return Some(vec![Token::EPoke(8)]);
    }
    if word_is(s, lo, hi, "=[2]") {
        return Some(vec![Token::EPoke(16)]);
    }
    if word_is(s, lo, hi, "=[4]") {
        return Some(vec![Token::EPoke(32)]);
    }
    if word_is(s, lo, hi, "=[8]") {
        return Some(vec![Token::EPoke(64)]);
    }
    if word_is(s, lo, hi, "|=[]") {
        return Some(vec![Token::PCopy(1), Token::EPeek(64), Token::EOr, Token::PPop(1), Token::EPoke(64)]);
    }
    if word_is(s, lo, hi, "|=[1]") {
        return Some(vec![Token::PCopy(1), Token::EPeek(8), Token::EOr, Token::PPop(1), Token::EPoke(8)]);
    }
    if word_is(s, lo, hi, "|=[2]") {
        return Some(vec![Token::PCopy(1), Token::EPeek(16), Token::EOr, Token::PPop(1), Token::EPoke(16)]);
    }
    if word_is(s, lo, hi, "|=[4]") {
        return Some(vec![Token::PCopy(1), Token::EPeek(32), Token::EOr, Token::PPop(1), Token::EPoke(32)]);
    }
    if word_is(s, lo, hi, "|=[8]") {
        return Some(vec![Token::PCopy(1), Token::EPeek(64), Token::EOr, Token::PPop(1), Token::EPoke(64)]);
    }
    if word_is(s, lo, hi, "^=[]") {
        return Some(vec![Token::PCopy(1), Token::EPeek(64), Token::EXor, Token::PPop(1), Token::EPoke(64)]);
    }
    if word_is(s, lo, hi, "^=[1]") {
        return Some(vec![Token::PCopy(1), Token::EPeek(8), Token::EXor, Token::PPop(1), Token::EPoke(8)]);
    }
    if word_is(s, lo, hi, "^=[2]") {
        return Some(vec![Token::PCopy(1), Token::EPeek(16), Token::EXor, Token::PPop(1), Token::EPoke(16)]);
    }
    if word_is(s, lo, hi, "^=[4]") {
        return Some(vec![Token::PCopy(1), Token::EPeek(32), Token::EXor, Token::PPop(1), Token::EPoke(32)]);
    }
    if word_is(s, lo, hi, "^=[8]") {
        return Some(vec![Token::PCopy(1), Token::EPeek(64), Token::EXor, Token::PPop(1), Token::EPoke(64)]);
    }
    if word_is(s, lo, hi, "&=[]") {
        return Some(vec![Token::PCopy(1), Token::EPeek(64), Token::EAnd, Token::PPop(1), Token::EPoke(64)]);
    }
    if word_is(s, lo, hi, "&=[1]") {
        return Some(vec![Token::PCopy(1), Token::EPeek(8), Token::EAnd, Token::PPop(1), Token::EPoke(8)]);
    }
    if word_is(s, lo, hi, "&=[2]") {
        return Some(vec![Token::PCopy(1), Token::EPeek(16), Token::EAnd, Token::PPop(1), Token::EPoke(16)]);
    }
    if word_is(s, lo, hi, "&=[4]") {
        return Some(vec![Token::PCopy(1), Token::EPeek(32), Token::EAnd, Token::PPop(1), Token::EPoke(32)]);
    }
    if word_is(s, lo, hi, "&=[8]") {
        return Some(vec![Token::PCopy(1), Token::EPeek(64), Token::EAnd, Token::PPop(1), Token::EPoke(64)]);
    }
    if word_is(s, lo, hi, "+=[]") {
        return Some(vec![Token::PCopy(1), Token::EPeek(64), Token::EAdd, Token::PPop(1), Token::EPoke(64)]);
    }
    if word_is(s, lo, hi, "+=[1]") {
        return Some(vec![Token::PCopy(1), Token::EPeek(8), Token::EAdd, Token::PPop(1), Token::EPoke(8)]);
    }
    if word_is(s, lo, hi, "+=[2]") {
        return Some(vec![Token::PCopy(1), Token::EPeek(16), Token::EAdd, Token::PPop(1), Token::EPoke(16)]);
    }
    if word_is(s, lo, hi, "+=[4]") {
        return Some(vec![Token::PCopy(1), Token::EPeek(32), Token::EAdd, Token::PPop(1), Token::EPoke(32)]);
    }
    if word_is(s, lo, hi, "+=[8]") {
        return Some(vec![Token::PCopy(1), Token::EPeek(64), Token::EAdd, Token::PPop(1), Token::EPoke(64)]);
    }
    if word_is(s, lo, hi, "-=[]") {
        return Some(vec![Token::PCopy(1), Token::EPeek(64), Token::ESub, Token::PPop(1), Token::EPoke(64)]);
    }
    if word_is(s, lo, hi, "-=[1]") {
        return Some(vec![Token::PCopy(1), Token::EPeek(8), Token::ESub, Token::PPop(1), Token::EPoke(8)]);
    }
    if word_is(s, lo, hi, "-=[2]") {
        return Some(vec![Token::PCopy(1), Token::EPeek(16), Token::ESub, Token::PPop(1), Token::EPoke(16)]);
    }
    if word_is(s, lo, hi, "-=[4]") {
        return Some(vec![Token::PCopy(1), Token::EPeek(32), Token::ESub, Token::PPop(1), Token::EPoke(32)]);
    }
    if word_is(s, lo, hi, "-=[8]") {
        return Some(vec![Token::PCopy(1), Token::EPeek(64), Token::ESub, Token::PPop(1), Token::EPoke(64)]);
    }
    if word_is(s, lo, hi, "%=[]") {
        return Some(vec![Token::PCopy(1), Token::EPeek(64), Token::EMod, Token::PPop(1), Token::EPoke(64)]);
    }
    if word_is(s, lo, hi, "%=[1]") {
        return Some(vec![Token::PCopy(1), Token::EPeek(8), Token::EMod, Token::PPop(1), Token::EPoke(8)]);
    }
    if word_is(s, lo, hi, "%=[2]") {
        return Some(vec![Token::PCopy(1), Token::EPeek(16), Token::EMod, Token::PPop(1), Token::EPoke(16)]);
    }
    if word_is(s, lo, hi, "%=[4]") {
        return Some(vec![Token::PCopy(1), Token::EPeek(32), Token::EMod, Token::PPop(1), Token::EPoke(32)]);
    }
    if word_is(s, lo, hi, "%=[8]") {
        return Some(vec![Token::PCopy(1), Token::EPeek(64), Token::EMod, Token::PPop(1), Token::EPoke(64)]);
    }
    if word_is(s, lo, hi, "/=[]") {
        return Some(vec![Token::PCopy(1), Token::EPeek(64), Token::EDiv, Token::PPop(1), Token::EPoke(64)]);
    }
    if word_is(s, lo, hi, "/=[1]") {
        return Some(vec![Token::PCopy(1), Token::EPeek(8), Token::EDiv, Token::PPop(1), Token::EPoke(8)]);
    }
    if word_is(s, lo, hi, "/=[2]") {
        return Some(vec![Token::PCopy(1), Token::EPeek(16), Token::EDiv, Token::PPop(1), Token::EPoke(16)]);
    }
    if word_is(s, lo, hi, "/=[4]") {
        return Some(vec![Token::PCopy(1), Token::EPeek(32), Token::EDiv, Token::PPop(1), Token::EPoke(32)]);
    }
    if word_is(s, lo, hi, "/=[8]") {
        return Some(vec![Token::PCopy(1), Token::EPeek(64), Token::EDiv, Token::PPop(1), Token::EPoke(64)]);
    }
    if word_is(s, lo, hi, "*=[]") {
        return Some(vec![Token::PCopy(1), Token::EPeek(64), Token::EMul, Token::PPop(1), Token::EPoke(64)]);
    }
    if word_is(s, lo, hi, "*=[1]") {
        return Some(vec![Token::PCopy(1), Token::EPeek(8), Token::EMul, Token::PPop(1), Token::EPoke(8)]);
    }
    if word_is(s, lo, hi, "*=[2]") {
        return Some(vec![Token::PCopy(1), Token::EPeek(16), Token::EMul, Token::PPop(1), Token::EPoke(16)]);
    }
    if word_is(s, lo, hi, "*=[4]") {
        return Some(vec![Token::PCopy(1), Token::EPeek(32), Token::EMul, Token::PPop(1), Token::EPoke(32)]);
    }
    if word_is(s, lo, hi, "*=[8]") {
        return Some(vec![Token::PCopy(1), Token::EPeek(64), Token::EMul, Token::PPop(1), Token::EPoke(64)]);
    }
    if word_is(s, lo, hi, "++=[]") {
        return Some(vec![Token::PCopy(1), Token::EPeek(64), Token::PCopy(1), Token::EPop, Token::EConstant(1), Token::PPop(1), Token::EAdd, Token::PPop(1), Token::EPoke(64)]);
    }
    if word_is(s, lo, hi, "++=[1]") {
        return Some(vec![Token::PCopy(1), Token::EPeek(8), Token::PCopy(1), Token::EPop, Token::EConstant(1), Token::PPop(1), Token::EAdd, Token::PPop(1), Token::EPoke(8)]);
    }
    if word_is(s, lo, hi, "++=[2]") {
        return Some(vec![Token::PCopy(1), Token::EPeek(16), Token::PCopy(1), Token::EPop, Token::EConstant(1), Token::PPop(1), Token::EAdd, Token::PPop(1), Token::EPoke(16)]);
    }
    if word_is(s, lo, hi, "++=[4]") {
        return Some(vec![Token::PCopy(1), Token::EPeek(32), Token::PCopy(1), Token::EPop, Token::EConstant(1), Token::PPop(1), Token::EAdd, Token::PPop(1), Token::EPoke(32)]);
    }
    if word_is(s, lo, hi, "++=[8]") {
        return Some(vec![Token::PCopy(1), Token::EPeek(64), Token::PCopy(1), Token::EPop, Token::EConstant(1), Token::PPop(1), Token::EAdd, Token::PPop(1), Token::EPoke(64)]);
    }
    if word_is(s, lo, hi, "--=[]") {
        return Some(vec![Token::PCopy(1), Token::EPeek(64), Token::PCopy(1), Token::EPop, Token::EConstant(1), Token::PPop(1), Token::ESub, Token::PPop(1), Token::EPoke(64)]);
    }
    if word_is(s, lo, hi, "--=[1]") {
        return Some(vec![Token::PCopy(1), Token::EPeek(8), Token::PCopy(1), Token::EPop, Token::EConstant(1), Token::PPop(1), Token::ESub, Token::PPop(1), Token::EPoke(8)]);
    }
    if word_is(s, lo, hi, "--=[2]") {
        return Some(vec![Token::PCopy(1), Token::EPeek(16), Token::PCopy(1), Token::EPop, Token::EConstant(1), Token::PPop(1), Token::ESub, Token::PPop(1), Token::EPoke(16)]);
    }
    if word_is(s, lo, hi, "--=[4]") {
        return Some(vec![Token::PCopy(1), Token::EPeek(32), Token::PCopy(1), Token::EPop, Token::EConstant(1), Token::PPop(1), Token::ESub, Token::PPop(1), Token::EPoke(32)]);
    }
    if word_is(s, lo, hi, "--=[8]") {
        return Some(vec![Token::PCopy(1), Token::EPeek(64), Token::PCopy(1), Token::EPop, Token::EConstant(1), Token::PPop(1), Token::ESub, Token::PPop(1), Token::EPoke(64)]);
    }
    if word_is(s, lo, hi, "[]") {
        return Some(vec![Token::EPeek(64)]);
    }
    if word_is(s, lo, hi, "[*]") {
        return Some(vec![Token::EPeek(64)]);
    }
    if word_is(s, lo, hi, "=[*]") {
        return Some(vec![Token::EPoke(64)]);
    }
    if word_is(s, lo, hi, "[1]") {
        return Some(vec![Token::EPeek(8)]);
    }
    if word_is(s, lo, hi, "[2]") {
        return Some(vec![Token::EPeek(16)]);
    }
    if word_is(s, lo, hi, "[4]") {
        return Some(vec![Token::EPeek(32)]);
    }
    if word_is(s, lo, hi, "[8]") {
        return Some(vec![Token::EPeek(64)]);
    }
    if word_is(s, lo, hi, "STACK") {
        return Some(vec![Token::EDump]);
    }
    if word_is(s, lo, hi, "POP") {
        return Some(vec![Token::EPop]);
    }
    if word_is(s, lo, hi, "TODO") {
        return Some(vec![Token::ETodo]);
    }
    if word_is(s, lo, hi, "GOTO") {
        return Some(vec![Token::EGoto]);
    }
    if word_is(s, lo, hi, "BREAK") {
        return Some(vec![Token::EBreak]);
    }
    if word_is(s, lo, hi, "CLEAR") {
        return Some(vec![Token::EClear]);
    }
    if word_is(s, lo, hi, "DUP") {
        return Some(vec![Token::EDup]);
    }
    if word_is(s, lo, hi, "TRAP") {
        return Some(vec![Token::ETrap]);
    }
    None
}

} // verus!
