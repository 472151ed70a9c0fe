//! Splitting an ESIL expression into words and words into tokens.

use std::collections::VecDeque;
use vstd::prelude::*;

use crate::keywords::{keyword, keyword_tokens, lemma_keyword_tokens_fixed};
use crate::number::{hex_value, parse_decimal, unsigned_value};
use crate::token::{access_width_ok_view, parser_only, Token, TokenView};

verus! {

/// The character that opens the name of an internal variable.
pub const ESIL_INTERNAL_PREFIX: char = '$';

/// The width of an internal variable whose name gives none.
pub const DEFAULT_SIZE: u8 = 64;

/// The words of an ESIL expression: the runs of characters between commas,
/// empty runs included. There is always at least one word.
pub open spec fn words(s: Seq<char>) -> Seq<Seq<char>>
    decreases s.len(),
{
    if s.len() == 0 {
        seq![Seq::empty()]
    } else {
        let ws = words(s.drop_last());
        if s.last() == ',' {
            ws.push(Seq::empty())
        } else {
            ws.update(ws.len() - 1, ws.last().push(s.last()))
        }
    }
}

/// The internal variable that the name character `c` selects, with width
/// `bit`; `EInvalid` for a character that names none.
pub open spec fn internal_var(c: char, bit: u8) -> Token {
    if c == '$' {
        Token::IAddress(bit)
    } else if c == 'z' {
        Token::IZero(bit)
    } else if c == 'b' {
        Token::IBorrow(bit)
    } else if c == 'c' {
        Token::ICarry(bit)
    } else if c == 'p' {
        Token::IParity(bit)
    } else if c == 'r' {
        Token::ISize(bit)
    } else if c == 'o' {
        Token::IOverflow(bit)
    } else if c == 's' {
        Token::ISign(bit)
    } else {
        Token::EInvalid
    }
}

/// The width written after the two leading characters of an internal
/// variable's name: 64 when nothing follows them, 0 when what follows is not
/// a decimal `u8`.
pub open spec fn internal_width(w: Seq<char>) -> u8 {
    if w.len() < 3 {
        DEFAULT_SIZE
    } else {
        match unsigned_value(w.skip(2), 10, u8::MAX as nat) {
            Some(v) => v as u8,
            None => 0,
        }
    }
}

/// Whether `w` begins with `0x`.
pub open spec fn has_hex_prefix(w: Seq<char>) -> bool {
    w.len() >= 2 && w[0] == '0' && w[1] == 'x'
}

/// `w` without all the `0x` it begins with.
pub open spec fn strip_hex_prefixes(w: Seq<char>) -> Seq<char>
    decreases w.len(),
{
    if has_hex_prefix(w) {
        strip_hex_prefixes(w.skip(2))
    } else {
        w
    }
}

/// The token of a word outside the fixed vocabulary: an internal variable
/// (`$` and a name character, then an optional width), a hexadecimal
/// constant (`0x`), a decimal constant, or else an identifier.
pub open spec fn operand_token(w: Seq<char>) -> TokenView {
    if w.len() > 0 && w[0] == ESIL_INTERNAL_PREFIX {
        let c = if w.len() >= 2 {
            w[1]
        } else {
            '\0'
        };
        TokenView::Plain(internal_var(c, internal_width(w)))
    } else if has_hex_prefix(w) {
        match unsigned_value(strip_hex_prefixes(w), 16, u64::MAX as nat) {
            Some(v) => TokenView::Plain(Token::EConstant(v as u64)),
            None => TokenView::Plain(Token::EInvalid),
        }
    } else {
        match unsigned_value(w, 10, u64::MAX as nat) {
            Some(v) => TokenView::Plain(Token::EConstant(v as u64)),
            None => TokenView::Identifier(w),
        }
    }
}

/// The tokens of one word.
pub open spec fn word_tokens(w: Seq<char>) -> Seq<TokenView> {
    match keyword_tokens(w) {
        Some(ts) => ts.map_values(|t: Token| TokenView::Plain(t)),
        None => seq![operand_token(w)],
    }
}

/// The tokens of a sequence of words, word after word.
pub open spec fn tokens_of_words(ws: Seq<Seq<char>>) -> Seq<TokenView>
    decreases ws.len(),
{
    if ws.len() == 0 {
        Seq::empty()
    } else {
        tokens_of_words(ws.drop_last()) + word_tokens(ws.last())
    }
}

/// The tokens of an ESIL expression.
pub open spec fn esil_tokens(s: Seq<char>) -> Seq<TokenView> {
    tokens_of_words(words(s))
}

/// A word can be lexed unless it is `$` followed by a non-ASCII character:
/// the width would then be read from inside that character.
pub open spec fn word_lexable(w: Seq<char>) -> bool {
    !(w.len() >= 2 && w[0] == ESIL_INTERNAL_PREFIX && (w[1] as u32) >= 128)
}

/// Every word of the expression can be lexed.
pub open spec fn lexable(s: Seq<char>) -> bool {
    forall|i: int| 0 <= i < words(s).len() ==> #[trigger] word_lexable(words(s)[i])
}

/// An expression has at least one word.
pub proof fn lemma_words_nonempty(s: Seq<char>)
    ensures
        words(s).len() >= 1,
    decreases s.len(),
{
    if s.len() > 0 {
        lemma_words_nonempty(s.drop_last());
    }
}

/// Words are split at every comma: the words of `a , b` are the words of
/// `a` followed by the words of `b`.
pub proof fn lemma_words_split(a: Seq<char>, b: Seq<char>)
    ensures
        words(a + seq![','] + b) == words(a) + words(b),
    decreases b.len(),
{
    let c = a + seq![','] + b;
    if b.len() == 0 {
        assert(c.drop_last() =~= a);
        assert(words(c) =~= words(a) + words(b));
    } else {
        assert(c.drop_last() =~= a + seq![','] + b.drop_last());
        lemma_words_split(a, b.drop_last());
        lemma_words_nonempty(b.drop_last());
        lemma_words_nonempty(a);
        assert(c.last() == b.last());
        assert(words(c) =~= words(a) + words(b));
    }
}

/// The tokens of a concatenation of word sequences are the concatenation of
/// their tokens.
pub proof fn lemma_tokens_of_words_append(x: Seq<Seq<char>>, y: Seq<Seq<char>>)
    ensures
        tokens_of_words(x + y) == tokens_of_words(x) + tokens_of_words(y),
    decreases y.len(),
{
    if y.len() == 0 {
        assert(x + y =~= x);
        assert(tokens_of_words(x) + tokens_of_words(y) =~= tokens_of_words(x));
    } else {
        assert((x + y).drop_last() =~= x + y.drop_last());
        lemma_tokens_of_words_append(x, y.drop_last());
        assert(tokens_of_words(x + y) =~= tokens_of_words(x) + tokens_of_words(y));
    }
}

/// Lexing distributes over commas: the tokens of `a , b` are the tokens of
/// `a` followed by the tokens of `b`, and `a , b` can be lexed exactly when
/// both `a` and `b` can.
pub proof fn lemma_tokens_split(a: Seq<char>, b: Seq<char>)
    ensures
        esil_tokens(a + seq![','] + b) == esil_tokens(a) + esil_tokens(b),
        lexable(a + seq![','] + b) <==> lexable(a) && lexable(b),
{
    lemma_words_split(a, b);
    lemma_tokens_of_words_append(words(a), words(b));
    let ws = words(a + seq![','] + b);
    if lexable(a) && lexable(b) {
        assert forall|i: int| 0 <= i < ws.len() implies #[trigger] word_lexable(ws[i]) by {
            if i < words(a).len() {
                assert(ws[i] == words(a)[i]);
            } else {
                assert(ws[i] == words(b)[i - words(a).len()]);
            }
        }
    }
    if lexable(a + seq![','] + b) {
        assert forall|i: int| 0 <= i < words(a).len() implies #[trigger] word_lexable(
            words(a)[i],
        ) by {
            assert(ws[i] == words(a)[i]);
        }
        assert forall|i: int| 0 <= i < words(b).len() implies #[trigger] word_lexable(
            words(b)[i],
        ) by {
            assert(ws[i + words(a).len()] == words(b)[i]);
        }
    }
}

/// A word gives at least one token, and a word outside the fixed vocabulary
/// exactly one; none of them is a token that only the parser produces, and
/// every memory access among them has a valid width.
pub proof fn lemma_word_tokens(w: Seq<char>)
    ensures
        word_tokens(w).len() >= 1,
        keyword_tokens(w) is None ==> word_tokens(w).len() == 1,
        forall|i: int|
            0 <= i < word_tokens(w).len() ==> !parser_only(#[trigger] word_tokens(w)[i])
                && access_width_ok_view(word_tokens(w)[i]),
{
    lemma_keyword_tokens_fixed(w);
}

/// The tokens of the words `ws` number at least as many as the words, and
/// hold no token that only the parser produces and no memory access of an
/// invalid width.
proof fn lemma_tokens_of_words(ws: Seq<Seq<char>>)
    ensures
        tokens_of_words(ws).len() >= ws.len(),
        forall|i: int|
            0 <= i < tokens_of_words(ws).len() ==> !parser_only(#[trigger] tokens_of_words(ws)[i])
                && access_width_ok_view(tokens_of_words(ws)[i]),
    decreases ws.len(),
{
    if ws.len() > 0 {
        lemma_tokens_of_words(ws.drop_last());
        lemma_word_tokens(ws.last());
        let a = tokens_of_words(ws.drop_last());
        let b = word_tokens(ws.last());
        assert forall|i: int| 0 <= i < tokens_of_words(ws).len() implies !parser_only(
            #[trigger] tokens_of_words(ws)[i],
        ) && access_width_ok_view(tokens_of_words(ws)[i]) by {
            if i < a.len() {
                assert(tokens_of_words(ws)[i] == a[i]);
            } else {
                assert(tokens_of_words(ws)[i] == b[i - a.len()]);
            }
        }
    }
}

/// The lexer gives at least one token per word, never gives a register, a
/// symbol-table entry or a meta-variable (those come from the parser only),
/// and reads and writes memory only 8, 16, 32 or 64 bits wide.
pub proof fn lemma_esil_tokens(s: Seq<char>)
    ensures
        esil_tokens(s).len() >= words(s).len(),
        forall|i: int|
            0 <= i < esil_tokens(s).len() ==> !parser_only(#[trigger] esil_tokens(s)[i])
                && access_width_ok_view(esil_tokens(s)[i]),
{
    lemma_tokens_of_words(words(s));
}

/// The internal variable that the name character `c` selects.
fn internal_var_token(c: char, bit: u8) -> (t: Token)
    ensures
        t == internal_var(c, bit),
{
    match c {
        '$' => Token::IAddress(bit),
        'z' => Token::IZero(bit),
        'b' => Token::IBorrow(bit),
        'c' => Token::ICarry(bit),
        'p' => Token::IParity(bit),
        'r' => Token::ISize(bit),
        'o' => Token::IOverflow(bit),
        's' => Token::ISign(bit),
        _ => Token::EInvalid,
    }
}

/// The token of the word `s[lo..hi]` of `esil` when it lies outside the
/// fixed vocabulary.
fn operand(esil: &str, s: &Vec<char>, lo: usize, hi: usize) -> (t: Token)
    requires
        s@ == esil@,
        lo <= hi <= s.len(),
    ensures
        t@ == operand_token(s@.subrange(lo as int, hi as int)),
{
    let ghost w = s@.subrange(lo as int, hi as int);
    if lo < hi && s[lo] == ESIL_INTERNAL_PREFIX {
        let bit: u8 = if hi - lo < 3 {
            DEFAULT_SIZE
        } else {
            assert(s@.subrange(lo + 2, hi as int) =~= w.skip(2));
            match parse_decimal(s, lo + 2, hi, 255) {
                Some(v) => v as u8,
                None => 0,
            }
        };
        let c = if hi - lo >= 2 {
            s[lo + 1]
        } else {
            '\0'
        };
        internal_var_token(c, bit)
    } else if hi - lo >= 2 && s[lo] == '0' && s[lo + 1] == 'x' {
        let mut k = lo;
        while hi - k >= 2 && s[k] == '0' && s[k + 1] == 'x'
            invariant
                lo <= k <= hi <= s.len(),
                strip_hex_prefixes(s@.subrange(k as int, hi as int)) == strip_hex_prefixes(w),
            decreases hi - k,
        {
            assert(s@.subrange(k as int, hi as int).skip(2) =~= s@.subrange(k + 2, hi as int));
            k = k + 2;
        }
        let text = esil.substring_char(k, hi);
        match hex_value(text) {
            Some(v) => Token::EConstant(v),
            None => Token::EInvalid,
        }
    } else {
        match parse_decimal(s, lo, hi, u64::MAX) {
            Some(v) => Token::EConstant(v),
            None => Token::EIdentifier(esil.substring_char(lo, hi).to_owned()),
        }
    }
}

/// The tokens of the word `s[lo..hi]` of `esil`.
fn lex_word(esil: &str, s: &Vec<char>, lo: usize, hi: usize) -> (res: Vec<Token>)
    requires
        s@ == esil@,
        lo <= hi <= s.len(),
    ensures
        res@.map_values(|t: Token| t@) == word_tokens(s@.subrange(lo as int, hi as int)),
{
    let ghost w = s@.subrange(lo as int, hi as int);
    match keyword(s, lo, hi) {
        Some(v) => {
            proof {
                lemma_keyword_tokens_fixed(w);
                let ts = keyword_tokens(w).unwrap();
                assert forall|i: int| 0 <= i < v@.len() implies v@[i]@ == TokenView::Plain(
                    ts[i],
                ) by {
                    assert(!(ts[i] is EIdentifier));
                }
                assert(v@.map_values(|t: Token| t@) =~= ts.map_values(
                    |t: Token| TokenView::Plain(t),
                ));
            }
            v
        },
        None => {
            let t = operand(esil, s, lo, hi);
            let v = vec![t];
            assert(v@.map_values(|t: Token| t@) =~= seq![operand_token(w)]);
            v
        },
    }
}

/// Moves the tokens of `v`, in order, to the back of `out`.
fn append_tokens(out: &mut VecDeque<Token>, v: Vec<Token>)
    ensures
        final(out)@ == old(out)@ + v@,
{
    let ghost orig = v@;
    let mut v = v;
    let mut tail: VecDeque<Token> = VecDeque::new();
    while v.len() > 0
        invariant
            v@ + tail@ == orig,
        decreases v.len(),
    {
        let ghost before = v@;
        let t = v.pop().unwrap();
        tail.push_front(t);
        assert(before =~= v@.push(t));
        assert(v@ + tail@ =~= before + tail@.drop_first());
    }
    assert(tail@ =~= orig);
    out.append(&mut tail);
}

/// The characters of `esil`.
fn chars_of(esil: &str) -> (s: Vec<char>)
    ensures
        s@ == esil@,
{
    let mut s: Vec<char> = Vec::new();
    for c in it: esil.chars()
        invariant
            s@ == it.seq().take(it.index() as int),
    {
        s.push(c);
    }
    assert(s@ =~= esil@);
    s
}

/// Whether the characters `s[lo..hi]` form a word that can be lexed.
fn word_is_lexable(s: &Vec<char>, lo: usize, hi: usize) -> (res: bool)
    requires
        lo <= hi <= s.len(),
    ensures
        res == word_lexable(s@.subrange(lo as int, hi as int)),
{
    !(hi - lo >= 2 && s[lo] == ESIL_INTERNAL_PREFIX && (s[lo + 1] as u32) >= 128)
}

/// A lexer of ESIL expressions.
pub trait Tokenize {
    type Token: Clone + std::fmt::Debug + PartialEq;

    /// The expressions that `tokenize` accepts.
    spec fn accepts(esil: Seq<char>) -> bool;

    /// The tokens of `esil`, in order.
    fn tokenize(esil: &str) -> VecDeque<Self::Token>
        requires
            Self::accepts(esil@),
    ;
}

/// The ESIL lexer.
pub struct Tokenizer;

impl Tokenizer {
    /// Whether `tokenize` accepts `esil`: no word of it is `$` followed by a
    /// non-ASCII character.
    pub fn is_lexable(esil: &str) -> (res: bool)
        ensures
            res == lexable(esil@),
    {
        let s = chars_of(esil);
        let n = s.len();
        let mut lo: usize = 0;
        assert(s@.take(0) =~= Seq::<char>::empty());
        let mut i: usize = 0;
        while i < n
            invariant
                n == s.len(),
                s@ == esil@,
                lo <= i <= n,
                words(s@.take(i as int)).len() >= 1,
                words(s@.take(i as int)).last() == s@.subrange(lo as int, i as int),
                forall|j: int|
                    0 <= j < words(s@.take(i as int)).len() - 1 ==> #[trigger] word_lexable(
                        words(s@.take(i as int))[j],
                    ),
            decreases n - i,
        {
            let ghost p = s@.take(i as int);
            let ghost q = s@.take(i + 1);
            assert(q.drop_last() =~= p);
            if s[i] == ',' {
                if !word_is_lexable(&s, lo, i) {
                    proof {
                        assert(s@ =~= p + seq![','] + s@.skip(i + 1));
                        lemma_words_split(p, s@.skip(i + 1));
                        let k = words(p).len() - 1;
                        assert(words(s@)[k] == words(p)[k]);
                        assert(!word_lexable(words(s@)[k]));
                        assert(s@ == esil@);
                    }
                    return false;
                }
                proof {
                    assert(word_lexable(words(p)[words(p).len() - 1]));
                    assert(q.last() == ',');
                    assert(words(q) =~= words(p).push(Seq::empty()));
                    assert forall|j: int| 0 <= j < words(q).len() - 1 implies #[trigger] word_lexable(
                        words(q)[j],
                    ) by {
                        assert(words(q)[j] == words(p)[j]);
                        if j < words(p).len() - 1 {
                            assert(word_lexable(words(p)[j]));
                        }
                    }
                }
                lo = i + 1;
            } else {
                proof {
                    assert(s@.subrange(lo as int, i + 1) =~= s@.subrange(lo as int, i as int).push(
                        s@[i as int],
                    ));
                    assert forall|j: int| 0 <= j < words(q).len() - 1 implies #[trigger] word_lexable(
                        words(q)[j],
                    ) by {
                        assert(words(q)[j] == words(p)[j]);
                        if j < words(p).len() - 1 {
                            assert(word_lexable(words(p)[j]));
                        }
                    }
                }
            }
            i = i + 1;
        }
        assert(s@.take(n as int) =~= s@);
        let res = word_is_lexable(&s, lo, n);
        proof {
            let ws = words(s@);
            if res {
                assert forall|j: int| 0 <= j < ws.len() implies #[trigger] word_lexable(ws[j]) by {
                    if j < ws.len() - 1 {
                        assert(word_lexable(words(s@.take(n as int))[j]));
                    }
                }
            } else {
                assert(!word_lexable(ws[ws.len() - 1]));
            }
        }
        res
    }
}

impl Tokenize for Tokenizer {
    type Token = Token;

    open spec fn accepts(esil: Seq<char>) -> bool {
        lexable(esil)
    }

    fn tokenize(esil: &str) -> (tokens: VecDeque<Token>)
        ensures
            tokens@.map_values(|t: Token| t@) == esil_tokens(esil@),
    {
        let s = chars_of(esil);
        let n = s.len();
        let mut out: VecDeque<Token> = VecDeque::new();
        let mut lo: usize = 0;
        proof {
            assert(s@.take(0) =~= Seq::<char>::empty());
        }
        for i in 0..n
            invariant
                n == s.len(),
                s@ == esil@,
                lo <= i,
                words(s@.take(i as int)).len() >= 1,
                words(s@.take(i as int)).last() == s@.subrange(lo as int, i as int),
                out@.map_values(|t: Token| t@) == tokens_of_words(
                    words(s@.take(i as int)).drop_last(),
                ),
        {
            let ghost p = s@.take(i as int);
            let ghost q = s@.take(i + 1);
            assert(q.drop_last() =~= p);
            if s[i] == ',' {
                let ghost ws = words(p);
                let v = lex_word(esil, &s, lo, i);
                let ghost before = out@;
                append_tokens(&mut out, v);
                proof {
                    assert(out@.map_values(|t: Token| t@) =~= before.map_values(|t: Token| t@)
                        + v@.map_values(|t: Token| t@));
                    assert(words(q).drop_last() =~= ws);
                    assert(ws =~= ws.drop_last().push(ws.last()));
                }
                lo = i + 1;
            } else {
                proof {
                    assert(s@.subrange(lo as int, i + 1) =~= s@.subrange(lo as int, i as int).push(
                        s@[i as int],
                    ));
                    assert(words(q).drop_last() =~= words(p).drop_last());
                }
            }
        }
        assert(s@.take(n as int) =~= s@);
        let v = lex_word(esil, &s, lo, n);
        let ghost before = out@;
        append_tokens(&mut out, v);
        assert(out@.map_values(|t: Token| t@) =~= before.map_values(|t: Token| t@) + v@.map_values(
            |t: Token| t@,
        ));
        out
    }
}

} // verus!
