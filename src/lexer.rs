use vstd::prelude::*;
use crate::context::{LexerContext, marker_at};
use crate::handlers::{BaseTokenHandler, Handler, TextFallback, TokenHandler, rule_effect};
use crate::position::{Position, column_at, is_position_of, lemma_position_bounds, line_at};
use crate::registry::{Registry, lemma_select, select};
use crate::stream::{
    kinds,
    plain,
    lemma_push_token,
    lemma_with_text,
    positioned,
    replay,
    stream_ok,
    texts,
    views,
    with_text,
};
use crate::token::{Token, TokenType, TokenView, Toggles};

verus! {

/// The position of offset `n` of `s`.
pub open spec fn position_in(s: Seq<char>, n: int) -> Position {
    Position { line: line_at(s, n) as usize, column: column_at(s, n) as usize, offset: n as usize }
}

/// How far one step of the driver moves from `off`: the chosen rule's marker,
/// or one code point of text.
pub open spec fn advance_at(reg: Seq<Handler>, s: Seq<char>, off: int) -> int {
    let c = select(reg, s, off);
    if c is Some && 0 <= c->0 < reg.len() && marker_at(reg[c->0].marker@, s, off) {
        reg[c->0].marker@.len() as int
    } else {
        1
    }
}

/// The driver from offset `off` on, with `stack` and `tg` open and `toks`
/// emitted so far: at each offset before the end the chosen rule fires, or
/// one code point goes to text. Gives the constructs left open and the tokens.
pub open spec fn lex_run(
    reg: Seq<Handler>,
    s: Seq<char>,
    off: int,
    stack: Seq<TokenType>,
    tg: Toggles,
    toks: Seq<TokenView>,
) -> (Seq<TokenType>, Seq<TokenView>)
    decreases s.len() - off,
{
    if off < 0 || off >= s.len() {
        (stack, toks)
    } else {
        let pos = position_in(s, off);
        let c = select(reg, s, off);
        if c is Some && 0 <= c->0 < reg.len() && marker_at(reg[c->0].marker@, s, off) {
            let h = reg[c->0];
            let e = rule_effect(h.kind, h.marker@, pos, stack, tg, toks);
            lex_run(reg, s, off + h.marker@.len(), e.0, e.1, e.2)
        } else {
            lex_run(reg, s, off + 1, stack, tg, with_text(toks, seq![s[off]], pos))
        }
    }
}

/// What lexing `s` with the rules `reg` gives: the constructs left open at
/// the end, and the tokens.
pub open spec fn lex_spec(reg: Seq<Handler>, s: Seq<char>) -> (Seq<TokenType>, Seq<TokenView>) {
    lex_run(reg, s, 0, Seq::empty(), Toggles::none_open(), Seq::empty())
}

/// The tokens of a run, and the structural constructs still open at its end,
/// innermost last.
pub struct LexOutput {
    pub tokens: Vec<Token>,
    pub unterminated: Vec<TokenType>,
}

proof fn lemma_position_in(p: Position, s: Seq<char>, n: int)
    requires
        is_position_of(p, s, n),
    ensures
        p == position_in(s, n),
{
}

/// Turns `input` into tokens with the rules of `registry`.
pub fn lex(registry: &Registry, input: &str) -> (r: LexOutput)
    requires
        input@.len() < usize::MAX,
    ensures
        (r.unterminated@, views(r.tokens@)) == lex_spec(registry.handlers@, input@),
        plain(r.tokens@),
        texts(views(r.tokens@)) == input@,
        replay(kinds(views(r.tokens@))) is Some,
        (replay(kinds(views(r.tokens@)))->0).0 == r.unterminated@,
{
    let mut context = LexerContext::new(input);
    let mut tokens: Vec<Token> = Vec::new();
    let mut stack: Vec<TokenType> = Vec::new();
    let fallback = TextFallback;
    assert(views(tokens@) =~= Seq::<TokenView>::empty());
    assert(stack@ =~= Seq::<TokenType>::empty());
    while !context.is_eof()
        invariant
            context.wf(),
            context.input@ == input@,
            plain(tokens@),
            lex_run(
                registry.handlers@,
                input@,
                context.offset(),
                stack@,
                context.toggles,
                views(tokens@),
            ) == lex_spec(registry.handlers@, input@),
        decreases context.input.len() - context.offset(),
    {
        proof {
            lemma_select(registry.handlers@, input@, context.offset());
            lemma_position_in(context.cursor, input@, context.offset());
        }
        match registry.dispatch(&context) {
            Some(i) => {
                registry.handlers[i].handle(&mut context, &mut tokens, &mut stack);
            },
            None => {
                fallback.fallback(&mut context, &mut tokens);
            },
        }
    }
    proof {
        lemma_lex_spec(registry.handlers@, input@);
    }
    LexOutput { tokens, unterminated: stack }
}

proof fn lemma_push_kind(toks: Seq<TokenView>, t: TokenView, st: (Seq<TokenType>, Toggles))
    requires
        replay(kinds(toks)) == Some(st),
    ensures
        replay(kinds(toks.push(t))) == crate::stream::replay_one(st, t.kind),
{
    assert(kinds(toks.push(t)) =~= kinds(toks).push(t.kind));
    assert(kinds(toks.push(t)).drop_last() =~= kinds(toks));
}

/// One rule firing keeps a stream well formed.
proof fn lemma_rule_step(
    h: Handler,
    s: Seq<char>,
    off: int,
    stack: Seq<TokenType>,
    tg: Toggles,
    toks: Seq<TokenView>,
)
    requires
        marker_at(h.marker@, s, off),
        stream_ok(s, off, toks, (stack, tg)),
    ensures
        ({
            let e = rule_effect(h.kind, h.marker@, position_in(s, off), stack, tg, toks);
            stream_ok(s, off + h.marker@.len(), e.2, (e.0, e.1))
        }),
{
    let pos = position_in(s, off);
    lemma_position_bounds(s, off);
    let kind = h.kind;
    let m = h.marker@;
    let tok = |k: TokenType| TokenView { kind: k, text: m, position: pos };
    if kind.is_structural_open() {
        lemma_push_token(s, off, toks, tok(kind));
        lemma_push_kind(toks, tok(kind), (stack, tg));
    } else if kind.opener_of() is Some {
        if stack.len() > 0 && stack.last() == kind.opener_of()->0 {
            lemma_push_token(s, off, toks, tok(kind));
            lemma_push_kind(toks, tok(kind), (stack, tg));
        } else {
            lemma_with_text(s, off, toks, m, pos);
        }
    } else if kind.toggle_of() is Some {
        let t = kind.toggle_of()->0;
        let k = if tg.is_open(t) { t.close_kind() } else { t.open_kind() };
        lemma_push_token(s, off, toks, tok(k));
        lemma_push_kind(toks, tok(k), (stack, tg));
    } else {
        lemma_push_token(s, off, toks, tok(kind));
        lemma_push_kind(toks, tok(kind), (stack, tg));
    }
}

proof fn lemma_text_step(
    s: Seq<char>,
    off: int,
    stack: Seq<TokenType>,
    tg: Toggles,
    toks: Seq<TokenView>,
)
    requires
        0 <= off < s.len(),
        stream_ok(s, off, toks, (stack, tg)),
    ensures
        stream_ok(s, off + 1, with_text(toks, seq![s[off]], position_in(s, off)), (stack, tg)),
{
    lemma_position_bounds(s, off);
    assert(s.subrange(off, off + 1) =~= seq![s[off]]);
    lemma_with_text(s, off, toks, seq![s[off]], position_in(s, off));
}

/// From a well-formed stream, the rest of the run ends in a well-formed
/// stream over the whole input.
proof fn lemma_lex_run(
    reg: Seq<Handler>,
    s: Seq<char>,
    off: int,
    stack: Seq<TokenType>,
    tg: Toggles,
    toks: Seq<TokenView>,
)
    requires
        0 <= off <= s.len(),
        stream_ok(s, off, toks, (stack, tg)),
    ensures
        ({
            let r = lex_run(reg, s, off, stack, tg, toks);
            &&& texts(r.1) == s
            &&& s.len() < usize::MAX ==> positioned(s, r.1)
            &&& replay(kinds(r.1)) is Some
            &&& (replay(kinds(r.1))->0).0 == r.0
        }),
    decreases s.len() - off,
{
    if off >= s.len() {
        assert(s.take(off) =~= s);
    } else {
        let pos = position_in(s, off);
        let c = select(reg, s, off);
        if c is Some && 0 <= c->0 < reg.len() && marker_at(reg[c->0].marker@, s, off) {
            let h = reg[c->0];
            let e = rule_effect(h.kind, h.marker@, pos, stack, tg, toks);
            lemma_rule_step(h, s, off, stack, tg, toks);
            lemma_lex_run(reg, s, off + h.marker@.len(), e.0, e.1, e.2);
        } else {
            lemma_text_step(s, off, stack, tg, toks);
            lemma_lex_run(reg, s, off + 1, stack, tg, with_text(toks, seq![s[off]], pos));
        }
    }
}

proof fn lemma_lex_spec(reg: Seq<Handler>, s: Seq<char>)
    ensures
        ({
            let r = lex_spec(reg, s);
            &&& texts(r.1) == s
            &&& s.len() < usize::MAX ==> positioned(s, r.1)
            &&& replay(kinds(r.1)) is Some
            &&& (replay(kinds(r.1))->0).0 == r.0
        }),
{
    let e = Seq::<TokenView>::empty();
    assert(kinds(e) =~= Seq::<TokenType>::empty());
    assert(s.take(0) =~= Seq::<char>::empty());
    lemma_lex_run(reg, s, 0, Seq::empty(), Toggles::none_open(), e);
}

/// Lexing loses and repeats nothing: the texts of the tokens, joined in
/// order, are the input.
pub proof fn lemma_lex_reconstructs(reg: Seq<Handler>, s: Seq<char>)
    ensures
        texts(lex_spec(reg, s).1) == s,
{
    lemma_lex_spec(reg, s);
}

/// Each step of the driver, at any offset before the end, moves forward by at
/// least one code point and not past the end: by the chosen rule's marker when
/// a rule fires, else by one code point of text.
pub proof fn lemma_progress(reg: Seq<Handler>, s: Seq<char>, off: int)
    requires
        0 <= off < s.len(),
    ensures
        1 <= advance_at(reg, s, off) <= s.len() - off,
        select(reg, s, off) is Some ==> advance_at(reg, s, off) == reg[select(
            reg,
            s,
            off,
        )->0].marker@.len(),
{
    lemma_select(reg, s, off);
}

/// Every close in the output closes something open: a structural close the
/// innermost open construct of its kind, a toggled close an open span of its
/// own kind; and what is reported as unterminated is exactly what is left open.
pub proof fn lemma_lex_pairing(reg: Seq<Handler>, s: Seq<char>)
    ensures
        replay(kinds(lex_spec(reg, s).1)) is Some,
        (replay(kinds(lex_spec(reg, s).1))->0).0 == lex_spec(reg, s).0,
{
    lemma_lex_spec(reg, s);
}

proof fn lemma_positioned(s: Seq<char>, toks: Seq<TokenView>)
    requires
        positioned(s, toks),
    ensures
        forall|i: int|
            0 <= i < toks.len() ==> {
                &&& (#[trigger] toks[i]).text.len() > 0
                &&& toks[i].position.offset + toks[i].text.len() <= texts(toks).len()
                &&& is_position_of(toks[i].position, s, toks[i].position.offset as int)
            },
        forall|i: int, j: int|
            0 <= i < j < toks.len() ==> (#[trigger] toks[i]).position.offset
                < (#[trigger] toks[j]).position.offset,
    decreases toks.len(),
{
    if toks.len() > 0 {
        let d = toks.drop_last();
        lemma_positioned(s, d);
        assert forall|i: int| 0 <= i < toks.len() - 1 implies toks[i] == d[i] by {}
        assert forall|i: int, j: int|
            0 <= i < j < toks.len() implies (#[trigger] toks[i]).position.offset
                < (#[trigger] toks[j]).position.offset by {
            assert(toks[i] == d[i]);
            if j < toks.len() - 1 {
                assert(toks[j] == d[j]);
            }
        }
    }
}

/// Token offsets grow strictly along the output, and each token's line and
/// column are those of its offset in the input.
pub proof fn lemma_lex_positions(reg: Seq<Handler>, s: Seq<char>)
    requires
        s.len() < usize::MAX,
    ensures
        forall|i: int|
            0 <= i < lex_spec(reg, s).1.len() ==> is_position_of(
                (#[trigger] lex_spec(reg, s).1[i]).position,
                s,
                lex_spec(reg, s).1[i].position.offset as int,
            ),
        forall|i: int, j: int|
            0 <= i < j < lex_spec(reg, s).1.len() ==> (#[trigger] lex_spec(reg, s).1[i]).position.offset
                < (#[trigger] lex_spec(reg, s).1[j]).position.offset,
{
    lemma_lex_spec(reg, s);
    lemma_positioned(s, lex_spec(reg, s).1);
}

} // verus!
