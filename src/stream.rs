use vstd::prelude::*;
use crate::position::{Position, is_position_of};
use crate::token::{Token, TokenType, TokenView, Toggles};

verus! {

/// The views of a sequence of tokens.
pub open spec fn views(toks: Seq<Token>) -> Seq<TokenView> {
    toks.map_values(|t: Token| t@)
}

/// No token carries structured attributes.
pub open spec fn plain(toks: Seq<Token>) -> bool {
    forall|i: int| 0 <= i < toks.len() ==> (#[trigger] toks[i]).attributes is None
}

/// The kinds of a sequence of tokens, in order.
pub open spec fn kinds(toks: Seq<TokenView>) -> Seq<TokenType> {
    toks.map_values(|t: TokenView| t.kind)
}

/// The texts of the tokens, joined in order.
pub open spec fn texts(toks: Seq<TokenView>) -> Seq<char>
    decreases toks.len(),
{
    if toks.len() == 0 {
        Seq::empty()
    } else {
        texts(toks.drop_last()) + toks.last().text
    }
}

/// Nesting stack and toggled spans after one more token of kind `k`, or
/// `None` when `k` closes something that is not open.
pub open spec fn replay_one(
    st: (Seq<TokenType>, Toggles),
    k: TokenType,
) -> Option<(Seq<TokenType>, Toggles)> {
    if k.is_structural_open() {
        Some((st.0.push(k), st.1))
    } else if k.opener_of() is Some {
        if st.0.len() > 0 && st.0.last() == k.opener_of()->0 {
            Some((st.0.drop_last(), st.1))
        } else {
            None
        }
    } else if k.toggle_of() is Some {
        let t = k.toggle_of()->0;
        if k == t.open_kind() {
            if !st.1.is_open(t) {
                Some((st.0, st.1.with(t, true)))
            } else {
                None
            }
        } else if st.1.is_open(t) {
            Some((st.0, st.1.with(t, false)))
        } else {
            None
        }
    } else {
        Some(st)
    }
}

/// Replays a sequence of kinds from nothing open: `Some` with what is left
/// open when every close matches an earlier open (the innermost for nested
/// constructs, the open span of its own kind for toggled ones).
pub open spec fn replay(ks: Seq<TokenType>) -> Option<(Seq<TokenType>, Toggles)>
    decreases ks.len(),
{
    if ks.len() == 0 {
        Some((Seq::empty(), Toggles::none_open()))
    } else {
        match replay(ks.drop_last()) {
            Some(st) => replay_one(st, ks.last()),
            None => None,
        }
    }
}

/// Each token holds text and starts where the texts before it end.
pub open spec fn positioned(s: Seq<char>, toks: Seq<TokenView>) -> bool
    decreases toks.len(),
{
    toks.len() == 0 || {
        &&& positioned(s, toks.drop_last())
        &&& toks.last().text.len() > 0
        &&& is_position_of(toks.last().position, s, texts(toks.drop_last()).len() as int)
    }
}

/// `chars` added as literal text at `pos`: merged into a trailing text token,
/// or as a new one.
pub open spec fn with_text(toks: Seq<TokenView>, chars: Seq<char>, pos: Position) -> Seq<
    TokenView,
> {
    if toks.len() > 0 && toks.last().kind == TokenType::Text {
        toks.drop_last().push(TokenView { text: toks.last().text + chars, ..toks.last() })
    } else {
        toks.push(TokenView { kind: TokenType::Text, text: chars, position: pos })
    }
}

/// What a well-formed stream over the first `n` code points of `s` satisfies,
/// with `st` left open; positions only where every offset fits a `usize`.
pub open spec fn stream_ok(
    s: Seq<char>,
    n: int,
    toks: Seq<TokenView>,
    st: (Seq<TokenType>, Toggles),
) -> bool {
    &&& texts(toks) == s.take(n)
    &&& s.len() < usize::MAX ==> positioned(s, toks)
    &&& replay(kinds(toks)) == Some(st)
}

pub proof fn lemma_push_token(s: Seq<char>, n: int, toks: Seq<TokenView>, t: TokenView)
    requires
        texts(toks) == s.take(n),
        t.text.len() > 0,
        n + t.text.len() <= s.len(),
        s.subrange(n, n + t.text.len()) == t.text,
        0 <= n,
    ensures
        positioned(s, toks) && is_position_of(t.position, s, n) ==> positioned(s, toks.push(t)),
        texts(toks.push(t)) == s.take(n + t.text.len()),
        kinds(toks.push(t)) == kinds(toks).push(t.kind),
{
    assert(toks.push(t).drop_last() =~= toks);
    assert(s.take(n + t.text.len()) =~= s.take(n) + t.text);
    assert(kinds(toks.push(t)) =~= kinds(toks).push(t.kind));
}

pub proof fn lemma_with_text(s: Seq<char>, n: int, toks: Seq<TokenView>, chars: Seq<char>, pos: Position)
    requires
        texts(toks) == s.take(n),
        chars.len() > 0,
        n + chars.len() <= s.len(),
        s.subrange(n, n + chars.len()) == chars,
        0 <= n,
    ensures
        positioned(s, toks) && is_position_of(pos, s, n) ==> positioned(
            s,
            with_text(toks, chars, pos),
        ),
        texts(with_text(toks, chars, pos)) == s.take(n + chars.len()),
        replay(kinds(with_text(toks, chars, pos))) == replay(kinds(toks)),
{
    if toks.len() > 0 && toks.last().kind == TokenType::Text {
        let last = toks.last();
        let nt = TokenView { text: last.text + chars, ..last };
        let r = toks.drop_last().push(nt);
        assert(r.drop_last() =~= toks.drop_last());
        assert(texts(r) =~= texts(toks.drop_last()) + last.text + chars);
        assert(s.take(n + chars.len()) =~= s.take(n) + chars);
        assert(kinds(r) =~= kinds(toks));
    } else {
        let t = TokenView { kind: TokenType::Text, text: chars, position: pos };
        lemma_push_token(s, n, toks, t);
        let ks = kinds(toks.push(t));
        assert(ks.drop_last() =~= kinds(toks));
    }
}

} // verus!
