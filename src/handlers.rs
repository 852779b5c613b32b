use vstd::prelude::*;
use vstd::string::StringExecFns;
use crate::context::{LexerContext, marker_at};
use crate::position::Position;
use crate::stream::{plain, views, with_text};
use crate::text::string_of;
use crate::token::{Token, TokenType, TokenView, Toggles};

verus! {

/// A rule that recognises one markup construct at the cursor.
pub trait TokenHandler {
    /// Whether the rule fires at `offset` of `input`.
    spec fn fires_at(&self, input: Seq<char>, offset: int) -> bool;

    /// A side-effect-free test at the cursor.
    fn can_handle(&self, context: &LexerContext) -> (r: bool)
        requires
            context.wf(),
        ensures
            r == self.fires_at(context.input@, context.offset()),
    ;

    /// Consumes the construct at the cursor and emits its tokens; always
    /// consumes at least one code point.
    fn handle(
        &self,
        context: &mut LexerContext,
        tokens: &mut Vec<Token>,
        token_stack: &mut Vec<TokenType>,
    ) -> (r: bool)
        requires
            old(context).wf(),
            self.fires_at(old(context).input@, old(context).offset()),
        ensures
            final(context).wf(),
            final(context).input == old(context).input,
            final(context).offset() > old(context).offset(),
    ;

    /// Higher fires first.
    fn priority(&self) -> u64;

    /// The kind of token the rule is registered for.
    fn get_token_type(&self) -> TokenType;
}

/// The rule of last resort: it fires wherever input remains.
pub trait BaseTokenHandler: TokenHandler {
    /// Consumes one code point as literal text.
    fn fallback(&self, context: &mut LexerContext, tokens: &mut Vec<Token>)
        requires
            old(context).wf(),
            old(context).offset() < old(context).input.len(),
        ensures
            final(context).wf(),
            final(context).input == old(context).input,
            final(context).toggles == old(context).toggles,
            final(context).offset() == old(context).offset() + 1,
    ;
}

/// What a rule for `kind` with `marker`, fired at `pos`, does to the nesting
/// stack, the toggled spans and the tokens.
/// - A structural open is pushed and emitted.
/// - A structural close is emitted and popped when its open is on top of the
///   stack; otherwise its marker is literal text.
/// - A toggled kind (open or close alike) emits the close of its span when
///   the span is open, else the open, and flips the span.
/// - Any other kind is emitted as it is.
pub open spec fn rule_effect(
    kind: TokenType,
    marker: Seq<char>,
    pos: Position,
    stack: Seq<TokenType>,
    tg: Toggles,
    toks: Seq<TokenView>,
) -> (Seq<TokenType>, Toggles, Seq<TokenView>) {
    let tok = |k: TokenType| TokenView { kind: k, text: marker, position: pos };
    if kind.is_structural_open() {
        (stack.push(kind), tg, toks.push(tok(kind)))
    } else if kind.opener_of() is Some {
        if stack.len() > 0 && stack.last() == kind.opener_of()->0 {
            (stack.drop_last(), tg, toks.push(tok(kind)))
        } else {
            (stack, tg, with_text(toks, marker, pos))
        }
    } else if kind.toggle_of() is Some {
        let t = kind.toggle_of()->0;
        if tg.is_open(t) {
            (stack, tg.with(t, false), toks.push(tok(t.close_kind())))
        } else {
            (stack, tg.with(t, true), toks.push(tok(t.open_kind())))
        }
    } else {
        (stack, tg, toks.push(tok(kind)))
    }
}

/// Adds `text` as literal text at `pos`, merged into a trailing text token.
pub fn push_text(tokens: &mut Vec<Token>, text: String, pos: Position)
    ensures
        views(final(tokens)@) == with_text(views(old(tokens)@), text@, pos),
        plain(old(tokens)@) ==> plain(final(tokens)@),
{
    let n = tokens.len();
    if n > 0 && tokens[n - 1].token_type == TokenType::Text {
        let ghost before = views(tokens@);
        let ghost old_toks = tokens@;
        let mut last = tokens.pop().unwrap();
        last.value.append(text.as_str());
        tokens.push(last);
        assert(forall|i: int| 0 <= i < n - 1 ==> tokens@[i] == old_toks[i]);
        assert(views(tokens@) =~= with_text(before, text@, pos));
    } else {
        let ghost before = views(tokens@);
        tokens.push(Token { token_type: TokenType::Text, value: text, position: pos, attributes: None });
        assert(views(tokens@) =~= with_text(before, text@, pos));
    }
}

/// A rule given as data: a marker, the kind it stands for, and a priority.
pub struct Handler {
    pub priority: u64,
    pub marker: Vec<char>,
    pub kind: TokenType,
}

impl TokenHandler for Handler {
    open spec fn fires_at(&self, input: Seq<char>, offset: int) -> bool {
        marker_at(self.marker@, input, offset)
    }

    fn can_handle(&self, context: &LexerContext) -> (r: bool) {
        context.at_marker(&self.marker)
    }

    /// Returns whether the marker was taken as markup rather than text.
    fn handle(
        &self,
        context: &mut LexerContext,
        tokens: &mut Vec<Token>,
        token_stack: &mut Vec<TokenType>,
    ) -> (r: bool)
        ensures
            final(context).offset() == old(context).offset() + self.marker@.len(),
            (final(token_stack)@, final(context).toggles, views(final(tokens)@)) == rule_effect(
                self.kind,
                self.marker@,
                old(context).cursor,
                old(token_stack)@,
                old(context).toggles,
                views(old(tokens)@),
            ),
            plain(old(tokens)@) ==> plain(final(tokens)@),
            !r <==> (self.kind.opener_of() is Some && !(old(token_stack)@.len() > 0 && old(
                token_stack,
            )@.last() == self.kind.opener_of()->0)),
    {
        let start = context.position();
        let consumed = context.advance(self.marker.len());
        assert(consumed@ =~= self.marker@);
        let text = string_of(&consumed);
        let ghost toks0 = views(tokens@);
        if self.kind.structural_open() {
            token_stack.push(self.kind);
            tokens.push(context.emit(self.kind, text, None, start));
            assert(views(tokens@) =~= toks0.push(TokenView { kind: self.kind, text: self.marker@, position: start }));
            return true;
        }
        match self.kind.opener() {
            Some(open) => {
                let n = token_stack.len();
                if n > 0 && token_stack[n - 1] == open {
                    token_stack.pop();
                    tokens.push(context.emit(self.kind, text, None, start));
                    assert(views(tokens@) =~= toks0.push(TokenView { kind: self.kind, text: self.marker@, position: start }));
                    true
                } else {
                    push_text(tokens, text, start);
                    false
                }
            },
            None => {
                match self.kind.toggle() {
                    Some(t) => {
                        let kind = if context.toggles.get(t) {
                            t.close_token()
                        } else {
                            t.open_token()
                        };
                        let now_open = !context.toggles.get(t);
                        context.toggles.set(t, now_open);
                        tokens.push(context.emit(kind, text, None, start));
                        assert(views(tokens@) =~= toks0.push(TokenView { kind, text: self.marker@, position: start }));
                        true
                    },
                    None => {
                        tokens.push(context.emit(self.kind, text, None, start));
                        assert(views(tokens@) =~= toks0.push(TokenView { kind: self.kind, text: self.marker@, position: start }));
                        true
                    },
                }
            },
        }
    }

    fn priority(&self) -> (r: u64)
        ensures
            r == self.priority,
    {
        self.priority
    }

    fn get_token_type(&self) -> (r: TokenType)
        ensures
            r == self.kind,
    {
        self.kind
    }
}

/// The fallback rule: one code point of literal text.
pub struct TextFallback;

impl TokenHandler for TextFallback {
    open spec fn fires_at(&self, input: Seq<char>, offset: int) -> bool {
        0 <= offset < input.len()
    }

    fn can_handle(&self, context: &LexerContext) -> (r: bool) {
        !context.is_eof()
    }

    /// Always returns false: nothing was taken as markup.
    fn handle(
        &self,
        context: &mut LexerContext,
        tokens: &mut Vec<Token>,
        token_stack: &mut Vec<TokenType>,
    ) -> (r: bool)
        ensures
            !r,
            final(token_stack)@ == old(token_stack)@,
            final(context).toggles == old(context).toggles,
            views(final(tokens)@) == with_text(
                views(old(tokens)@),
                seq![old(context).input@[old(context).offset()]],
                old(context).cursor,
            ),
            plain(old(tokens)@) ==> plain(final(tokens)@),
    {
        self.fallback(context, tokens);
        false
    }

    fn priority(&self) -> (r: u64)
        ensures
            r == 0,
    {
        0
    }

    fn get_token_type(&self) -> (r: TokenType)
        ensures
            r == TokenType::Text,
    {
        TokenType::Text
    }
}

impl BaseTokenHandler for TextFallback {
    fn fallback(&self, context: &mut LexerContext, tokens: &mut Vec<Token>)
        ensures
            views(final(tokens)@) == with_text(
                views(old(tokens)@),
                seq![old(context).input@[old(context).offset()]],
                old(context).cursor,
            ),
            plain(old(tokens)@) ==> plain(final(tokens)@),
    {
        let start = context.position();
        let consumed = context.advance(1);
        assert(consumed@ =~= seq![old(context).input@[old(context).offset()]]);
        push_text(tokens, string_of(&consumed), start);
    }
}

} // verus!
