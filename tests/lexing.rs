use markup_lexer::context::LexerContext;
use markup_lexer::handlers::{BaseTokenHandler, Handler, TextFallback, TokenHandler};
use markup_lexer::lexer::{lex, LexOutput};
use markup_lexer::position::Position;
use markup_lexer::registry::Registry;
use markup_lexer::token::{Token, TokenType};

fn inline(input: &str) -> LexOutput {
    lex(&Registry::inline_default(), input)
}

fn shape(tokens: &[Token]) -> Vec<(TokenType, String)> {
    tokens.iter().map(|t| (t.token_type, t.value.clone())).collect()
}

fn joined(tokens: &[Token]) -> String {
    tokens.iter().map(|t| t.value.as_str()).collect()
}

fn custom(rules: &[(u64, &str, TokenType)]) -> Registry {
    Registry::new(rules.iter().map(|(p, m, k)| (*p, m.to_string(), *k)).collect()).unwrap()
}

#[test]
fn strong_span_in_text() {
    let out = inline("a**b**c");
    assert_eq!(
        shape(&out.tokens),
        vec![
            (TokenType::Text, "a".to_string()),
            (TokenType::BoldOpen, "**".to_string()),
            (TokenType::Text, "b".to_string()),
            (TokenType::BoldClose, "**".to_string()),
            (TokenType::Text, "c".to_string()),
        ]
    );
    assert!(out.unterminated.is_empty());
}

#[test]
fn empty_input_gives_nothing() {
    let out = inline("");
    assert!(out.tokens.is_empty());
    assert!(out.unterminated.is_empty());
}

#[test]
fn lone_star_is_text() {
    let out = inline("*unclosed");
    assert_eq!(shape(&out.tokens), vec![(TokenType::Text, "*unclosed".to_string())]);
    assert!(out.unterminated.is_empty());
}

#[test]
fn newline_moves_to_next_line() {
    let out = inline("a\nb");
    assert_eq!(
        shape(&out.tokens),
        vec![
            (TokenType::Text, "a".to_string()),
            (TokenType::Newline, "\n".to_string()),
            (TokenType::Text, "b".to_string()),
        ]
    );
    assert_eq!(out.tokens[0].position, Position { line: 1, column: 1, offset: 0 });
    assert_eq!(out.tokens[1].position, Position { line: 1, column: 2, offset: 1 });
    assert_eq!(out.tokens[2].position, Position { line: 2, column: 1, offset: 2 });
}

#[test]
fn texts_rejoin_to_input() {
    for input in ["", "plain", "a**b//c__d~~e\\\\f\ng", "**//__~~", "é**ü", "x*y/z_"] {
        assert_eq!(joined(&inline(input).tokens), input);
    }
}

#[test]
fn offsets_strictly_increase() {
    let input = "ab**c\n//d\\\\e\nf";
    let out = inline(input);
    let chars: Vec<char> = input.chars().collect();
    for w in out.tokens.windows(2) {
        assert!(w[0].position.offset < w[1].position.offset);
    }
    for t in &out.tokens {
        let before = &chars[..t.position.offset];
        let line = 1 + before.iter().filter(|c| **c == '\n').count();
        let column = 1 + before.iter().rev().take_while(|c| **c != '\n').count();
        assert_eq!((t.position.line, t.position.column), (line, column));
    }
}

#[test]
fn toggles_alternate_per_kind() {
    let out = inline("**//**//**");
    let kinds: Vec<TokenType> = out.tokens.iter().map(|t| t.token_type).collect();
    assert_eq!(
        kinds,
        vec![
            TokenType::BoldOpen,
            TokenType::ItalicOpen,
            TokenType::BoldClose,
            TokenType::ItalicClose,
            TokenType::BoldOpen,
        ]
    );
}

#[test]
fn all_toggles_and_line_break() {
    let out = inline("__u__~~s~~\\\\");
    let kinds: Vec<TokenType> = out.tokens.iter().map(|t| t.token_type).collect();
    assert_eq!(
        kinds,
        vec![
            TokenType::UnderlineOpen,
            TokenType::Text,
            TokenType::UnderlineClose,
            TokenType::StrikeOpen,
            TokenType::Text,
            TokenType::StrikeClose,
            TokenType::Linebreak,
        ]
    );
}

#[test]
fn structural_pairs_nest() {
    let reg = custom(&[
        (5, "[!", TokenType::CalloutOpen),
        (5, "!]", TokenType::CalloutClose),
        (5, ">>", TokenType::BlockquoteOpen),
        (5, "<<", TokenType::BlockquoteClose),
    ]);
    let out = lex(&reg, "[!a>>b<<!]");
    let kinds: Vec<TokenType> = out.tokens.iter().map(|t| t.token_type).collect();
    assert_eq!(
        kinds,
        vec![
            TokenType::CalloutOpen,
            TokenType::Text,
            TokenType::BlockquoteOpen,
            TokenType::Text,
            TokenType::BlockquoteClose,
            TokenType::CalloutClose,
        ]
    );
    assert!(out.unterminated.is_empty());
}

#[test]
fn unmatched_close_is_text() {
    let reg = custom(&[
        (5, "[!", TokenType::CalloutOpen),
        (5, "!]", TokenType::CalloutClose),
        (5, ">>", TokenType::BlockquoteOpen),
        (5, "<<", TokenType::BlockquoteClose),
    ]);
    let out = lex(&reg, "x!]y");
    assert_eq!(shape(&out.tokens), vec![(TokenType::Text, "x!]y".to_string())]);
    let out = lex(&reg, "[!a<<");
    assert_eq!(
        shape(&out.tokens),
        vec![(TokenType::CalloutOpen, "[!".to_string()), (TokenType::Text, "a<<".to_string())]
    );
    assert_eq!(out.unterminated, vec![TokenType::CalloutOpen]);
}

#[test]
fn unterminated_constructs_are_reported() {
    let reg = custom(&[(5, "[!", TokenType::CalloutOpen), (5, ">>", TokenType::BlockquoteOpen)]);
    let out = lex(&reg, "[!a>>b");
    assert_eq!(out.unterminated, vec![TokenType::CalloutOpen, TokenType::BlockquoteOpen]);
}

#[test]
fn higher_priority_wins() {
    let reg = custom(&[(1, "*", TokenType::ItalicOpen), (2, "**", TokenType::BoldOpen)]);
    let kinds: Vec<TokenType> = lex(&reg, "***").tokens.iter().map(|t| t.token_type).collect();
    assert_eq!(kinds, vec![TokenType::BoldOpen, TokenType::ItalicOpen]);
}

#[test]
fn first_registered_wins_a_tie() {
    let reg = custom(&[(3, "*", TokenType::ItalicOpen), (3, "**", TokenType::BoldOpen)]);
    let kinds: Vec<TokenType> = lex(&reg, "**").tokens.iter().map(|t| t.token_type).collect();
    assert_eq!(kinds, vec![TokenType::ItalicOpen, TokenType::ItalicClose]);
}

#[test]
fn empty_marker_is_refused() {
    let rules = vec![(1, "**".to_string(), TokenType::BoldOpen), (1, String::new(), TokenType::Text)];
    assert!(Registry::new(rules).is_none());
    let reg = Registry::new(vec![(4, "^^".to_string(), TokenType::SupOpen)]).unwrap();
    assert_eq!(reg.handlers.len(), 1);
    assert_eq!(reg.handlers[0].priority, 4);
    assert_eq!(reg.handlers[0].marker, vec!['^', '^']);
    assert_eq!(reg.handlers[0].kind, TokenType::SupOpen);
}

#[test]
fn dispatch_picks_rule_index() {
    let reg = Registry::inline_default();
    let ctx = LexerContext::new("//x");
    assert_eq!(reg.dispatch(&ctx), Some(1));
    let ctx = LexerContext::new("x//");
    assert_eq!(reg.dispatch(&ctx), None);
}

#[test]
fn context_peek_and_advance() {
    let mut ctx = LexerContext::new("ab\ncd");
    assert!(!ctx.is_eof());
    assert_eq!(ctx.peek(0), Some('a'));
    assert_eq!(ctx.peek(2), Some('\n'));
    assert_eq!(ctx.peek(5), None);
    assert_eq!(ctx.peek(usize::MAX), None);
    assert_eq!(ctx.advance(3), vec!['a', 'b', '\n']);
    assert_eq!(ctx.position(), Position { line: 2, column: 1, offset: 3 });
    assert_eq!(ctx.advance(10), vec!['c', 'd']);
    assert_eq!(ctx.position(), Position { line: 2, column: 3, offset: 5 });
    assert!(ctx.is_eof());
    assert_eq!(ctx.advance(1), Vec::<char>::new());
}

#[test]
fn context_counts_code_points() {
    let mut ctx = LexerContext::new("éa");
    assert_eq!(ctx.peek(1), Some('a'));
    assert_eq!(ctx.advance(1), vec!['é']);
    assert_eq!(ctx.position().offset, 1);
}

#[test]
fn emit_keeps_start_position() {
    let ctx = LexerContext::new("x");
    let start = Position { line: 3, column: 4, offset: 9 };
    let t = ctx.emit(TokenType::Whitespace, " ".to_string(), None, start);
    assert_eq!(t.token_type, TokenType::Whitespace);
    assert_eq!(t.value, " ");
    assert_eq!(t.position, start);
    assert!(t.attributes.is_none());
}

#[test]
fn handler_traits_behave() {
    let h = Handler { priority: 7, marker: vec!['~', '~'], kind: TokenType::StrikeOpen };
    assert_eq!(TokenHandler::priority(&h), 7);
    assert_eq!(h.get_token_type(), TokenType::StrikeOpen);
    let mut ctx = LexerContext::new("~~a");
    assert!(h.can_handle(&ctx));
    let mut tokens = Vec::new();
    let mut stack = Vec::new();
    assert!(h.handle(&mut ctx, &mut tokens, &mut stack));
    assert_eq!(tokens[0].token_type, TokenType::StrikeOpen);
    assert!(!h.can_handle(&ctx));
    let f = TextFallback;
    assert!(f.can_handle(&ctx));
    f.fallback(&mut ctx, &mut tokens);
    assert_eq!(tokens[1].value, "a");
    assert!(!f.can_handle(&ctx));
    assert_eq!(TokenHandler::priority(&f), 0);
}

#[test]
fn kind_names_are_stable() {
    assert_eq!(TokenType::CalloutOpen.as_str(), "CALLOUT_OPEN");
    assert_eq!(TokenType::ThClose.as_str(), "TH_CLOSE");
    assert_eq!(TokenType::Text.as_str(), "TEXT");
    assert_eq!(TokenType::BoldOpen.as_str(), "BOLD_OPEN");
    assert_eq!(TokenType::StrikeClose.as_str(), "STRIKE_CLOSE");
    assert_eq!(TokenType::Whitespace.as_str(), "WHITESPACE");
}

#[test]
fn unmatched_close_handler_reports_text() {
    let h = Handler { priority: 1, marker: vec!['!', ']'], kind: TokenType::CalloutClose };
    let mut ctx = LexerContext::new("!]");
    let mut tokens = Vec::new();
    let mut stack = Vec::new();
    assert!(!h.handle(&mut ctx, &mut tokens, &mut stack));
    assert_eq!(tokens[0].token_type, TokenType::Text);
    assert_eq!(tokens[0].value, "!]");
    let mut ctx = LexerContext::new("!]");
    let mut tokens = Vec::new();
    let mut stack = vec![TokenType::CalloutOpen];
    assert!(h.handle(&mut ctx, &mut tokens, &mut stack));
    assert_eq!(tokens[0].token_type, TokenType::CalloutClose);
    assert!(stack.is_empty());
}

#[test]
fn lexed_tokens_carry_no_attributes() {
    let out = inline("a**b\nc");
    assert!(out.tokens.iter().all(|t| t.attributes.is_none()));
}

#[test]
fn emit_carries_attributes() {
    let ctx = LexerContext::new("x");
    let start = Position { line: 1, column: 1, offset: 0 };
    let attrs = vec![("type".to_string(), "note".to_string()), ("title".to_string(), "Hi".to_string())];
    let t = ctx.emit(TokenType::CalloutOpen, "[!".to_string(), Some(attrs.clone()), start);
    assert_eq!(t.attributes, Some(attrs));
}
