use markup_lexer::inline::simple_inline;

#[test]
fn emphasis_spans() {
    assert_eq!(simple_inline("a//b//c"), "a<em>b</em>c");
    assert_eq!(simple_inline("**s**"), "<strong>s</strong>");
    assert_eq!(simple_inline("__u__~~x~~"), "<u>u</u><s>x</s>");
}

#[test]
fn break_and_unclosed() {
    assert_eq!(simple_inline("a\\\\b"), "a<br />b");
    assert_eq!(simple_inline("**open"), "<strong>open");
    assert_eq!(simple_inline("*single/"), "*single/");
    assert_eq!(simple_inline(""), "");
}

#[test]
fn spans_toggle_without_nesting() {
    assert_eq!(simple_inline("//**//**"), "<em><strong></em></strong>");
    assert_eq!(simple_inline("***"), "<strong>*");
}
