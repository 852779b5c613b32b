use vstd::prelude::*;
use vstd::string::StringExecFns;
use crate::text::{code_points, push_char};

verus! {

/// Which inline spans are open while text is rendered directly to HTML.
pub struct InlineState {
    pub em: bool,
    pub strong: bool,
    pub underline: bool,
    pub strike: bool,
}

/// True when `s` holds the two-character marker `c c` at index `i`.
pub open spec fn doubled_at(s: Seq<char>, i: int, c: char) -> bool {
    0 <= i && i + 1 < s.len() && s[i] == c && s[i + 1] == c
}

/// The opening or closing HTML tag of a span, by whether it is open now.
pub open spec fn tag(open: bool, start: Seq<char>, end: Seq<char>) -> Seq<char> {
    if open { end } else { start }
}

/// The HTML for `s` from index `i` on, with the spans of `st` open:
/// `//`, `**`, `__` and `~~` toggle emphasis, strong, underline and strike;
/// `\\` is a line break; every other character is copied.
pub open spec fn inline_from(s: Seq<char>, i: int, st: InlineState) -> Seq<char>
    decreases s.len() - i,
{
    if i < 0 || i >= s.len() {
        Seq::empty()
    } else if doubled_at(s, i, '/') {
        tag(st.em, "<em>"@, "</em>"@) + inline_from(s, i + 2, InlineState { em: !st.em, ..st })
    } else if doubled_at(s, i, '*') {
        tag(st.strong, "<strong>"@, "</strong>"@) + inline_from(
            s,
            i + 2,
            InlineState { strong: !st.strong, ..st },
        )
    } else if doubled_at(s, i, '_') {
        tag(st.underline, "<u>"@, "</u>"@) + inline_from(
            s,
            i + 2,
            InlineState { underline: !st.underline, ..st },
        )
    } else if doubled_at(s, i, '~') {
        tag(st.strike, "<s>"@, "</s>"@) + inline_from(
            s,
            i + 2,
            InlineState { strike: !st.strike, ..st },
        )
    } else if doubled_at(s, i, '\\') {
        "<br />"@ + inline_from(s, i + 2, st)
    } else {
        seq![s[i]] + inline_from(s, i + 1, st)
    }
}

/// The HTML for a whole text, with no span open at its start.
pub open spec fn inline_html(s: Seq<char>) -> Seq<char> {
    inline_from(s, 0, InlineState { em: false, strong: false, underline: false, strike: false })
}

fn is_doubled(chars: &Vec<char>, i: usize, c: char) -> (r: bool)
    requires
        i < chars.len(),
    ensures
        r == doubled_at(chars@, i as int, c),
{
    i + 1 < chars.len() && chars[i] == c && chars[i + 1] == c
}

/// Renders the inline markers of `raw` straight to HTML. Each marker toggles
/// its span on its own, with no check that spans nest.
pub fn simple_inline(raw: &str) -> (r: String)
    ensures
        r@ == inline_html(raw@),
{
    let mut out: String = String::new();
    let chars: Vec<char> = code_points(raw);
    let mut i: usize = 0;
    let mut em: bool = false;
    let mut strong: bool = false;
    let mut underline: bool = false;
    let mut strike: bool = false;
    while i < chars.len()
        invariant
            chars@ == raw@,
            i <= chars.len(),
            out@ + inline_from(
                chars@,
                i as int,
                InlineState { em, strong, underline, strike },
            ) == inline_html(raw@),
        decreases chars.len() - i,
    {
        let ghost st = InlineState { em, strong, underline, strike };
        let ghost before = out@;
        let ghost i0 = i;
        if is_doubled(&chars, i, '/') {
            if em {
                out.append("</em>");
            } else {
                out.append("<em>");
            }
            em = !em;
            i += 2;
        } else if is_doubled(&chars, i, '*') {
            if strong {
                out.append("</strong>");
            } else {
                out.append("<strong>");
            }
            strong = !strong;
            i += 2;
        } else if is_doubled(&chars, i, '_') {
            if underline {
                out.append("</u>");
            } else {
                out.append("<u>");
            }
            underline = !underline;
            i += 2;
        } else if is_doubled(&chars, i, '~') {
            if strike {
                out.append("</s>");
            } else {
                out.append("<s>");
            }
            strike = !strike;
            i += 2;
        } else if is_doubled(&chars, i, '\\') {
            out.append("<br />");
            i += 2;
        } else {
            push_char(&mut out, chars[i]);
            i += 1;
        }
        assert(out@ + inline_from(chars@, i as int, InlineState { em, strong, underline, strike })
            =~= before + inline_from(chars@, i0 as int, st));
    }
    out
}

} // verus!
