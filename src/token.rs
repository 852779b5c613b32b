use vstd::prelude::*;
use crate::position::Position;

verus! {

/// Every kind of token the lexer emits: paired open/close markers and leaves.
#[derive(Debug, Clone, Copy, PartialEq, Eq, Structural)]
pub enum TokenType {
    CalloutOpen,
    CalloutClose,
    SubOpen,
    SubClose,
    SupOpen,
    SupClose,
    BlockquoteOpen,
    BlockquoteClose,
    TableOpen,
    TableClose,
    TheadOpen,
    TheadClose,
    TbodyOpen,
    TbodyClose,
    TfootOpen,
    TfootClose,
    TrOpen,
    TrClose,
    TdOpen,
    TdClose,
    ThOpen,
    ThClose,
    Text,
    BoldOpen,
    BoldClose,
    UnderlineOpen,
    UnderlineClose,
    ItalicOpen,
    ItalicClose,
    StrikeOpen,
    StrikeClose,
    Linebreak,
    Newline,
    Whitespace,
}

impl TokenType {
    /// The stable, upper-case wire name of a kind.
    pub open spec fn name(self) -> Seq<char> {
        match self {
            TokenType::CalloutOpen => "CALLOUT_OPEN"@,
            TokenType::CalloutClose => "CALLOUT_CLOSE"@,
            TokenType::SubOpen => "SUB_OPEN"@,
            TokenType::SubClose => "SUB_CLOSE"@,
            TokenType::SupOpen => "SUP_OPEN"@,
            TokenType::SupClose => "SUP_CLOSE"@,
            TokenType::BlockquoteOpen => "BLOCKQUOTE_OPEN"@,
            TokenType::BlockquoteClose => "BLOCKQUOTE_CLOSE"@,
            TokenType::TableOpen => "TABLE_OPEN"@,
            TokenType::TableClose => "TABLE_CLOSE"@,
            TokenType::TheadOpen => "THEAD_OPEN"@,
            TokenType::TheadClose => "THEAD_CLOSE"@,
            TokenType::TbodyOpen => "TBODY_OPEN"@,
            TokenType::TbodyClose => "TBODY_CLOSE"@,
            TokenType::TfootOpen => "TFOOT_OPEN"@,
            TokenType::TfootClose => "TFOOT_CLOSE"@,
            TokenType::TrOpen => "TR_OPEN"@,
            TokenType::TrClose => "TR_CLOSE"@,
            TokenType::TdOpen => "TD_OPEN"@,
            TokenType::TdClose => "TD_CLOSE"@,
            TokenType::ThOpen => "TH_OPEN"@,
            TokenType::ThClose => "TH_CLOSE"@,
            TokenType::Text => "TEXT"@,
            TokenType::BoldOpen => "BOLD_OPEN"@,
            TokenType::BoldClose => "BOLD_CLOSE"@,
            TokenType::UnderlineOpen => "UNDERLINE_OPEN"@,
            TokenType::UnderlineClose => "UNDERLINE_CLOSE"@,
            TokenType::ItalicOpen => "ITALIC_OPEN"@,
            TokenType::ItalicClose => "ITALIC_CLOSE"@,
            TokenType::StrikeOpen => "STRIKE_OPEN"@,
            TokenType::StrikeClose => "STRIKE_CLOSE"@,
            TokenType::Linebreak => "LINEBREAK"@,
            TokenType::Newline => "NEWLINE"@,
            TokenType::Whitespace => "WHITESPACE"@,
        }
    }

    /// The canonical name of this kind, as used in diagnostics and serialisation.
    pub fn as_str(&self) -> (r: &'static str)
        ensures
            r@ == self.name(),
    {
        match self {
            TokenType::CalloutOpen => "CALLOUT_OPEN",
            TokenType::CalloutClose => "CALLOUT_CLOSE",
            TokenType::SubOpen => "SUB_OPEN",
            TokenType::SubClose => "SUB_CLOSE",
            TokenType::SupOpen => "SUP_OPEN",
            TokenType::SupClose => "SUP_CLOSE",
            TokenType::BlockquoteOpen => "BLOCKQUOTE_OPEN",
            TokenType::BlockquoteClose => "BLOCKQUOTE_CLOSE",
            TokenType::TableOpen => "TABLE_OPEN",
            TokenType::TableClose => "TABLE_CLOSE",
            TokenType::TheadOpen => "THEAD_OPEN",
            TokenType::TheadClose => "THEAD_CLOSE",
            TokenType::TbodyOpen => "TBODY_OPEN",
            TokenType::TbodyClose => "TBODY_CLOSE",
            TokenType::TfootOpen => "TFOOT_OPEN",
            TokenType::TfootClose => "TFOOT_CLOSE",
            TokenType::TrOpen => "TR_OPEN",
            TokenType::TrClose => "TR_CLOSE",
            TokenType::TdOpen => "TD_OPEN",
            TokenType::TdClose => "TD_CLOSE",
            TokenType::ThOpen => "TH_OPEN",
            TokenType::ThClose => "TH_CLOSE",
            TokenType::Text => "TEXT",
            TokenType::BoldOpen => "BOLD_OPEN",
            TokenType::BoldClose => "BOLD_CLOSE",
            TokenType::UnderlineOpen => "UNDERLINE_OPEN",
            TokenType::UnderlineClose => "UNDERLINE_CLOSE",
            TokenType::ItalicOpen => "ITALIC_OPEN",
            TokenType::ItalicClose => "ITALIC_CLOSE",
            TokenType::StrikeOpen => "STRIKE_OPEN",
            TokenType::StrikeClose => "STRIKE_CLOSE",
            TokenType::Linebreak => "LINEBREAK",
            TokenType::Newline => "NEWLINE",
            TokenType::Whitespace => "WHITESPACE",
        }
    }
}

/// The four inline spans that open and close by toggling.
#[derive(Debug, Clone, Copy, PartialEq, Eq, Structural)]
pub enum Toggle {
    Bold,
    Italic,
    Underline,
    Strike,
}

impl Toggle {
    /// The kind emitted when the span opens.
    pub open spec fn open_kind(self) -> TokenType {
        match self {
            Toggle::Bold => TokenType::BoldOpen,
            Toggle::Italic => TokenType::ItalicOpen,
            Toggle::Underline => TokenType::UnderlineOpen,
            Toggle::Strike => TokenType::StrikeOpen,
        }
    }

    /// The kind emitted when the span closes.
    pub open spec fn close_kind(self) -> TokenType {
        match self {
            Toggle::Bold => TokenType::BoldClose,
            Toggle::Italic => TokenType::ItalicClose,
            Toggle::Underline => TokenType::UnderlineClose,
            Toggle::Strike => TokenType::StrikeClose,
        }
    }

    pub fn open_token(self) -> (r: TokenType)
        ensures
            r == self.open_kind(),
    {
        match self {
            Toggle::Bold => TokenType::BoldOpen,
            Toggle::Italic => TokenType::ItalicOpen,
            Toggle::Underline => TokenType::UnderlineOpen,
            Toggle::Strike => TokenType::StrikeOpen,
        }
    }

    pub fn close_token(self) -> (r: TokenType)
        ensures
            r == self.close_kind(),
    {
        match self {
            Toggle::Bold => TokenType::BoldClose,
            Toggle::Italic => TokenType::ItalicClose,
            Toggle::Underline => TokenType::UnderlineClose,
            Toggle::Strike => TokenType::StrikeClose,
        }
    }
}

/// Which toggled spans are open: one flag per span.
#[derive(Debug, Clone, Copy, PartialEq, Eq, Structural)]
pub struct Toggles {
    pub bold: bool,
    pub italic: bool,
    pub underline: bool,
    pub strike: bool,
}

impl Toggles {
    pub open spec fn is_open(self, t: Toggle) -> bool {
        match t {
            Toggle::Bold => self.bold,
            Toggle::Italic => self.italic,
            Toggle::Underline => self.underline,
            Toggle::Strike => self.strike,
        }
    }

    pub open spec fn with(self, t: Toggle, open: bool) -> Toggles {
        match t {
            Toggle::Bold => Toggles { bold: open, ..self },
            Toggle::Italic => Toggles { italic: open, ..self },
            Toggle::Underline => Toggles { underline: open, ..self },
            Toggle::Strike => Toggles { strike: open, ..self },
        }
    }

    pub open spec fn none_open() -> Toggles {
        Toggles { bold: false, italic: false, underline: false, strike: false }
    }

    /// No span open.
    pub fn closed() -> (r: Toggles)
        ensures
            r == Toggles::none_open(),
    {
        Toggles { bold: false, italic: false, underline: false, strike: false }
    }

    pub fn get(&self, t: Toggle) -> (r: bool)
        ensures
            r == self.is_open(t),
    {
        match t {
            Toggle::Bold => self.bold,
            Toggle::Italic => self.italic,
            Toggle::Underline => self.underline,
            Toggle::Strike => self.strike,
        }
    }

    pub fn set(&mut self, t: Toggle, open: bool)
        ensures
            *final(self) == old(self).with(t, open),
    {
        match t {
            Toggle::Bold => self.bold = open,
            Toggle::Italic => self.italic = open,
            Toggle::Underline => self.underline = open,
            Toggle::Strike => self.strike = open,
        }
    }
}

/// What a token is, as the contracts see it.
pub struct TokenView {
    pub kind: TokenType,
    pub text: Seq<char>,
    pub position: Position,
}

/// A classified, positioned piece of the input.
#[derive(Debug)]
pub struct Token {
    pub token_type: TokenType,
    /// The raw text that was matched.
    pub value: String,
    /// Where the match starts.
    pub position: Position,
    /// Structured extras, such as a callout's type and title: a mapping, so
    /// no key appears twice (see `keys_unique`).
    pub attributes: Option<Vec<(String, String)>>,
}

/// No two entries of the attribute list share a key.
pub open spec fn keys_unique(attributes: Option<Vec<(String, String)>>) -> bool {
    match attributes {
        Some(v) => forall|i: int, j: int|
            0 <= i < j < v.len() ==> (#[trigger] v@[i]).0@ != (#[trigger] v@[j]).0@,
        None => true,
    }
}

impl View for Token {
    type V = TokenView;

    open spec fn view(&self) -> TokenView {
        TokenView { kind: self.token_type, text: self.value@, position: self.position }
    }
}

impl TokenType {
    /// For a structural close marker, the open marker it closes.
    pub open spec fn opener_of(self) -> Option<TokenType> {
        match self {
            TokenType::CalloutClose => Some(TokenType::CalloutOpen),
            TokenType::SubClose => Some(TokenType::SubOpen),
            TokenType::SupClose => Some(TokenType::SupOpen),
            TokenType::BlockquoteClose => Some(TokenType::BlockquoteOpen),
            TokenType::TableClose => Some(TokenType::TableOpen),
            TokenType::TheadClose => Some(TokenType::TheadOpen),
            TokenType::TbodyClose => Some(TokenType::TbodyOpen),
            TokenType::TfootClose => Some(TokenType::TfootOpen),
            TokenType::TrClose => Some(TokenType::TrOpen),
            TokenType::TdClose => Some(TokenType::TdOpen),
            TokenType::ThClose => Some(TokenType::ThOpen),
            _ => None,
        }
    }

    /// A structural open marker, kept on the nesting stack until closed.
    pub open spec fn is_structural_open(self) -> bool {
        match self {
            TokenType::CalloutOpen | TokenType::SubOpen | TokenType::SupOpen
            | TokenType::BlockquoteOpen | TokenType::TableOpen | TokenType::TheadOpen
            | TokenType::TbodyOpen | TokenType::TfootOpen | TokenType::TrOpen
            | TokenType::TdOpen | TokenType::ThOpen => true,
            _ => false,
        }
    }

    /// The toggled span that a kind opens or closes, if any.
    pub open spec fn toggle_of(self) -> Option<Toggle> {
        match self {
            TokenType::BoldOpen | TokenType::BoldClose => Some(Toggle::Bold),
            TokenType::ItalicOpen | TokenType::ItalicClose => Some(Toggle::Italic),
            TokenType::UnderlineOpen | TokenType::UnderlineClose => Some(Toggle::Underline),
            TokenType::StrikeOpen | TokenType::StrikeClose => Some(Toggle::Strike),
            _ => None,
        }
    }

    pub fn opener(&self) -> (r: Option<TokenType>)
        ensures
            r == self.opener_of(),
    {
        match self {
            TokenType::CalloutClose => Some(TokenType::CalloutOpen),
            TokenType::SubClose => Some(TokenType::SubOpen),
            TokenType::SupClose => Some(TokenType::SupOpen),
            TokenType::BlockquoteClose => Some(TokenType::BlockquoteOpen),
            TokenType::TableClose => Some(TokenType::TableOpen),
            TokenType::TheadClose => Some(TokenType::TheadOpen),
            TokenType::TbodyClose => Some(TokenType::TbodyOpen),
            TokenType::TfootClose => Some(TokenType::TfootOpen),
            TokenType::TrClose => Some(TokenType::TrOpen),
            TokenType::TdClose => Some(TokenType::TdOpen),
            TokenType::ThClose => Some(TokenType::ThOpen),
            _ => None,
        }
    }

    pub fn structural_open(&self) -> (r: bool)
        ensures
            r == self.is_structural_open(),
    {
        match self {
            TokenType::CalloutOpen | TokenType::SubOpen | TokenType::SupOpen
            | TokenType::BlockquoteOpen | TokenType::TableOpen | TokenType::TheadOpen
            | TokenType::TbodyOpen | TokenType::TfootOpen | TokenType::TrOpen
            | TokenType::TdOpen | TokenType::ThOpen => true,
            _ => false,
        }
    }

    pub fn toggle(&self) -> (r: Option<Toggle>)
        ensures
            r == self.toggle_of(),
    {
        match self {
            TokenType::BoldOpen | TokenType::BoldClose => Some(Toggle::Bold),
            TokenType::ItalicOpen | TokenType::ItalicClose => Some(Toggle::Italic),
            TokenType::UnderlineOpen | TokenType::UnderlineClose => Some(Toggle::Underline),
            TokenType::StrikeOpen | TokenType::StrikeClose => Some(Toggle::Strike),
            _ => None,
        }
    }
}

} // verus!
