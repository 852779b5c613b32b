use vstd::prelude::*;
use crate::position::{Position, is_position_of};
use crate::text::code_points;
use crate::token::{Token, TokenType, TokenView, Toggles, keys_unique};

verus! {

/// `m` is a non-empty marker that stands in `s` at offset `off`.
pub open spec fn marker_at(m: Seq<char>, s: Seq<char>, off: int) -> bool {
    &&& m.len() > 0
    &&& 0 <= off
    &&& off + m.len() <= s.len()
    &&& s.subrange(off, off + m.len()) == m
}

/// The scanning state of one lexing run: the input's code points, the cursor,
/// and which toggled spans are open.
pub struct LexerContext {
    pub input: Vec<char>,
    pub cursor: Position,
    pub toggles: Toggles,
}

impl LexerContext {
    /// The cursor lies within the input and describes its offset there.
    pub open spec fn wf(&self) -> bool {
        &&& self.input.len() < usize::MAX
        &&& self.cursor.offset <= self.input.len()
        &&& is_position_of(self.cursor, self.input@, self.cursor.offset as int)
    }

    pub open spec fn offset(&self) -> int {
        self.cursor.offset as int
    }

    /// A context at the start of `input`, with no span open.
    pub fn new(input: &str) -> (r: LexerContext)
        requires
            input@.len() < usize::MAX,
        ensures
            r.wf(),
            r.input@ == input@,
            r.offset() == 0,
            r.toggles == Toggles::none_open(),
    {
        let r = LexerContext {
            input: code_points(input),
            cursor: Position::start(),
            toggles: Toggles::closed(),
        };
        assert(is_position_of(r.cursor, r.input@, 0));
        r
    }

    /// Whether the whole input has been consumed.
    pub fn is_eof(&self) -> (r: bool)
        requires
            self.wf(),
        ensures
            r == (self.offset() >= self.input.len()),
    {
        self.cursor.offset >= self.input.len()
    }

    /// The code point `lookahead` places after the cursor, if there is one.
    pub fn peek(&self, lookahead: usize) -> (r: Option<char>)
        requires
            self.wf(),
        ensures
            r == if self.offset() + lookahead < self.input.len() {
                Some(self.input@[self.offset() + lookahead])
            } else {
                None::<char>
            },
    {
        if lookahead < self.input.len() - self.cursor.offset {
            Some(self.input[self.cursor.offset + lookahead])
        } else {
            None
        }
    }

    /// Whether `marker` is non-empty and stands at the cursor.
    pub fn at_marker(&self, marker: &Vec<char>) -> (r: bool)
        requires
            self.wf(),
        ensures
            r == marker_at(marker@, self.input@, self.offset()),
    {
        if marker.len() == 0 {
            return false;
        }
        let mut i: usize = 0;
        while i < marker.len()
            invariant
                self.wf(),
                i <= marker.len(),
                forall|j: int|
                    0 <= j < i ==> self.offset() + j < self.input.len() && #[trigger] marker@[j]
                        == self.input@[self.offset() + j],
            decreases marker.len() - i,
        {
            match self.peek(i) {
                Some(c) => {
                    if c != marker[i] {
                        return false;
                    }
                },
                None => {
                    return false;
                },
            }
            i += 1;
        }
        assert(marker@[marker.len() - 1] == self.input@[self.offset() + marker.len() - 1]);
        assert(self.input@.subrange(self.offset(), self.offset() + marker@.len()) =~= marker@);
        true
    }

    /// Consumes up to `count` code points, updating line and column for each;
    /// fewer are consumed only when the input ends first.
    pub fn advance(&mut self, count: usize) -> (r: Vec<char>)
        requires
            old(self).wf(),
        ensures
            final(self).wf(),
            final(self).input == old(self).input,
            final(self).toggles == old(self).toggles,
            final(self).offset() == if old(self).offset() + count <= old(self).input.len() {
                old(self).offset() + count
            } else {
                old(self).input.len() as int
            },
            r@ == old(self).input@.subrange(old(self).offset(), final(self).offset()),
    {
        let ghost start = self.offset();
        let mut r: Vec<char> = Vec::new();
        let mut k: usize = 0;
        while k < count && self.cursor.offset < self.input.len()
            invariant
                self.wf(),
                self.input == old(self).input,
                self.toggles == old(self).toggles,
                k <= count,
                start == old(self).offset(),
                self.offset() == start + k,
                r@ == self.input@.subrange(start, self.offset()),
            decreases count - k,
        {
            let c = self.input[self.cursor.offset];
            r.push(c);
            let ghost off = self.offset();
            self.cursor = self.cursor.next(&self.input);
            k += 1;
            assert(r@ =~= self.input@.subrange(start, off + 1));
        }
        r
    }

    /// Where the cursor stands.
    pub fn position(&self) -> (r: Position)
        ensures
            r == self.cursor,
    {
        self.cursor
    }

    /// A token of `kind` with `text`, starting at `start` (taken before the
    /// text was consumed).
    pub fn emit(
        &self,
        kind: TokenType,
        text: String,
        attributes: Option<Vec<(String, String)>>,
        start: Position,
    ) -> (r: Token)
        requires
            keys_unique(attributes),
        ensures
            r@ == (TokenView { kind, text: text@, position: start }),
            r.attributes == attributes,
    {
        Token { token_type: kind, value: text, position: start, attributes }
    }
}

} // verus!
