use vstd::prelude::*;

verus! {

/// A place in the input: 1-based line and column, 0-based code-point offset.
#[derive(Debug, Clone, Copy, PartialEq, Eq, Structural)]
pub struct Position {
    pub line: usize,
    pub column: usize,
    pub offset: usize,
}

/// How many newlines the first `n` code points of `s` hold.
pub open spec fn newline_count(s: Seq<char>, n: int) -> int
    decreases n,
{
    if n <= 0 {
        0
    } else {
        newline_count(s, n - 1) + if s[n - 1] == '\n' { 1int } else { 0int }
    }
}

/// The line on which offset `n` of `s` stands.
pub open spec fn line_at(s: Seq<char>, n: int) -> int {
    1 + newline_count(s, n)
}

/// The column at which offset `n` of `s` stands.
pub open spec fn column_at(s: Seq<char>, n: int) -> int
    decreases n,
{
    if n <= 0 {
        1
    } else if s[n - 1] == '\n' {
        1
    } else {
        column_at(s, n - 1) + 1
    }
}

/// `p` describes offset `n` of `s`.
pub open spec fn is_position_of(p: Position, s: Seq<char>, n: int) -> bool {
    &&& p.offset == n
    &&& p.line == line_at(s, n)
    &&& p.column == column_at(s, n)
}

/// Line and column never exceed the offset plus one.
pub proof fn lemma_position_bounds(s: Seq<char>, n: int)
    requires
        0 <= n,
    ensures
        0 <= newline_count(s, n) <= n,
        1 <= column_at(s, n) <= n + 1,
    decreases n,
{
    if n > 0 {
        lemma_position_bounds(s, n - 1);
    }
}

/// Consuming one code point moves the line on exactly at a newline, and sets
/// the column back to 1 exactly then; otherwise the column grows by one.
pub proof fn lemma_line_column_step(s: Seq<char>, n: int)
    requires
        0 <= n < s.len(),
    ensures
        s[n] == '\n' ==> line_at(s, n + 1) == line_at(s, n) + 1 && column_at(s, n + 1) == 1,
        s[n] != '\n' ==> line_at(s, n + 1) == line_at(s, n) && column_at(s, n + 1) == column_at(
            s,
            n,
        ) + 1,
{
}

impl Position {
    /// The position of the first code point.
    pub fn start() -> (r: Position)
        ensures
            r.line == 1,
            r.column == 1,
            r.offset == 0,
    {
        Position { line: 1, column: 1, offset: 0 }
    }

    /// The position after consuming `s[self.offset]`.
    pub fn next(self, s: &Vec<char>) -> (r: Position)
        requires
            is_position_of(self, s@, self.offset as int),
            self.offset < s.len(),
            s.len() < usize::MAX,
        ensures
            is_position_of(r, s@, self.offset + 1),
    {
        proof {
            lemma_position_bounds(s@, self.offset as int);
        }
        if s[self.offset] == '\n' {
            Position { line: self.line + 1, column: 1, offset: self.offset + 1 }
        } else {
            Position { line: self.line, column: self.column + 1, offset: self.offset + 1 }
        }
    }
}

} // verus!
