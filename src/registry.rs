use vstd::prelude::*;
use crate::context::{LexerContext, marker_at};
use crate::handlers::{Handler, TokenHandler};
use crate::text::code_points;
use crate::token::TokenType;

verus! {

/// Among the first `j` rules, the one that fires at `off` with the highest
/// priority, the earliest registered on a tie.
pub open spec fn select_upto(reg: Seq<Handler>, s: Seq<char>, off: int, j: int) -> Option<int>
    decreases j,
{
    if j <= 0 {
        None
    } else {
        let b = select_upto(reg, s, off, j - 1);
        if marker_at(reg[j - 1].marker@, s, off) && (b is None || reg[b->0].priority
            < reg[j - 1].priority) {
            Some(j - 1)
        } else {
            b
        }
    }
}

/// The rule that fires at `off`, if any.
pub open spec fn select(reg: Seq<Handler>, s: Seq<char>, off: int) -> Option<int> {
    select_upto(reg, s, off, reg.len() as int)
}

/// `select_upto` picks a rule that fires, and none that fires has a higher
/// priority, nor the same priority and an earlier place.
pub proof fn lemma_select_upto(reg: Seq<Handler>, s: Seq<char>, off: int, j: int)
    requires
        0 <= j <= reg.len(),
    ensures
        select_upto(reg, s, off, j) is None <==> forall|k: int|
            0 <= k < j ==> !marker_at(#[trigger] reg[k].marker@, s, off),
        select_upto(reg, s, off, j) is Some ==> {
            let i = select_upto(reg, s, off, j)->0;
            &&& 0 <= i < j
            &&& marker_at(reg[i].marker@, s, off)
            &&& forall|k: int|
                0 <= k < j && marker_at(#[trigger] reg[k].marker@, s, off) ==> reg[k].priority
                    < reg[i].priority || (reg[k].priority == reg[i].priority && i <= k)
        },
    decreases j,
{
    if j > 0 {
        lemma_select_upto(reg, s, off, j - 1);
    }
}

/// The dispatch rule: the rule chosen at `off` fires there, every rule that
/// fires there has a lower priority or the same one and a later place, and no
/// rule is chosen only when none fires.
pub proof fn lemma_select(reg: Seq<Handler>, s: Seq<char>, off: int)
    ensures
        select(reg, s, off) is None <==> forall|k: int|
            0 <= k < reg.len() ==> !marker_at(#[trigger] reg[k].marker@, s, off),
        select(reg, s, off) is Some ==> {
            let i = select(reg, s, off)->0;
            &&& 0 <= i < reg.len()
            &&& marker_at(reg[i].marker@, s, off)
            &&& forall|k: int|
                0 <= k < reg.len() && marker_at(#[trigger] reg[k].marker@, s, off)
                    ==> reg[k].priority < reg[i].priority || (reg[k].priority == reg[i].priority
                    && i <= k)
        },
{
    lemma_select_upto(reg, s, off, reg.len() as int);
}

/// `h` is the rule `(priority, marker, kind)`.
pub open spec fn is_rule(h: Handler, priority: u64, marker: Seq<char>, kind: TokenType) -> bool {
    h.priority == priority && h.marker@ == marker && h.kind == kind
}

/// An ordered collection of rules, each with a non-empty marker.
pub struct Registry {
    pub handlers: Vec<Handler>,
}

fn marker_pair(a: char, b: char) -> (r: Vec<char>)
    ensures
        r@ == seq![a, b],
{
    let mut r: Vec<char> = Vec::new();
    r.push(a);
    r.push(b);
    assert(r@ =~= seq![a, b]);
    r
}

impl Registry {
    pub open spec fn wf(&self) -> bool {
        forall|i: int| 0 <= i < self.handlers.len() ==> #[trigger] self.handlers@[i].marker.len() > 0
    }

    /// Assembles a registry from `(priority, marker, kind)` rules, in their
    /// order; `None` when a marker is empty, since such a rule could never
    /// consume input.
    pub fn new(rules: Vec<(u64, String, TokenType)>) -> (r: Option<Registry>)
        ensures
            r is None <==> exists|i: int| 0 <= i < rules.len() && (#[trigger] rules@[i]).1@.len() == 0,
            r is Some ==> {
                let reg = r->0;
                &&& reg.wf()
                &&& reg.handlers.len() == rules.len()
                &&& forall|i: int|
                    0 <= i < rules.len() ==> is_rule(
                        #[trigger] reg.handlers@[i],
                        rules@[i].0,
                        rules@[i].1@,
                        rules@[i].2,
                    )
            },
    {
        let mut handlers: Vec<Handler> = Vec::new();
        let mut i: usize = 0;
        while i < rules.len()
            invariant
                i <= rules.len(),
                handlers.len() == i,
                forall|k: int| 0 <= k < i ==> (#[trigger] rules@[k]).1@.len() > 0,
                forall|k: int|
                    0 <= k < i ==> is_rule(
                        #[trigger] handlers@[k],
                        rules@[k].0,
                        rules@[k].1@,
                        rules@[k].2,
                    ),
            decreases rules.len() - i,
        {
            let marker = code_points(rules[i].1.as_str());
            if marker.len() == 0 {
                return None;
            }
            handlers.push(Handler { priority: rules[i].0, marker, kind: rules[i].2 });
            i += 1;
        }
        Some(Registry { handlers })
    }

    /// The inline rules: `**` bold, `//` italic, `__` underline and `~~`
    /// strike toggle their spans, `\\` is a line break, a newline is a
    /// newline token. A lone `*` and everything else is text.
    pub fn inline_default() -> (r: Registry)
        ensures
            r.wf(),
            r.handlers.len() == 6,
            is_rule(r.handlers@[0], 2, seq!['*', '*'], TokenType::BoldOpen),
            is_rule(r.handlers@[1], 2, seq!['/', '/'], TokenType::ItalicOpen),
            is_rule(r.handlers@[2], 2, seq!['_', '_'], TokenType::UnderlineOpen),
            is_rule(r.handlers@[3], 2, seq!['~', '~'], TokenType::StrikeOpen),
            is_rule(r.handlers@[4], 2, seq!['\\', '\\'], TokenType::Linebreak),
            is_rule(r.handlers@[5], 1, seq!['\n'], TokenType::Newline),
    {
        let mut handlers: Vec<Handler> = Vec::new();
        handlers.push(Handler { priority: 2, marker: marker_pair('*', '*'), kind: TokenType::BoldOpen });
        handlers.push(Handler { priority: 2, marker: marker_pair('/', '/'), kind: TokenType::ItalicOpen });
        handlers.push(Handler { priority: 2, marker: marker_pair('_', '_'), kind: TokenType::UnderlineOpen });
        handlers.push(Handler { priority: 2, marker: marker_pair('~', '~'), kind: TokenType::StrikeOpen });
        handlers.push(Handler { priority: 2, marker: marker_pair('\\', '\\'), kind: TokenType::Linebreak });
        let mut newline: Vec<char> = Vec::new();
        newline.push('\n');
        assert(newline@ =~= seq!['\n']);
        handlers.push(Handler { priority: 1, marker: newline, kind: TokenType::Newline });
        let r = Registry { handlers };
        assert(r.wf());
        r
    }

    /// The index of the rule that fires at the cursor: the highest priority
    /// among those that fire, the earliest registered on a tie.
    pub fn dispatch(&self, context: &LexerContext) -> (r: Option<usize>)
        requires
            context.wf(),
        ensures
            match r {
                Some(i) => select(self.handlers@, context.input@, context.offset()) == Some(i as int),
                None => select(self.handlers@, context.input@, context.offset()) is None,
            },
    {
        let mut best: Option<usize> = None;
        let mut j: usize = 0;
        while j < self.handlers.len()
            invariant
                context.wf(),
                j <= self.handlers.len(),
                match best {
                    Some(i) => select_upto(self.handlers@, context.input@, context.offset(), j as int) == Some(i as int),
                    None => select_upto(self.handlers@, context.input@, context.offset(), j as int) is None,
                },
            decreases self.handlers.len() - j,
        {
            proof {
                lemma_select_upto(self.handlers@, context.input@, context.offset(), j as int);
            }
            if self.handlers[j].can_handle(context) {
                match best {
                    Some(b) => {
                        if self.handlers[b].priority < self.handlers[j].priority {
                            best = Some(j);
                        }
                    },
                    None => {
                        best = Some(j);
                    },
                }
            }
            j += 1;
        }
        best
    }
}

} // verus!
