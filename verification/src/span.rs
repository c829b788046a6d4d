//! Source positions and the whitespace reconstruction rule.
//!
//! Every token of an authored template carries a span: its start and end
//! line/column in the original text.  The separator between two neighbouring
//! tokens is recomputed from the gap between the end of the first span and
//! the start of the second: on one line, one space per column of gap; across
//! lines, one line break per line of gap followed by spaces up to the target
//! column.

use vstd::prelude::*;

verus! {

/// A line/column position in the authored text.  Lines are 1-based and
/// columns 0-based, the convention of the upstream tokenizer.
#[derive(Clone, Copy, Debug, PartialEq, Eq, Structural)]
pub struct LineColumn {
    pub line: usize,
    pub column: usize,
}

/// The start and end position of a token or a segment in the authored text.
#[derive(Clone, Copy, Debug, PartialEq, Eq, Structural)]
pub struct Span {
    pub start: LineColumn,
    pub end: LineColumn,
}

impl Span {
    /// The span covering everything from the start of `self` to the end of `b`.
    pub fn join(self, b: Span) -> (r: Span)
        ensures
            r.start == self.start,
            r.end == b.end,
    {
        Span { start: self.start, end: b.end }
    }

    pub fn start(&self) -> (r: LineColumn)
        ensures
            r == self.start,
    {
        self.start
    }

    pub fn end(&self) -> (r: LineColumn)
        ensures
            r == self.end,
    {
        self.end
    }
}

/// How far `b` lies beyond `a`; zero when `b` does not.
pub open spec fn gap(a: usize, b: usize) -> nat {
    if a < b {
        (b - a) as nat
    } else {
        0
    }
}

/// `n` spaces.
pub open spec fn space_run(n: nat) -> Seq<char> {
    Seq::new(n, |i: int| ' ')
}

/// `n` line breaks, each written as a carriage return and a line feed.
pub open spec fn newline_run(n: nat) -> Seq<char>
    decreases n,
{
    if n == 0 {
        Seq::empty()
    } else {
        seq!['\r', '\n'] + newline_run((n - 1) as nat)
    }
}

/// The whitespace owed between a token ending at `from_end` and the next
/// token starting at `to_start`.
pub open spec fn sep_chars(from_end: LineColumn, to_start: LineColumn) -> Seq<char> {
    if from_end.line == to_start.line {
        space_run(gap(from_end.column, to_start.column))
    } else {
        newline_run(gap(from_end.line, to_start.line)) + space_run(to_start.column as nat)
    }
}

proof fn lemma_newline_run_snoc(n: nat)
    ensures
        newline_run(n + 1) == newline_run(n) + seq!['\r', '\n'],
    decreases n,
{
    if n == 0 {
        assert(newline_run(1) =~= newline_run(0) + seq!['\r', '\n']);
    } else {
        lemma_newline_run_snoc((n - 1) as nat);
        assert(newline_run(n + 1) =~= newline_run(n) + seq!['\r', '\n']);
    }
}

/// Reproduces the exact whitespace between two spans, as the original
/// authored text laid it out.
pub fn spaces_between(from: &Span, to: &Span) -> (r: String)
    ensures
        r@ == sep_chars(from.end, to.start),
{
    let start = from.end();
    let end = to.start();
    let mut spaces = String::new();

    if start.line == end.line {
        let mut col: usize = start.column;
        while col < end.column
            invariant
                start.column <= col,
                col <= end.column || col == start.column,
                spaces@ == space_run((col - start.column) as nat),
            decreases end.column - col,
        {
            spaces.append(" ");
            proof {
                reveal_strlit(" ");
                assert(space_run((col + 1 - start.column) as nat) =~= space_run(
                    (col - start.column) as nat,
                ) + " "@);
            }
            col = col + 1;
        }
        assert(spaces@ == sep_chars(from.end, to.start));
    } else {
        let mut line: usize = start.line;
        while line < end.line
            invariant
                start.line <= line,
                line <= end.line || line == start.line,
                spaces@ == newline_run((line - start.line) as nat),
            decreases end.line - line,
        {
            spaces.append("\r\n");
            proof {
                reveal_strlit("\r\n");
                lemma_newline_run_snoc((line - start.line) as nat);
                assert("\r\n"@ =~= seq!['\r', '\n']);
            }
            line = line + 1;
        }
        let ghost breaks = spaces@;
        let mut col: usize = 0;
        while col < end.column
            invariant
                col <= end.column,
                spaces@ == breaks + space_run(col as nat),
            decreases end.column - col,
        {
            spaces.append(" ");
            proof {
                reveal_strlit(" ");
                assert(breaks + space_run((col + 1) as nat) =~= breaks + space_run(col as nat)
                    + " "@);
            }
            col = col + 1;
        }
        proof {
            assert(breaks =~= breaks + space_run(0));
            assert(spaces@ == sep_chars(from.end, to.start));
        }
    }
    spaces
}

/// The number of line breaks in a piece of rendered text, counted by its
/// line feed characters.
pub open spec fn nl_count(s: Seq<char>) -> nat
    decreases s.len(),
{
    if s.len() == 0 {
        0
    } else {
        nl_count(s.drop_last()) + (if s.last() == '\n' {
            1nat
        } else {
            0nat
        })
    }
}

pub proof fn lemma_nl_count_add(a: Seq<char>, b: Seq<char>)
    ensures
        nl_count(a + b) == nl_count(a) + nl_count(b),
    decreases b.len(),
{
    if b.len() == 0 {
        assert(a + b =~= a);
    } else {
        lemma_nl_count_add(a, b.drop_last());
        assert((a + b).drop_last() =~= a + b.drop_last());
        assert((a + b).last() == b.last());
    }
}

pub proof fn lemma_nl_count_space_run(n: nat)
    ensures
        nl_count(space_run(n)) == 0,
    decreases n,
{
    if n > 0 {
        lemma_nl_count_space_run((n - 1) as nat);
        assert(space_run(n).drop_last() =~= space_run((n - 1) as nat));
        assert(space_run(n).last() == ' ');
    }
}

pub proof fn lemma_nl_count_newline_run(n: nat)
    ensures
        nl_count(newline_run(n)) == n,
    decreases n,
{
    if n > 0 {
        lemma_nl_count_newline_run((n - 1) as nat);
        lemma_newline_run_snoc((n - 1) as nat);
        lemma_nl_count_add(newline_run((n - 1) as nat), seq!['\r', '\n']);
        assert(nl_count(seq!['\r', '\n']) == 1) by {
            let two = seq!['\r', '\n'];
            assert(two.last() == '\n');
            assert(two.drop_last() =~= seq!['\r']);
            assert(seq!['\r'].last() == '\r');
            assert(seq!['\r'].drop_last() =~= Seq::<char>::empty());
            assert(nl_count(Seq::<char>::empty()) == 0);
            assert(nl_count(seq!['\r']) == 0);
        }
    }
}

/// A separator never invents line breaks: it holds exactly one per line of
/// gap between the two positions, and none when they share a line.
pub proof fn lemma_nl_count_sep(from_end: LineColumn, to_start: LineColumn)
    ensures
        nl_count(sep_chars(from_end, to_start)) == gap(from_end.line, to_start.line),
{
    if from_end.line == to_start.line {
        lemma_nl_count_space_run(gap(from_end.column, to_start.column));
    } else {
        lemma_nl_count_newline_run(gap(from_end.line, to_start.line));
        lemma_nl_count_space_run(to_start.column as nat);
        lemma_nl_count_add(
            newline_run(gap(from_end.line, to_start.line)),
            space_run(to_start.column as nat),
        );
    }
}

} // verus!
