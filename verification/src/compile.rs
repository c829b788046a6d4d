//! The template compiler.
//!
//! A classified token list is folded into an ordered sequence of segments:
//! maximal runs of adjacent literal tokens, merged with their exact original
//! intra-run spacing, and variable splice points.  Alongside the segments the
//! compiler precomputes the separator text owed between each pair of
//! neighbouring segments, and a single line break after the last one.

use vstd::prelude::*;
use vstd::string::StringExecFns;
use crate::span::{Span, sep_chars, spaces_between};
use crate::token::{Token, spec_token_span, lit_text, ident_name, is_marker, token_span,
    token_is_marker, token_text};
use crate::errors::{BindgenError, ErrView};

verus! {

/// A renderable unit of a compiled template: a literal run reproducing the
/// authored text verbatim, or a variable reference resolved at render time.
#[derive(Clone, Debug)]
pub enum Segment {
    Literal { text: String, span: Span },
    Variable { name: String, span: Span },
}

/// The mathematical shape of a [`Segment`].
pub enum SegView {
    Literal { text: Seq<char>, span: Span },
    Variable { name: Seq<char>, span: Span },
}

impl View for Segment {
    type V = SegView;

    open spec fn view(&self) -> SegView {
        match self {
            Segment::Literal { text, span } => SegView::Literal { text: text@, span: *span },
            Segment::Variable { name, span } => SegView::Variable { name: name@, span: *span },
        }
    }
}

/// The span a segment covers in the authored template.
pub open spec fn seg_span(s: SegView) -> Span {
    match s {
        SegView::Literal { span, .. } => span,
        SegView::Variable { span, .. } => span,
    }
}

/// The variable name of a splice point; empty for a literal run.
pub open spec fn seg_name(s: SegView) -> Seq<char> {
    match s {
        SegView::Variable { name, .. } => name,
        SegView::Literal { .. } => Seq::empty(),
    }
}

/// The views of a segment vector.
pub open spec fn views_of(s: Seq<Segment>) -> Seq<SegView> {
    s.map_values(|x: Segment| x@)
}

/// Appending one literal token to an in-progress segment sequence: it merges
/// into a trailing literal run, with the original whitespace between the two
/// spans restored, and otherwise starts a new run.
pub open spec fn push_lit(acc: Seq<SegView>, text: Seq<char>, sp: Span) -> Seq<SegView> {
    if acc.len() > 0 {
        match acc.last() {
            SegView::Literal { text: t0, span: s0 } => acc.drop_last().push(
                SegView::Literal {
                    text: t0 + sep_chars(s0.end, sp.start) + text,
                    span: Span { start: s0.start, end: sp.end },
                },
            ),
            SegView::Variable { .. } => acc.push(SegView::Literal { text, span: sp }),
        }
    } else {
        acc.push(SegView::Literal { text, span: sp })
    }
}

/// What compiling a token list yields: its segment sequence, or the span of
/// a marker sigil that no identifier follows.
pub enum CompileOutcome {
    Segs(Seq<SegView>),
    Malformed(Span),
}

/// The compilation fold: tokens are consumed in order; a marker sigil
/// followed by an identifier becomes one variable segment covering both
/// tokens, and every other token extends or starts a literal run.
pub open spec fn build_segments(acc: Seq<SegView>, ts: Seq<Token>) -> CompileOutcome
    decreases ts.len(),
{
    if ts.len() == 0 {
        CompileOutcome::Segs(acc)
    } else if is_marker(ts[0]) {
        if ts.len() >= 2 && ts[1] is Identifier {
            build_segments(
                acc.push(
                    SegView::Variable {
                        name: ident_name(ts[1]),
                        span: Span {
                            start: spec_token_span(ts[0]).start,
                            end: spec_token_span(ts[1]).end,
                        },
                    },
                ),
                ts.skip(2),
            )
        } else {
            CompileOutcome::Malformed(spec_token_span(ts[0]))
        }
    } else {
        build_segments(push_lit(acc, lit_text(ts[0]), spec_token_span(ts[0])), ts.skip(1))
    }
}

/// The segment sequence a token list compiles to.
pub open spec fn compile_spec(ts: Seq<Token>) -> CompileOutcome {
    build_segments(Seq::empty(), ts)
}

/// The separators owed at render time: between two neighbouring segments the
/// whitespace their spans dictate, and after the final segment exactly one
/// line break.
pub open spec fn seps_for(segs: Seq<SegView>) -> Seq<Seq<char>> {
    Seq::new(
        segs.len(),
        |i: int|
            if i == segs.len() - 1 {
                seq!['\n']
            } else {
                sep_chars(seg_span(segs[i]).end, seg_span(segs[i + 1]).start)
            },
    )
}

/// The views of a separator vector.
pub open spec fn seps_views(s: Seq<String>) -> Seq<Seq<char>> {
    s.map_values(|x: String| x@)
}

/// A compiled template: the ordered segments and, for each, the separator
/// that follows it at render time.
#[derive(Debug)]
pub struct CompiledTemplate {
    pub segments: Vec<Segment>,
    pub separators: Vec<String>,
}

impl CompiledTemplate {
    /// One separator per segment.
    pub open spec fn wf(self) -> bool {
        self.separators@.len() == self.segments@.len()
    }
}

/// Merges one literal token into the segment stream, restoring the exact
/// whitespace the authored text had between the previous token and this one.
pub fn push_token(stream: &mut Vec<Segment>, sp: Span, text: String)
    ensures
        views_of(final(stream)@) == push_lit(views_of(old(stream)@), text@, sp),
{
    let n = stream.len();
    let merge = if n > 0 {
        match &stream[n - 1] {
            Segment::Literal { .. } => true,
            _ => false,
        }
    } else {
        false
    };
    if merge {
        let last = stream.pop().unwrap();
        match last {
            Segment::Literal { text: t0, span: s0 } => {
                let sep = spaces_between(&s0, &sp);
                let mut merged = t0;
                merged.append(sep.as_str());
                merged.append(text.as_str());
                let seg = Segment::Literal {
                    text: merged,
                    span: Span { start: s0.start, end: sp.end },
                };
                stream.push(seg);
                proof {
                    assert(views_of(final(stream)@) =~= push_lit(
                        views_of(old(stream)@),
                        text@,
                        sp,
                    ));
                }
            },
            Segment::Variable { .. } => {
                proof {
                    assert(false);
                }
            },
        }
    } else {
        stream.push(Segment::Literal { text, span: sp });
        proof {
            assert(views_of(final(stream)@) =~= push_lit(views_of(old(stream)@), text@, sp));
        }
    }
}

/// Compiles a classified token list into segments and separators.  The
/// result partitions the flattened token stream in order; a marker sigil not
/// followed by an identifier is the one compile-time failure.
pub fn compile(tokens: &Vec<Token>) -> (r: Result<CompiledTemplate, BindgenError>)
    ensures
        match r {
            Ok(t) => {
                &&& t.wf()
                &&& compile_spec(tokens@) == CompileOutcome::Segs(views_of(t.segments@))
                &&& seps_views(t.separators@) == seps_for(views_of(t.segments@))
            },
            Err(e) => {
                &&& compile_spec(tokens@) matches CompileOutcome::Malformed(sp) && e@
                    == (ErrView::MalformedVariableReference { position: sp.start })
            },
        },
{
    let ghost goal = compile_spec(tokens@);
    let mut segments: Vec<Segment> = Vec::new();
    let mut i: usize = 0;
    proof {
        assert(tokens@.skip(0) =~= tokens@);
        assert(views_of(segments@) =~= Seq::<SegView>::empty());
    }
    while i < tokens.len()
        invariant
            i <= tokens@.len(),
            goal == compile_spec(tokens@),
            build_segments(views_of(segments@), tokens@.skip(i as int)) == goal,
        decreases tokens@.len() - i,
    {
        let ghost rest = tokens@.skip(i as int);
        proof {
            assert(rest.len() == tokens@.len() - i);
            assert(rest[0] == tokens@[i as int]);
            if i + 1 < tokens@.len() {
                assert(rest[1] == tokens@[i as int + 1]);
            }
        }
        let t = &tokens[i];
        if token_is_marker(t) {
            let has_ident = if i + 1 < tokens.len() {
                match &tokens[i + 1] {
                    Token::Identifier { .. } => true,
                    _ => false,
                }
            } else {
                false
            };
            if has_ident {
                let nxt = &tokens[i + 1];
                match nxt {
                    Token::Identifier { text, span } => {
                        let sigil_span = token_span(t);
                        let vspan = Span { start: sigil_span.start, end: span.end };
                        let seg = Segment::Variable { name: text.clone(), span: vspan };
                        let ghost segs0 = segments@;
                        segments.push(seg);
                        proof {
                            assert(views_of(segments@) =~= views_of(segs0).push(seg@));
                            assert(rest.skip(2) =~= tokens@.skip(i as int + 2));
                        }
                        i = i + 2;
                    },
                    _ => {
                        proof {
                            assert(false);
                        }
                    },
                }
            } else {
                proof {
                    assert(build_segments(views_of(segments@), rest)
                        == CompileOutcome::Malformed(spec_token_span(rest[0])));
                }
                return Err(
                    BindgenError::MalformedVariableReference { position: token_span(t).start },
                );
            }
        } else {
            let sp = token_span(t);
            let text = token_text(t);
            proof {
                assert(text@ == lit_text(rest[0]));
            }
            push_token(&mut segments, sp, text);
            proof {
                assert(rest.skip(1) =~= tokens@.skip(i as int + 1));
            }
            i = i + 1;
        }
    }
    proof {
        assert(tokens@.skip(i as int) =~= Seq::<Token>::empty());
        assert(goal == CompileOutcome::Segs(views_of(segments@)));
    }

    let n = segments.len();
    let mut separators: Vec<String> = Vec::new();
    if n > 0 {
        let mut j: usize = 1;
        while j < n
            invariant
                1 <= j && j <= n,
                n == segments@.len(),
                separators@.len() == j - 1,
                forall|k: int|
                    0 <= k < j - 1 ==> separators@[k]@ == sep_chars(
                        seg_span(views_of(segments@)[k]).end,
                        seg_span(views_of(segments@)[k + 1]).start,
                    ),
            decreases n - j,
        {
            let prev = segment_span(&segments[j - 1]);
            let cur = segment_span(&segments[j]);
            let s = spaces_between(&prev, &cur);
            separators.push(s);
            j = j + 1;
        }
        let mut terminator = String::new();
        terminator.append("\n");
        proof {
            reveal_strlit("\n");
            assert(terminator@ =~= seq!['\n']);
        }
        separators.push(terminator);
    }
    proof {
        assert(seps_views(separators@) =~= seps_for(views_of(segments@)));
    }
    Ok(CompiledTemplate { segments, separators })
}

/// The span a segment covers, read off the executable value.
pub fn segment_span(s: &Segment) -> (r: Span)
    ensures
        r == seg_span(s@),
{
    match s {
        Segment::Literal { span, .. } => *span,
        Segment::Variable { span, .. } => *span,
    }
}

} // verus!
