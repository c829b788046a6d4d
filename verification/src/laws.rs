//! The engine's fidelity laws, stated and proved over the compilation and
//! rendering specifications.

use vstd::prelude::*;
use crate::compile::{CompileOutcome, SegView, build_segments, compile_spec, push_lit, seg_span,
    seps_for};
use crate::dispatch::{Declaration, DispatchOutcome, arg_key, bucket_map, dispatch_spec,
    run_spec};
use crate::errors::ErrView;
use crate::registry::ProcBindgen;
use crate::render::{cat, render_spec, seg_text};
use crate::span::{LineColumn, Span, gap, lemma_nl_count_add, lemma_nl_count_sep, nl_count,
    sep_chars, space_run};
use crate::token::{Token, is_marker, lit_text, spec_token_span};

verus! {

/// A sequence of characters free of line feeds.
pub open spec fn no_newline(s: Seq<char>) -> bool {
    forall|k: int| 0 <= k < s.len() ==> s[k] != '\n'
}

proof fn lemma_nl_count_zero(s: Seq<char>)
    requires
        no_newline(s),
    ensures
        nl_count(s) == 0,
    decreases s.len(),
{
    if s.len() > 0 {
        assert(no_newline(s.drop_last()));
        lemma_nl_count_zero(s.drop_last());
    }
}

/// A token authored on one line, its text free of line feeds.
pub open spec fn single_line_token(t: Token) -> bool {
    &&& spec_token_span(t).start.line == spec_token_span(t).end.line
    &&& spec_token_span(t).start.column <= spec_token_span(t).end.column
    &&& no_newline(lit_text(t))
}

/// Tokens laid out in reading order: none starts on a line before the one
/// its predecessor ends on.
pub open spec fn line_ordered_tokens(ts: Seq<Token>) -> bool {
    forall|i: int|
        0 <= i < ts.len() - 1 ==> spec_token_span(#[trigger] ts[i]).end.line <= spec_token_span(
            ts[i + 1],
        ).start.line
}

/// The segments of a successful compilation; empty on failure.
pub open spec fn segs_of(o: CompileOutcome) -> Seq<SegView> {
    match o {
        CompileOutcome::Segs(s) => s,
        CompileOutcome::Malformed(_) => Seq::empty(),
    }
}

/// The text of a literal segment.
pub open spec fn seg_lit_text(s: SegView) -> Seq<char> {
    match s {
        SegView::Literal { text, .. } => text,
        SegView::Variable { .. } => Seq::empty(),
    }
}

/// Literal runs whose text accounts exactly for the lines their spans
/// cover, laid out in reading order.
pub open spec fn literal_runs(segs: Seq<SegView>) -> bool {
    &&& forall|i: int| 0 <= i < segs.len() ==> #[trigger] segs[i] is Literal
    &&& forall|i: int|
        0 <= i < segs.len() ==> seg_span(#[trigger] segs[i]).start.line <= seg_span(
            segs[i],
        ).end.line
    &&& forall|i: int|
        0 <= i < segs.len() ==> nl_count(seg_lit_text(#[trigger] segs[i])) == seg_span(
            segs[i],
        ).end.line - seg_span(segs[i]).start.line
    &&& forall|i: int|
        0 <= i < segs.len() - 1 ==> seg_span(#[trigger] segs[i]).end.line <= seg_span(
            segs[i + 1],
        ).start.line
}

proof fn lemma_build_literal_runs(acc: Seq<SegView>, ts: Seq<Token>)
    requires
        literal_runs(acc),
        forall|i: int| 0 <= i < ts.len() ==> !is_marker(#[trigger] ts[i]),
        forall|i: int| 0 <= i < ts.len() ==> single_line_token(#[trigger] ts[i]),
        line_ordered_tokens(ts),
        acc.len() > 0 && ts.len() > 0 ==> seg_span(acc.last()).end.line <= spec_token_span(
            ts[0],
        ).start.line,
    ensures
        build_segments(acc, ts) is Segs,
        literal_runs(segs_of(build_segments(acc, ts))),
        ts.len() == 0 ==> segs_of(build_segments(acc, ts)) == acc,
        acc.len() > 0 ==> segs_of(build_segments(acc, ts)).len() > 0 && seg_span(
            segs_of(build_segments(acc, ts))[0],
        ).start == seg_span(acc[0]).start,
        acc.len() == 0 && ts.len() > 0 ==> segs_of(build_segments(acc, ts)).len() > 0
            && seg_span(segs_of(build_segments(acc, ts))[0]).start == spec_token_span(
            ts[0],
        ).start,
        ts.len() > 0 ==> seg_span(segs_of(build_segments(acc, ts)).last()).end
            == spec_token_span(ts.last()).end,
    decreases ts.len(),
{
    if ts.len() > 0 {
        let t0 = ts[0];
        let sp = spec_token_span(t0);
        let acc2 = push_lit(acc, lit_text(t0), sp);
        lemma_nl_count_zero(lit_text(t0));
        if acc.len() > 0 {
            let s0 = seg_span(acc.last());
            let t_old = seg_lit_text(acc.last());
            let merged_text = t_old + sep_chars(s0.end, sp.start) + lit_text(t0);
            lemma_nl_count_sep(s0.end, sp.start);
            lemma_nl_count_add(t_old, sep_chars(s0.end, sp.start));
            lemma_nl_count_add(t_old + sep_chars(s0.end, sp.start), lit_text(t0));
            assert(nl_count(merged_text) == sp.end.line - s0.start.line);
            assert(acc2 == acc.drop_last().push(
                SegView::Literal {
                    text: merged_text,
                    span: Span { start: s0.start, end: sp.end },
                },
            ));
            assert(literal_runs(acc2)) by {
                assert(forall|i: int| 0 <= i < acc2.len() - 1 ==> acc2[i] == acc[i]);
                assert(acc2.last() is Literal);
            }
        } else {
            assert(literal_runs(acc2)) by {
                assert(acc2 =~= Seq::empty().push(SegView::Literal { text: lit_text(t0), span: sp }));
            }
        }
        assert(forall|i: int| 0 <= i < ts.skip(1).len() ==> ts.skip(1)[i] == ts[i + 1]);
        assert(line_ordered_tokens(ts.skip(1)));
        if ts.len() > 1 {
            assert(seg_span(acc2.last()).end.line <= spec_token_span(ts.skip(1)[0]).start.line);
        }
        lemma_build_literal_runs(acc2, ts.skip(1));
        if ts.len() > 1 {
            assert(ts.skip(1).last() == ts.last());
        }
        assert(build_segments(acc, ts) == build_segments(acc2, ts.skip(1)));
    }
}

proof fn lemma_cat_nl_aux(segs: Seq<SegView>, seps: Seq<Seq<char>>, ctx: Map<Seq<char>, Seq<char>>)
    requires
        literal_runs(segs),
        segs.len() > 0,
        seps.len() == segs.len(),
        forall|i: int|
            0 <= i < segs.len() - 1 ==> #[trigger] seps[i] == sep_chars(
                seg_span(segs[i]).end,
                seg_span(segs[i + 1]).start,
            ),
    ensures
        nl_count(cat(segs, seps, ctx)) == seg_span(segs.last()).end.line - seg_span(
            segs[0],
        ).start.line + nl_count(seps.last()),
    decreases segs.len(),
{
    let text = seg_text(segs.last(), ctx);
    assert(segs.last() is Literal);
    assert(text == seg_lit_text(segs.last()));
    if segs.len() == 1 {
        assert(segs.drop_last() =~= Seq::<SegView>::empty());
        assert(cat(segs.drop_last(), seps.drop_last(), ctx) == Seq::<char>::empty());
        lemma_nl_count_add(Seq::<char>::empty() + text, seps.last());
        lemma_nl_count_add(Seq::<char>::empty(), text);
    } else {
        let sd = segs.drop_last();
        let pd = seps.drop_last();
        assert(forall|i: int| 0 <= i < sd.len() ==> sd[i] == segs[i]);
        assert(forall|i: int| 0 <= i < pd.len() ==> pd[i] == seps[i]);
        lemma_cat_nl_aux(sd, pd, ctx);
        let n = segs.len() as int;
        assert(pd.last() == sep_chars(seg_span(segs[n - 2]).end, seg_span(segs[n - 1]).start));
        lemma_nl_count_sep(seg_span(segs[n - 2]).end, seg_span(segs[n - 1]).start);
        lemma_nl_count_add(cat(sd, pd, ctx), text);
        lemma_nl_count_add(cat(sd, pd, ctx) + text, seps.last());
    }
}

/// The text a literal run accumulates as it absorbs tokens: each token's
/// text is preceded by the exact whitespace between the run's end so far and
/// the token's start.
pub open spec fn merged_run_text(text: Seq<char>, end: LineColumn, ts: Seq<Token>) -> Seq<char>
    decreases ts.len(),
{
    if ts.len() == 0 {
        text
    } else {
        merged_run_text(
            text + sep_chars(end, spec_token_span(ts[0]).start) + lit_text(ts[0]),
            spec_token_span(ts[0]).end,
            ts.skip(1),
        )
    }
}

proof fn lemma_build_single_run(text: Seq<char>, start: LineColumn, end: LineColumn, ts: Seq<Token>)
    requires
        forall|i: int| 0 <= i < ts.len() ==> !is_marker(#[trigger] ts[i]),
    ensures
        build_segments(seq![SegView::Literal { text, span: Span { start, end } }], ts)
            == CompileOutcome::Segs(
            seq![
                SegView::Literal {
                    text: merged_run_text(text, end, ts),
                    span: Span {
                        start,
                        end: if ts.len() > 0 {
                            spec_token_span(ts.last()).end
                        } else {
                            end
                        },
                    },
                },
            ],
        ),
    decreases ts.len(),
{
    let acc = seq![SegView::Literal { text, span: Span { start, end } }];
    if ts.len() > 0 {
        let t0 = ts[0];
        let sp0 = spec_token_span(t0);
        let text2 = text + sep_chars(end, sp0.start) + lit_text(t0);
        assert(push_lit(acc, lit_text(t0), sp0) =~= seq![
            SegView::Literal { text: text2, span: Span { start, end: sp0.end } },
        ]);
        assert(forall|i: int| 0 <= i < ts.skip(1).len() ==> ts.skip(1)[i] == ts[i + 1]);
        lemma_build_single_run(text2, start, sp0.end, ts.skip(1));
        if ts.len() > 1 {
            assert(ts.skip(1).last() == ts.last());
        }
    }
}

/// Spacing fidelity, in general: a template holding no variable reference
/// compiles to exactly one literal run, whose text interleaves the tokens'
/// texts with the whitespace their spans dictate — under any binding
/// context it renders as that run followed by one line break.
pub proof fn lemma_literal_template_single_run(ts: Seq<Token>)
    requires
        ts.len() > 0,
        forall|i: int| 0 <= i < ts.len() ==> !is_marker(#[trigger] ts[i]),
    ensures
        compile_spec(ts) == CompileOutcome::Segs(
            seq![
                SegView::Literal {
                    text: merged_run_text(
                        lit_text(ts[0]),
                        spec_token_span(ts[0]).end,
                        ts.skip(1),
                    ),
                    span: Span {
                        start: spec_token_span(ts[0]).start,
                        end: spec_token_span(ts.last()).end,
                    },
                },
            ],
        ),
{
    let sp0 = spec_token_span(ts[0]);
    assert(push_lit(Seq::empty(), lit_text(ts[0]), sp0) =~= seq![
        SegView::Literal { text: lit_text(ts[0]), span: sp0 },
    ]);
    assert(forall|i: int| 0 <= i < ts.skip(1).len() ==> ts.skip(1)[i] == ts[i + 1]);
    lemma_build_single_run(lit_text(ts[0]), sp0.start, sp0.end, ts.skip(1));
    if ts.len() > 1 {
        assert(ts.skip(1).last() == ts.last());
    }
    assert(build_segments(Seq::empty(), ts) == build_segments(
        seq![SegView::Literal { text: lit_text(ts[0]), span: sp0 }],
        ts.skip(1),
    ));
}

/// Spacing fidelity: two literal tokens authored on one line with `n`
/// columns between them compile to a single literal run holding the first
/// text, exactly `n` spaces, and the second text.
pub proof fn lemma_spacing_fidelity(t1: Token, t2: Token, n: nat)
    requires
        !is_marker(t1),
        !is_marker(t2),
        spec_token_span(t2).start.line == spec_token_span(t1).end.line,
        spec_token_span(t2).start.column == spec_token_span(t1).end.column + n,
    ensures
        compile_spec(seq![t1, t2]) == CompileOutcome::Segs(
            seq![
                SegView::Literal {
                    text: lit_text(t1) + space_run(n) + lit_text(t2),
                    span: Span {
                        start: spec_token_span(t1).start,
                        end: spec_token_span(t2).end,
                    },
                },
            ],
        ),
{
    let ts = seq![t1, t2];
    let sp1 = spec_token_span(t1);
    let sp2 = spec_token_span(t2);
    assert(ts.skip(1) =~= seq![t2]);
    assert(seq![t2].skip(1) =~= Seq::<Token>::empty());
    let acc1 = Seq::empty().push(SegView::Literal { text: lit_text(t1), span: sp1 });
    assert(build_segments(Seq::empty(), ts) == build_segments(acc1, seq![t2]));
    assert(gap(sp1.end.column, sp2.start.column) == n);
    assert(sep_chars(sp1.end, sp2.start) == space_run(n));
    let merged = SegView::Literal {
        text: lit_text(t1) + space_run(n) + lit_text(t2),
        span: Span { start: sp1.start, end: sp2.end },
    };
    let acc2 = acc1.drop_last().push(merged);
    assert(acc1.last() == (SegView::Literal { text: lit_text(t1), span: sp1 }));
    assert(build_segments(acc1, seq![t2]) == build_segments(acc2, Seq::empty()));
    assert(acc2 =~= seq![merged]);
}

/// Multi-line fidelity: a template of literal tokens spanning `k` lines
/// renders, under any context, with exactly `k` line feeds: its `k - 1`
/// original line breaks plus the one terminating break.
pub proof fn lemma_multi_line_fidelity(ts: Seq<Token>, ctx: Map<Seq<char>, Seq<char>>)
    requires
        ts.len() > 0,
        forall|i: int| 0 <= i < ts.len() ==> !is_marker(#[trigger] ts[i]),
        forall|i: int| 0 <= i < ts.len() ==> single_line_token(#[trigger] ts[i]),
        line_ordered_tokens(ts),
    ensures
        compile_spec(ts) is Segs,
        nl_count(
            render_spec(
                segs_of(compile_spec(ts)),
                seps_for(segs_of(compile_spec(ts))),
                ctx,
            ),
        ) == spec_token_span(ts.last()).end.line - spec_token_span(ts[0]).start.line + 1,
{
    lemma_build_literal_runs(Seq::empty(), ts);
    let segs = segs_of(compile_spec(ts));
    let seps = seps_for(segs);
    assert(seps.last() == seq!['\n']);
    assert(nl_count(seq!['\n']) == 1) by {
        assert(seq!['\n'].drop_last() =~= Seq::<char>::empty());
        assert(seq!['\n'].last() == '\n');
        assert(nl_count(Seq::<char>::empty()) == 0);
    }
    lemma_cat_nl_aux(segs, seps, ctx);
    assert(render_spec(segs, seps, ctx) == cat(segs, seps, ctx));
}

/// Unknown-key failure: when the first failing declaration of a run bears a
/// marker naming a key with no generator for its kind, the run aborts with
/// that key and declaration name, and the output is exactly what the
/// declarations before it produced — nothing already flushed is lost.
pub proof fn lemma_unknown_key_aborts(p: ProcBindgen, ds: Seq<Declaration>, i: int)
    requires
        0 <= i < ds.len(),
        forall|j: int| 0 <= j < i ==> !(dispatch_spec(p, #[trigger] ds[j]) is Fail),
        ds[i].markers@.len() > 0,
        ds[i].markers@[0].args@.len() == 1,
        ds[i].markers@[0].args@[0] is Identifier,
        !bucket_map(p, ds[i].kind).contains_key(arg_key(ds[i].markers@[0].args@[0])),
    ensures
        run_spec(p, ds).1 == Some(
            ErrView::GeneratorNotFound {
                key: arg_key(ds[i].markers@[0].args@[0]),
                decl: ds[i].name@,
            },
        ),
        run_spec(p, ds).0 == run_spec(p, ds.take(i)).0,
    decreases i,
{
    if i == 0 {
        assert(dispatch_spec(p, ds[0]) == DispatchOutcome::Fail(
            ErrView::GeneratorNotFound {
                key: arg_key(ds[0].markers@[0].args@[0]),
                decl: ds[0].name@,
            },
        ));
        assert(ds.take(0) =~= Seq::<Declaration>::empty());
    } else {
        let tail = ds.skip(1);
        assert(forall|j: int| 0 <= j < i - 1 ==> tail[j] == ds[j + 1]);
        assert(tail[i - 1] == ds[i]);
        lemma_unknown_key_aborts(p, tail, i - 1);
        let front = ds.take(i);
        assert(front[0] == ds[0]);
        assert(front.skip(1) =~= tail.take(i - 1));
        match dispatch_spec(p, ds[0]) {
            DispatchOutcome::Skip => {
                assert(run_spec(p, ds) == run_spec(p, tail));
                assert(run_spec(p, front) == run_spec(p, tail.take(i - 1)));
            },
            DispatchOutcome::Emit(t) => {
                assert(run_spec(p, ds).0 == t + run_spec(p, tail).0);
                assert(run_spec(p, front).0 == t + run_spec(p, tail.take(i - 1)).0);
            },
            DispatchOutcome::Fail(_) => {
                assert(false);
            },
        }
    }
}

/// Skipping without a marker: a declaration bearing no marker contributes
/// nothing to a run, so removing it leaves both the output and the
/// reported failure unchanged.
pub proof fn lemma_skip_without_marker(p: ProcBindgen, ds: Seq<Declaration>, i: int)
    requires
        0 <= i < ds.len(),
        ds[i].markers@.len() == 0,
    ensures
        run_spec(p, ds) == run_spec(p, ds.remove(i)),
    decreases ds.len(),
{
    if i == 0 {
        assert(dispatch_spec(p, ds[0]) is Skip);
        assert(ds.remove(0) =~= ds.skip(1));
    } else {
        let ds2 = ds.remove(i);
        assert(ds2[0] == ds[0]);
        assert(ds.skip(1)[i - 1] == ds[i]);
        lemma_skip_without_marker(p, ds.skip(1), i - 1);
        assert(ds.skip(1).remove(i - 1) =~= ds2.skip(1));
        match dispatch_spec(p, ds[0]) {
            DispatchOutcome::Skip => {
                assert(run_spec(p, ds) == run_spec(p, ds.skip(1)));
                assert(run_spec(p, ds2) == run_spec(p, ds2.skip(1)));
            },
            DispatchOutcome::Emit(t) => {
                assert(run_spec(p, ds).0 == t + run_spec(p, ds.skip(1)).0);
                assert(run_spec(p, ds2).0 == t + run_spec(p, ds2.skip(1)).0);
            },
            DispatchOutcome::Fail(_) => {
            },
        }
    }
}

} // verus!
