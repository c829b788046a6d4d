//! A small packaged generator configuration, ready to hand to the
//! dispatcher: one struct generator, registered under the key
//! `my_bindgen`, whose template declares a hook function named after the
//! triggering struct.

use vstd::prelude::*;
use vstd::string::StringExecFns;
use crate::compile::{CompileOutcome, CompiledTemplate, SegView, build_segments, compile,
    compile_spec, seps_for};
use crate::dispatch::Declaration;
use crate::errors::BindgenError;
use crate::registry::{BindgenBuilder, GeneratorEntry, ProcBindgen};
use crate::render::{Context, cat, first_unresolved, render, render_spec};
use crate::span::{LineColumn, Span, sep_chars, space_run};
use crate::token::{Delimiter, Token};

verus! {

/// The segments the sample template compiles to: a literal run, the `name`
/// splice point, and the closing literal run.
pub open spec fn sample_segments() -> Seq<SegView> {
    seq![
        SegView::Literal {
            text: "void touch_"@,
            span: Span {
                start: LineColumn { line: 1, column: 0 },
                end: LineColumn { line: 1, column: 11 },
            },
        },
        SegView::Variable {
            name: "name"@,
            span: Span {
                start: LineColumn { line: 1, column: 11 },
                end: LineColumn { line: 1, column: 16 },
            },
        },
        SegView::Literal {
            text: "();"@,
            span: Span {
                start: LineColumn { line: 1, column: 16 },
                end: LineColumn { line: 1, column: 19 },
            },
        },
    ]
}

/// What the sample template renders to for a declaration named `name`.
pub open spec fn sample_render(name: Seq<char>) -> Seq<char> {
    "void touch_"@ + name + "();\n"@
}

fn lc(line: usize, column: usize) -> (r: LineColumn)
    ensures
        r == (LineColumn { line, column }),
{
    LineColumn { line, column }
}

fn sp(l0: usize, c0: usize, l1: usize, c1: usize) -> (r: Span)
    ensures
        r == (Span {
            start: LineColumn { line: l0, column: c0 },
            end: LineColumn { line: l1, column: c1 },
        }),
{
    Span { start: lc(l0, c0), end: lc(l1, c1) }
}

/// The authored token stream of the sample template
/// `void touch_#name();`, with its original one-line layout.
pub fn sample_template() -> (v: Vec<Token>)
    ensures
        build_segments(Seq::empty(), v@) == CompileOutcome::Segs(sample_segments()),
{
    let mut v: Vec<Token> = Vec::new();
    v.push(Token::Identifier { text: String::from_str("void"), span: sp(1, 0, 1, 4) });
    v.push(Token::Identifier { text: String::from_str("touch_"), span: sp(1, 5, 1, 11) });
    v.push(Token::Punctuation { text: String::from_str("#"), span: sp(1, 11, 1, 12) });
    v.push(Token::Identifier { text: String::from_str("name"), span: sp(1, 12, 1, 16) });
    v.push(Token::GroupOpen { delimiter: Delimiter::Parenthesis, span: sp(1, 16, 1, 17) });
    v.push(Token::GroupClose { delimiter: Delimiter::Parenthesis, span: sp(1, 17, 1, 18) });
    v.push(Token::Punctuation { text: String::from_str(";"), span: sp(1, 18, 1, 19) });
    proof {
        reveal_strlit("void");
        reveal_strlit("touch_");
        reveal_strlit("#");
        reveal_strlit("name");
        reveal_strlit(";");
        reveal_strlit("void touch_");
        reveal_strlit("();");
        reveal_strlit("(");
        reveal_strlit(")");
        let ts = v@;
        assert(ts.len() == 7);
        assert("#"@ =~= seq!['#']);
        assert("("@ =~= seq!['(']);
        assert(")"@ =~= seq![')']);
        assert(";"@ != seq!['#']) by {
            assert(";"@[0] == ';');
            assert(seq!['#'][0] == '#');
        }
        let s1 = ts.skip(1);
        let s2 = ts.skip(2);
        let s4 = ts.skip(4);
        let s5 = ts.skip(5);
        let s6 = ts.skip(6);
        let s7 = ts.skip(7);
        assert(s1.skip(1) =~= s2);
        assert(s2.skip(2) =~= s4);
        assert(s4.skip(1) =~= s5);
        assert(s5.skip(1) =~= s6);
        assert(s6.skip(1) =~= s7);
        assert(s7.len() == 0);
        assert(s1.len() == 6 && s1[0] == ts[1]);
        assert(s2.len() == 5 && s2[0] == ts[2] && s2[1] == ts[3]);
        assert(s4.len() == 3 && s4[0] == ts[4]);
        assert(s5.len() == 2 && s5[0] == ts[5]);
        assert(s6.len() == 1 && s6[0] == ts[6]);
        let l0 = SegView::Literal { text: "void"@, span: sp_spec(1, 0, 1, 4) };
        let acc1 = Seq::empty().push(l0);
        assert(build_segments(Seq::empty(), ts) == build_segments(acc1, s1));
        let m1 = SegView::Literal {
            text: "void"@ + sep_chars(lc_spec(1, 4), lc_spec(1, 5)) + "touch_"@,
            span: sp_spec(1, 0, 1, 11),
        };
        let acc2 = acc1.drop_last().push(m1);
        assert(acc1.last() == l0);
        assert(build_segments(acc1, s1) == build_segments(acc2, s2));
        let vr = SegView::Variable { name: "name"@, span: sp_spec(1, 11, 1, 16) };
        let acc3 = acc2.push(vr);
        assert(build_segments(acc2, s2) == build_segments(acc3, s4));
        let p0 = SegView::Literal { text: "("@, span: sp_spec(1, 16, 1, 17) };
        let acc4 = acc3.push(p0);
        assert(acc3.last() == vr);
        assert(build_segments(acc3, s4) == build_segments(acc4, s5));
        let p1 = SegView::Literal {
            text: "("@ + sep_chars(lc_spec(1, 17), lc_spec(1, 17)) + ")"@,
            span: sp_spec(1, 16, 1, 18),
        };
        let acc5 = acc4.drop_last().push(p1);
        assert(acc4.last() == p0);
        assert(build_segments(acc4, s5) == build_segments(acc5, s6));
        let p2 = SegView::Literal {
            text: ("("@ + sep_chars(lc_spec(1, 17), lc_spec(1, 17)) + ")"@) + sep_chars(
                lc_spec(1, 18),
                lc_spec(1, 18),
            ) + ";"@,
            span: sp_spec(1, 16, 1, 19),
        };
        let acc6 = acc5.drop_last().push(p2);
        assert(acc5.last() == p1);
        assert(build_segments(acc5, s6) == build_segments(acc6, s7));
        assert(build_segments(acc6, s7) == CompileOutcome::Segs(acc6));
        assert(m1->Literal_text =~= "void touch_"@);
        assert(p2->Literal_text =~= "();"@);
        assert(acc6 =~= sample_segments());
    }
    v
}

spec fn lc_spec(line: usize, column: usize) -> LineColumn {
    LineColumn { line, column }
}

spec fn sp_spec(l0: usize, c0: usize, l1: usize, c1: usize) -> Span {
    Span { start: lc_spec(l0, c0), end: lc_spec(l1, c1) }
}

/// The sample template resolves every variable from the standard context and
/// renders to the declared hook line followed by one line break.
pub proof fn lemma_sample_render(nm: Seq<char>)
    ensures
        first_unresolved(sample_segments(), Map::empty().insert("name"@, nm)) is None,
        render_spec(
            sample_segments(),
            seps_for(sample_segments()),
            Map::empty().insert("name"@, nm),
        ) == sample_render(nm),
{
    reveal_strlit("name");
    reveal_strlit("void touch_");
    reveal_strlit("();");
    reveal_strlit("();\n");
    let segs = sample_segments();
    let ctx = Map::<Seq<char>, Seq<char>>::empty().insert("name"@, nm);
    let s2 = seq![segs[0], segs[1]];
    let s1 = seq![segs[0]];
    assert(segs.drop_last() =~= s2);
    assert(s2.drop_last() =~= s1);
    assert(s1.drop_last() =~= Seq::<SegView>::empty());
    assert(first_unresolved(Seq::<SegView>::empty(), ctx) is None);
    assert(first_unresolved(s1, ctx) is None);
    assert(first_unresolved(s2, ctx) is None);
    assert(first_unresolved(segs, ctx) is None);
    let p3 = seps_for(segs);
    assert(p3.len() == 3);
    assert(p3[0] =~= Seq::<char>::empty());
    assert(p3[1] =~= Seq::<char>::empty());
    assert(p3[2] == seq!['\n']);
    let q2 = p3.drop_last();
    let q1 = q2.drop_last();
    assert(q2.len() == 2 && q2[0] == p3[0] && q2[1] == p3[1]);
    assert(q1.len() == 1 && q1[0] == p3[0]);
    assert(q1.drop_last() =~= Seq::<Seq<char>>::empty());
    assert(render_spec(segs, p3, ctx) == cat(segs, p3, ctx));
    assert(cat(Seq::<SegView>::empty(), Seq::<Seq<char>>::empty(), ctx) == Seq::<char>::empty());
    assert(cat(s1, q1, ctx) == Seq::<char>::empty() + "void touch_"@ + q1.last());
    assert(cat(s2, q2, ctx) == cat(s1, q1, ctx) + nm + q2.last());
    assert(cat(segs, p3, ctx) == cat(s2, q2, ctx) + "();"@ + p3.last());
    assert(cat(segs, p3, ctx) =~= sample_render(nm));
}

/// A packaged configuration exposing the sample struct generator.
pub struct MyProcBindgen;

impl GeneratorEntry for MyProcBindgen {
    fn config(generator: &mut BindgenBuilder) {
        let template = sample_template();
        generator.gen_struct("my_bindgen", template);
    }
}

impl MyProcBindgen {
    /// A registry holding exactly the sample struct generator under the key
    /// `my_bindgen`, with every other bucket empty.
    pub fn new() -> (r: ProcBindgen)
        ensures
            r.struct_map().dom() == set!["my_bindgen"@],
            compile_spec(r.struct_map()["my_bindgen"@]) == CompileOutcome::Segs(
                sample_segments(),
            ),
            r.enum_gens@.len() == 0,
            r.fn_gens@.len() == 0,
            r.static_gens@.len() == 0,
            r.type_gens@.len() == 0,
            r.union_gens@.len() == 0,
            r.inputs@.len() == 0,
    {
        let mut builder = BindgenBuilder::new();
        let template = sample_template();
        builder.gen_struct("my_bindgen", template);
        let r = builder.build();
        proof {
            assert(r.struct_map().dom() =~= set!["my_bindgen"@]);
        }
        r
    }

    /// The same configuration, by its builder-trait name.
    pub fn create() -> (r: ProcBindgen)
        ensures
            r.struct_map().dom() == set!["my_bindgen"@],
            compile_spec(r.struct_map()["my_bindgen"@]) == CompileOutcome::Segs(
                sample_segments(),
            ),
            r.enum_gens@.len() == 0,
            r.fn_gens@.len() == 0,
            r.static_gens@.len() == 0,
            r.type_gens@.len() == 0,
            r.union_gens@.len() == 0,
            r.inputs@.len() == 0,
    {
        Self::new()
    }
}

/// Renders the sample template for one declaration: the hook line named
/// after the declaration, terminated by a line break.
pub fn gen_struct(item: &Declaration) -> (r: Result<String, BindgenError>)
    ensures
        r matches Ok(s) && s@ == sample_render(item.name@),
{
    let template = sample_template();
    let compiled: CompiledTemplate = match compile(&template) {
        Ok(c) => c,
        Err(_) => {
            proof {
                assert(false);
            }
            vstd::pervasive::unreached()
        },
    };
    let mut ctx = Context::new();
    ctx.insert("name", item.name.clone());
    proof {
        lemma_sample_render(item.name@);
    }
    match render(&compiled, &ctx) {
        Ok(s) => Ok(s),
        Err(_) => {
            proof {
                assert(false);
            }
            vstd::pervasive::unreached()
        },
    }
}

} // verus!
