//! The declaration dispatcher.
//!
//! Given the parsed declarations of an input source, the dispatcher renders,
//! for each declaration bearing a marker, the generator registered under the
//! marker's key in the bucket of that declaration's kind.  A declaration
//! without a marker contributes nothing and is no error; a marker naming an
//! unregistered key aborts the run.  Output already produced before a
//! failure is handed back with the error, so a caller can keep what was
//! flushed.

use vstd::prelude::*;
use vstd::string::StringExecFns;
use crate::compile::{CompileOutcome, compile, compile_spec, seps_for, seg_span, seg_name};
use crate::errors::{BindgenError, ErrView};
use crate::registry::{ProcBindgen, find_template, tpl_map};
use crate::render::{Context, first_unresolved, render, render_spec};
use crate::token::Token;

verus! {

/// The closed set of declaration kinds a generator can be registered for.
#[derive(Clone, Copy, Debug, PartialEq, Eq, Structural)]
pub enum DeclKind {
    Struct,
    Enum,
    Function,
    Static,
    TypeAlias,
    Union,
}

/// One argument of a marker attribute: the generator key it names, or
/// anything else the author wrote there.
#[derive(Clone, Debug)]
pub enum MarkerArg {
    Identifier(String),
    Other(String),
}

/// A marker attribute attached to a declaration, with its raw argument
/// list.  A well-formed marker carries exactly one identifier argument.
#[derive(Clone, Debug)]
pub struct MarkerAttr {
    pub args: Vec<MarkerArg>,
}

/// A parsed top-level declaration: its kind, its name, and the marker
/// attributes addressed at this system, in source order.
#[derive(Clone, Debug)]
pub struct Declaration {
    pub kind: DeclKind,
    pub name: String,
    pub markers: Vec<MarkerAttr>,
}

/// The key text a marker argument carries.
pub open spec fn arg_key(a: MarkerArg) -> Seq<char> {
    match a {
        MarkerArg::Identifier(s) => s@,
        MarkerArg::Other(s) => s@,
    }
}

/// The registry bucket consulted for a declaration kind.
pub open spec fn bucket_map(p: ProcBindgen, kind: DeclKind) -> Map<Seq<char>, Seq<Token>> {
    match kind {
        DeclKind::Struct => p.struct_map(),
        DeclKind::Enum => p.enum_map(),
        DeclKind::Function => p.fn_map(),
        DeclKind::Static => p.static_map(),
        DeclKind::TypeAlias => p.type_map(),
        DeclKind::Union => p.union_map(),
    }
}

/// The binding context a declaration offers its template: its own name.
pub open spec fn decl_ctx(d: Declaration) -> Map<Seq<char>, Seq<char>> {
    Map::empty().insert("name"@, d.name@)
}

/// What one declaration contributes to the run: nothing, a rendered block,
/// or the failure that aborts the run.
pub enum DispatchOutcome {
    Skip,
    Emit(Seq<char>),
    Fail(ErrView),
}

/// How the dispatcher treats one declaration: unmarked ones are skipped; a
/// malformed marker argument list is a parse failure; an unregistered key
/// for the declaration's kind is fatal; otherwise the registered template is
/// compiled and rendered against the declaration's context.
pub open spec fn dispatch_spec(p: ProcBindgen, d: Declaration) -> DispatchOutcome {
    if d.markers@.len() == 0 {
        DispatchOutcome::Skip
    } else {
        let args = d.markers@[0].args@;
        if !(args.len() == 1 && args[0] is Identifier) {
            DispatchOutcome::Fail(ErrView::ParseFailure { decl: d.name@ })
        } else {
            let key = arg_key(args[0]);
            let bucket = bucket_map(p, d.kind);
            if !bucket.contains_key(key) {
                DispatchOutcome::Fail(ErrView::GeneratorNotFound { key, decl: d.name@ })
            } else {
                match compile_spec(bucket[key]) {
                    CompileOutcome::Malformed(sp) => DispatchOutcome::Fail(
                        ErrView::MalformedVariableReference { position: sp.start },
                    ),
                    CompileOutcome::Segs(segs) => match first_unresolved(segs, decl_ctx(d)) {
                        Some(u) => DispatchOutcome::Fail(
                            ErrView::UnresolvedVariable {
                                name: seg_name(u),
                                position: seg_span(u).start,
                            },
                        ),
                        None => DispatchOutcome::Emit(
                            render_spec(segs, seps_for(segs), decl_ctx(d)),
                        ),
                    },
                }
            }
        }
    }
}

/// What a whole run over a declaration sequence produces: the concatenated
/// blocks of every marked declaration before the first failure, and that
/// failure if one occurs.
pub open spec fn run_spec(p: ProcBindgen, ds: Seq<Declaration>) -> (Seq<char>, Option<ErrView>)
    decreases ds.len(),
{
    if ds.len() == 0 {
        (Seq::empty(), None)
    } else {
        match dispatch_spec(p, ds[0]) {
            DispatchOutcome::Skip => run_spec(p, ds.skip(1)),
            DispatchOutcome::Emit(t) => {
                let rest = run_spec(p, ds.skip(1));
                (t + rest.0, rest.1)
            },
            DispatchOutcome::Fail(e) => (Seq::empty(), Some(e)),
        }
    }
}

impl ProcBindgen {
    /// The template bucket for one declaration kind.
    fn bucket(&self, kind: DeclKind) -> (r: &Vec<(String, Vec<Token>)>)
        ensures
            tpl_map(r@) == bucket_map(*self, kind),
    {
        match kind {
            DeclKind::Struct => &self.struct_gens,
            DeclKind::Enum => &self.enum_gens,
            DeclKind::Function => &self.fn_gens,
            DeclKind::Static => &self.static_gens,
            DeclKind::TypeAlias => &self.type_gens,
            DeclKind::Union => &self.union_gens,
        }
    }

    /// Handles one declaration: `Ok(None)` for an unmarked one, the
    /// rendered block for a marked one, and the aborting failure otherwise.
    pub fn dispatch_decl(&self, d: &Declaration) -> (r: Result<Option<String>, BindgenError>)
        ensures
            match r {
                Ok(out) => match out {
                    Option::None => dispatch_spec(*self, *d) is Skip,
                    Option::Some(s) => dispatch_spec(*self, *d) == DispatchOutcome::Emit(s@),
                },
                Err(e) => dispatch_spec(*self, *d) == DispatchOutcome::Fail(e@),
            },
    {
        if d.markers.len() == 0 {
            return Ok(None);
        }
        let m = &d.markers[0];
        if m.args.len() != 1 {
            return Err(BindgenError::ParseFailure { decl: d.name.clone() });
        }
        let key = match &m.args[0] {
            MarkerArg::Identifier(s) => s.clone(),
            MarkerArg::Other(_) => {
                return Err(BindgenError::ParseFailure { decl: d.name.clone() });
            },
        };
        let bucket = self.bucket(d.kind);
        let idx = match find_template(bucket, &key) {
            Some(i) => i,
            None => {
                return Err(BindgenError::GeneratorNotFound { key, decl: d.name.clone() });
            },
        };
        let template = &bucket[idx].1;
        let compiled = match compile(template) {
            Ok(c) => c,
            Err(e) => {
                return Err(e);
            },
        };
        let mut ctx = Context::new();
        ctx.insert("name", d.name.clone());
        match render(&compiled, &ctx) {
            Ok(s) => Ok(Some(s)),
            Err(e) => Err(e),
        }
    }

    /// Runs the dispatcher over a declaration sequence, in order.  The
    /// returned text is everything produced before the first failure, so a
    /// caller that flushes as it writes keeps exactly this much; the error,
    /// if any, is the first one encountered.
    pub fn generate(&self, decls: &Vec<Declaration>) -> (r: (String, Option<BindgenError>))
        ensures
            r.0@ == run_spec(*self, decls@).0,
            match r.1 {
                Option::Some(e) => run_spec(*self, decls@).1 == Some(e@),
                Option::None => run_spec(*self, decls@).1 is None,
            },
    {
        let ghost goal = run_spec(*self, decls@);
        let mut out = String::new();
        let mut i: usize = 0;
        proof {
            assert(decls@.skip(0) =~= decls@);
        }
        while i < decls.len()
            invariant
                i <= decls@.len(),
                goal == run_spec(*self, decls@),
                goal.0 == out@ + run_spec(*self, decls@.skip(i as int)).0,
                goal.1 == run_spec(*self, decls@.skip(i as int)).1,
            decreases decls@.len() - i,
        {
            let ghost rest = decls@.skip(i as int);
            proof {
                assert(rest[0] == decls@[i as int]);
                assert(rest.skip(1) =~= decls@.skip(i as int + 1));
            }
            match self.dispatch_decl(&decls[i]) {
                Ok(block) => {
                    match block {
                        Some(text) => {
                            let ghost out0 = out@;
                            out.append(text.as_str());
                            proof {
                                assert(out0 + (text@ + run_spec(
                                    *self,
                                    decls@.skip(i as int + 1),
                                ).0) =~= (out0 + text@) + run_spec(
                                    *self,
                                    decls@.skip(i as int + 1),
                                ).0);
                            }
                        },
                        None => {},
                    }
                },
                Err(e) => {
                    proof {
                        assert(goal.1 == Some(e@));
                        assert(goal.0 =~= out@);
                    }
                    return (out, Some(e));
                },
            }
            i = i + 1;
        }
        proof {
            assert(decls@.skip(i as int) =~= Seq::<Declaration>::empty());
            assert(goal.0 =~= out@);
        }
        (out, None)
    }
}

/// Where the leading shebang line of a source text ends: the index of its
/// first line feed (kept in the remainder), or the text's length if none
/// occurs.  A text not opening with a shebang, or opening an inner
/// attribute, is left whole.
pub fn shebang_end(source: &Vec<u8>) -> (n: usize)
    ensures
        n <= source@.len(),
        !has_shebang(source@) ==> n == 0,
        has_shebang(source@) ==> (forall|k: int| 0 <= k < n ==> source@[k] != 10u8) && (n
            < source@.len() ==> source@[n as int] == 10u8),
{
    if !(source.len() >= 2 && source[0] == 35u8 && source[1] == 33u8) {
        return 0;
    }
    if source.len() >= 3 && source[2] == 91u8 {
        return 0;
    }
    let mut k: usize = 0;
    while k < source.len()
        invariant
            has_shebang(source@),
            k <= source@.len(),
            forall|j: int| 0 <= j < k ==> source@[j] != 10u8,
        decreases source@.len() - k,
    {
        if source[k] == 10u8 {
            return k;
        }
        k = k + 1;
    }
    k
}

/// Whether a source text opens with a shebang line rather than an inner
/// attribute.
pub open spec fn has_shebang(s: Seq<u8>) -> bool {
    s.len() >= 2 && s[0] == 35u8 && s[1] == 33u8 && !(s.len() >= 3 && s[2] == 91u8)
}

} // verus!
