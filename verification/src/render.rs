//! The template renderer and the binding context.
//!
//! Rendering is pure: the output is a function of the compiled segments,
//! the separators and the context alone, so rendering the same compiled
//! template against the same context twice yields byte-identical strings.

use vstd::prelude::*;
use vstd::string::StringExecFns;
use crate::compile::{CompiledTemplate, Segment, SegView, seg_span, seg_name, views_of,
    seps_views};
use crate::errors::{BindgenError, ErrView};

verus! {

/// The value bindings a template is rendered against: a map from variable
/// names to their stringified values.  A later binding for the same name
/// replaces the earlier one.
pub struct Context {
    pub entries: Vec<(String, String)>,
}

/// The map an entry list denotes, later entries winning.
pub open spec fn ctx_map(entries: Seq<(String, String)>) -> Map<Seq<char>, Seq<char>>
    decreases entries.len(),
{
    if entries.len() == 0 {
        Map::empty()
    } else {
        ctx_map(entries.drop_last()).insert(entries.last().0@, entries.last().1@)
    }
}

impl View for Context {
    type V = Map<Seq<char>, Seq<char>>;

    open spec fn view(&self) -> Map<Seq<char>, Seq<char>> {
        ctx_map(self.entries@)
    }
}

impl Context {
    pub fn new() -> (r: Context)
        ensures
            r@ == Map::<Seq<char>, Seq<char>>::empty(),
    {
        Context { entries: Vec::new() }
    }

    /// Binds `key` to `value`, replacing any earlier binding of `key`.
    pub fn insert(&mut self, key: &str, value: String)
        ensures
            final(self)@ == old(self)@.insert(key@, value@),
    {
        let ghost entries0 = self.entries@;
        self.entries.push((key.to_owned(), value));
        proof {
            assert(self.entries@.drop_last() =~= entries0);
        }
    }

    /// The value bound to `key`, if any.
    pub fn get(&self, key: &String) -> (r: Option<String>)
        ensures
            match r {
                Some(v) => self@.contains_key(key@) && v@ == self@[key@],
                None => !self@.contains_key(key@),
            },
    {
        let mut j: usize = self.entries.len();
        proof {
            assert(self.entries@.take(j as int) =~= self.entries@);
        }
        while j > 0
            invariant
                j <= self.entries@.len(),
                ctx_lookup(self.entries@, key@) == ctx_lookup(
                    self.entries@.take(j as int),
                    key@,
                ),
            decreases j,
        {
            proof {
                assert(self.entries@.take(j as int).last() == self.entries@[j - 1]);
                assert(self.entries@.take(j as int).drop_last() =~= self.entries@.take(
                    j as int - 1,
                ));
            }
            if self.entries[j - 1].0 == *key {
                let v = self.entries[j - 1].1.clone();
                proof {
                    lemma_ctx_lookup(self.entries@, key@);
                }
                return Some(v);
            }
            j = j - 1;
        }
        proof {
            assert(self.entries@.take(0) =~= Seq::<(String, String)>::empty());
            lemma_ctx_lookup(self.entries@, key@);
        }
        None
    }
}

/// The last binding of `key` in an entry list, if any.
pub open spec fn ctx_lookup(entries: Seq<(String, String)>, key: Seq<char>) -> Option<Seq<char>>
    decreases entries.len(),
{
    if entries.len() == 0 {
        None
    } else if entries.last().0@ == key {
        Some(entries.last().1@)
    } else {
        ctx_lookup(entries.drop_last(), key)
    }
}

/// Scanning for the last binding agrees with the map the entries denote.
proof fn lemma_ctx_lookup(entries: Seq<(String, String)>, key: Seq<char>)
    ensures
        match ctx_lookup(entries, key) {
            Some(v) => ctx_map(entries).contains_key(key) && ctx_map(entries)[key] == v,
            None => !ctx_map(entries).contains_key(key),
        },
    decreases entries.len(),
{
    if entries.len() > 0 {
        lemma_ctx_lookup(entries.drop_last(), key);
    }
}

/// The text a segment contributes to the output.
pub open spec fn seg_text(s: SegView, ctx: Map<Seq<char>, Seq<char>>) -> Seq<char> {
    match s {
        SegView::Literal { text, .. } => text,
        SegView::Variable { name, .. } => ctx[name],
    }
}

/// The concatenation of each segment's text followed by its separator.
pub open spec fn cat(
    segs: Seq<SegView>,
    seps: Seq<Seq<char>>,
    ctx: Map<Seq<char>, Seq<char>>,
) -> Seq<char>
    decreases segs.len(),
{
    if segs.len() == 0 {
        Seq::empty()
    } else {
        cat(segs.drop_last(), seps.drop_last(), ctx) + seg_text(segs.last(), ctx) + seps.last()
    }
}

/// What rendering yields when every variable resolves: an empty template
/// renders to a single line break, any other to its segments and separators
/// in order.
pub open spec fn render_spec(
    segs: Seq<SegView>,
    seps: Seq<Seq<char>>,
    ctx: Map<Seq<char>, Seq<char>>,
) -> Seq<char> {
    if segs.len() == 0 {
        seq!['\n']
    } else {
        cat(segs, seps, ctx)
    }
}

/// The first variable segment whose name the context does not bind.
pub open spec fn first_unresolved(
    segs: Seq<SegView>,
    ctx: Map<Seq<char>, Seq<char>>,
) -> Option<SegView>
    decreases segs.len(),
{
    if segs.len() == 0 {
        None
    } else {
        match first_unresolved(segs.drop_last(), ctx) {
            Some(s) => Some(s),
            None => if segs.last() is Variable && !ctx.contains_key(seg_name(segs.last())) {
                Some(segs.last())
            } else {
                None
            },
        }
    }
}

/// An unresolved variable among the first `i` segments stays the first
/// unresolved variable of the whole sequence.
proof fn lemma_first_unresolved_extend(
    segs: Seq<SegView>,
    ctx: Map<Seq<char>, Seq<char>>,
    i: int,
)
    requires
        0 <= i <= segs.len(),
        first_unresolved(segs.take(i), ctx) is Some,
    ensures
        first_unresolved(segs, ctx) == first_unresolved(segs.take(i), ctx),
    decreases segs.len() - i,
{
    if i == segs.len() {
        assert(segs.take(i) =~= segs);
    } else {
        assert(segs.take(i + 1).drop_last() =~= segs.take(i));
        lemma_first_unresolved_extend(segs, ctx, i + 1);
    }
}

/// Renders a compiled template against a context: literal runs verbatim,
/// variables replaced by their bound values, separators in between.  The
/// output is pinned to `render_spec`, a function of the inputs alone, so two
/// renderings of the same template and context are byte-identical.
pub fn render(t: &CompiledTemplate, ctx: &Context) -> (r: Result<String, BindgenError>)
    requires
        t.wf(),
    ensures
        match r {
            Ok(s) => {
                &&& first_unresolved(views_of(t.segments@), ctx@) is None
                &&& s@ == render_spec(views_of(t.segments@), seps_views(t.separators@), ctx@)
            },
            Err(e) => {
                &&& first_unresolved(views_of(t.segments@), ctx@) matches Some(u) && e@ == (
                ErrView::UnresolvedVariable { name: seg_name(u), position: seg_span(u).start })
            },
        },
{
    let n = t.segments.len();
    if n == 0 {
        let mut out = String::new();
        out.append("\n");
        proof {
            reveal_strlit("\n");
            assert(out@ =~= seq!['\n']);
        }
        return Ok(out);
    }
    let ghost segs = views_of(t.segments@);
    let ghost seps = seps_views(t.separators@);
    let mut out = String::new();
    let mut i: usize = 0;
    proof {
        assert(segs.take(0) =~= Seq::<SegView>::empty());
        assert(seps.take(0) =~= Seq::<Seq<char>>::empty());
    }
    while i < n
        invariant
            i <= n,
            n == t.segments@.len(),
            t.separators@.len() == n,
            segs == views_of(t.segments@),
            seps == seps_views(t.separators@),
            first_unresolved(segs.take(i as int), ctx@) is None,
            out@ == cat(segs.take(i as int), seps.take(i as int), ctx@),
        decreases n - i,
    {
        proof {
            assert(segs.take(i as int + 1).drop_last() =~= segs.take(i as int));
            assert(seps.take(i as int + 1).drop_last() =~= seps.take(i as int));
            assert(segs.take(i as int + 1).last() == segs[i as int]);
            assert(seps.take(i as int + 1).last() == seps[i as int]);
        }
        match &t.segments[i] {
            Segment::Literal { text, .. } => {
                out.append(text.as_str());
            },
            Segment::Variable { name, span } => {
                match ctx.get(name) {
                    Some(v) => {
                        out.append(v.as_str());
                    },
                    None => {
                        proof {
                            lemma_first_unresolved_extend(segs, ctx@, i as int + 1);
                        }
                        return Err(
                            BindgenError::UnresolvedVariable {
                                name: name.clone(),
                                position: span.start,
                            },
                        );
                    },
                }
            },
        }
        out.append(t.separators[i].as_str());
        i = i + 1;
    }
    proof {
        assert(segs.take(n as int) =~= segs);
        assert(seps.take(n as int) =~= seps);
    }
    Ok(out)
}

} // verus!
