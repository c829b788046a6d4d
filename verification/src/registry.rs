//! The generator registry and its builder.
//!
//! Generators are authored templates, registered under a marker key in the
//! bucket of one declaration kind.  Registering the same key twice
//! overwrites the earlier entry: the last registration wins.  Once built,
//! the registry is handed to the dispatcher and never changes again.

use vstd::prelude::*;
use crate::token::Token;

verus! {

/// The map a registration list denotes, later registrations winning.
pub open spec fn tpl_map(entries: Seq<(String, Vec<Token>)>) -> Map<Seq<char>, Seq<Token>>
    decreases entries.len(),
{
    if entries.len() == 0 {
        Map::empty()
    } else {
        tpl_map(entries.drop_last()).insert(entries.last().0@, entries.last().1@)
    }
}

/// The last registered template for `key`, if any.
pub open spec fn tpl_lookup(entries: Seq<(String, Vec<Token>)>, key: Seq<char>) -> Option<
    Seq<Token>,
>
    decreases entries.len(),
{
    if entries.len() == 0 {
        None
    } else if entries.last().0@ == key {
        Some(entries.last().1@)
    } else {
        tpl_lookup(entries.drop_last(), key)
    }
}

/// Scanning for the last registration agrees with the map the entries
/// denote.
proof fn lemma_tpl_lookup(entries: Seq<(String, Vec<Token>)>, key: Seq<char>)
    ensures
        match tpl_lookup(entries, key) {
            Some(v) => tpl_map(entries).contains_key(key) && tpl_map(entries)[key] == v,
            None => !tpl_map(entries).contains_key(key),
        },
    decreases entries.len(),
{
    if entries.len() > 0 {
        lemma_tpl_lookup(entries.drop_last(), key);
    }
}

/// The index of the template registration that wins for `key`.
pub(crate) fn find_template(entries: &Vec<(String, Vec<Token>)>, key: &String) -> (r: Option<
    usize,
>)
    ensures
        match r {
            Some(i) => i < entries@.len() && tpl_map(entries@).contains_key(key@) && tpl_map(
                entries@,
            )[key@] == entries@[i as int].1@,
            None => !tpl_map(entries@).contains_key(key@),
        },
{
    let mut j: usize = entries.len();
    proof {
        assert(entries@.take(j as int) =~= entries@);
    }
    while j > 0
        invariant
            j <= entries@.len(),
            tpl_lookup(entries@, key@) == tpl_lookup(entries@.take(j as int), key@),
        decreases j,
    {
        proof {
            assert(entries@.take(j as int).last() == entries@[j - 1]);
            assert(entries@.take(j as int).drop_last() =~= entries@.take(j as int - 1));
        }
        if entries[j - 1].0 == *key {
            proof {
                lemma_tpl_lookup(entries@, key@);
            }
            return Some(j - 1);
        }
        j = j - 1;
    }
    proof {
        assert(entries@.take(0) =~= Seq::<(String, Vec<Token>)>::empty());
        lemma_tpl_lookup(entries@, key@);
    }
    None
}

/// The views of a list of input paths.
pub open spec fn str_views(s: Seq<String>) -> Seq<Seq<char>> {
    s.map_values(|x: String| x@)
}

/// An immutable generation configuration: one template bucket per
/// declaration kind, and the input paths to process in order.
pub struct ProcBindgen {
    pub struct_gens: Vec<(String, Vec<Token>)>,
    pub enum_gens: Vec<(String, Vec<Token>)>,
    pub fn_gens: Vec<(String, Vec<Token>)>,
    pub static_gens: Vec<(String, Vec<Token>)>,
    pub type_gens: Vec<(String, Vec<Token>)>,
    pub union_gens: Vec<(String, Vec<Token>)>,
    pub inputs: Vec<String>,
}

impl ProcBindgen {
    pub open spec fn struct_map(self) -> Map<Seq<char>, Seq<Token>> {
        tpl_map(self.struct_gens@)
    }

    pub open spec fn enum_map(self) -> Map<Seq<char>, Seq<Token>> {
        tpl_map(self.enum_gens@)
    }

    pub open spec fn fn_map(self) -> Map<Seq<char>, Seq<Token>> {
        tpl_map(self.fn_gens@)
    }

    pub open spec fn static_map(self) -> Map<Seq<char>, Seq<Token>> {
        tpl_map(self.static_gens@)
    }

    pub open spec fn type_map(self) -> Map<Seq<char>, Seq<Token>> {
        tpl_map(self.type_gens@)
    }

    pub open spec fn union_map(self) -> Map<Seq<char>, Seq<Token>> {
        tpl_map(self.union_gens@)
    }

    /// Registers one more input path, keeping the earlier ones in order.
    pub fn input(self, filename: &str) -> (r: Self)
        ensures
            str_views(r.inputs@) == str_views(self.inputs@).push(filename@),
            r.struct_gens == self.struct_gens,
            r.enum_gens == self.enum_gens,
            r.fn_gens == self.fn_gens,
            r.static_gens == self.static_gens,
            r.type_gens == self.type_gens,
            r.union_gens == self.union_gens,
    {
        let mut this = self;
        this.inputs.push(filename.to_owned());
        proof {
            assert(str_views(this.inputs@) =~= str_views(self.inputs@).push(filename@));
        }
        this
    }
}

impl Default for ProcBindgen {
    /// A configuration with no generators and no inputs.
    fn default() -> (r: Self)
        ensures
            r.struct_gens@.len() == 0,
            r.enum_gens@.len() == 0,
            r.fn_gens@.len() == 0,
            r.static_gens@.len() == 0,
            r.type_gens@.len() == 0,
            r.union_gens@.len() == 0,
            r.inputs@.len() == 0,
    {
        ProcBindgen {
            struct_gens: Vec::new(),
            enum_gens: Vec::new(),
            fn_gens: Vec::new(),
            static_gens: Vec::new(),
            type_gens: Vec::new(),
            union_gens: Vec::new(),
            inputs: Vec::new(),
        }
    }
}

/// Accumulates generator registrations and hands out the finished,
/// thereafter immutable configuration.
pub struct BindgenBuilder {
    pub bindgen: ProcBindgen,
}

impl Default for BindgenBuilder {
    fn default() -> (r: Self)
        ensures
            r.bindgen.struct_gens@.len() == 0,
            r.bindgen.enum_gens@.len() == 0,
            r.bindgen.fn_gens@.len() == 0,
            r.bindgen.static_gens@.len() == 0,
            r.bindgen.type_gens@.len() == 0,
            r.bindgen.union_gens@.len() == 0,
            r.bindgen.inputs@.len() == 0,
    {
        BindgenBuilder { bindgen: Default::default() }
    }
}

impl BindgenBuilder {
    pub fn new() -> (r: Self)
        ensures
            r.bindgen.struct_gens@.len() == 0,
            r.bindgen.enum_gens@.len() == 0,
            r.bindgen.fn_gens@.len() == 0,
            r.bindgen.static_gens@.len() == 0,
            r.bindgen.type_gens@.len() == 0,
            r.bindgen.union_gens@.len() == 0,
            r.bindgen.inputs@.len() == 0,
    {
        Default::default()
    }

    /// Registers a struct generator under `attr`; a later registration for
    /// the same key wins.
    pub fn gen_struct(&mut self, attr: &str, template: Vec<Token>)
        ensures
            final(self).bindgen.struct_map() == old(self).bindgen.struct_map().insert(
                attr@,
                template@,
            ),
            final(self).bindgen.enum_gens == old(self).bindgen.enum_gens,
            final(self).bindgen.fn_gens == old(self).bindgen.fn_gens,
            final(self).bindgen.static_gens == old(self).bindgen.static_gens,
            final(self).bindgen.type_gens == old(self).bindgen.type_gens,
            final(self).bindgen.union_gens == old(self).bindgen.union_gens,
            final(self).bindgen.inputs == old(self).bindgen.inputs,
    {
        let ghost e0 = self.bindgen.struct_gens@;
        self.bindgen.struct_gens.push((attr.to_owned(), template));
        proof {
            assert(self.bindgen.struct_gens@.drop_last() =~= e0);
        }
    }

    /// Registers an enum generator under `attr`.
    pub fn gen_enum(&mut self, attr: &str, template: Vec<Token>)
        ensures
            final(self).bindgen.enum_map() == old(self).bindgen.enum_map().insert(
                attr@,
                template@,
            ),
            final(self).bindgen.struct_gens == old(self).bindgen.struct_gens,
            final(self).bindgen.fn_gens == old(self).bindgen.fn_gens,
            final(self).bindgen.static_gens == old(self).bindgen.static_gens,
            final(self).bindgen.type_gens == old(self).bindgen.type_gens,
            final(self).bindgen.union_gens == old(self).bindgen.union_gens,
            final(self).bindgen.inputs == old(self).bindgen.inputs,
    {
        let ghost e0 = self.bindgen.enum_gens@;
        self.bindgen.enum_gens.push((attr.to_owned(), template));
        proof {
            assert(self.bindgen.enum_gens@.drop_last() =~= e0);
        }
    }

    /// Registers a function generator under `attr`.
    pub fn gen_fn(&mut self, attr: &str, template: Vec<Token>)
        ensures
            final(self).bindgen.fn_map() == old(self).bindgen.fn_map().insert(attr@, template@),
            final(self).bindgen.struct_gens == old(self).bindgen.struct_gens,
            final(self).bindgen.enum_gens == old(self).bindgen.enum_gens,
            final(self).bindgen.static_gens == old(self).bindgen.static_gens,
            final(self).bindgen.type_gens == old(self).bindgen.type_gens,
            final(self).bindgen.union_gens == old(self).bindgen.union_gens,
            final(self).bindgen.inputs == old(self).bindgen.inputs,
    {
        let ghost e0 = self.bindgen.fn_gens@;
        self.bindgen.fn_gens.push((attr.to_owned(), template));
        proof {
            assert(self.bindgen.fn_gens@.drop_last() =~= e0);
        }
    }

    /// Registers a static-item generator under `attr`.
    pub fn gen_static(&mut self, attr: &str, template: Vec<Token>)
        ensures
            final(self).bindgen.static_map() == old(self).bindgen.static_map().insert(
                attr@,
                template@,
            ),
            final(self).bindgen.struct_gens == old(self).bindgen.struct_gens,
            final(self).bindgen.enum_gens == old(self).bindgen.enum_gens,
            final(self).bindgen.fn_gens == old(self).bindgen.fn_gens,
            final(self).bindgen.type_gens == old(self).bindgen.type_gens,
            final(self).bindgen.union_gens == old(self).bindgen.union_gens,
            final(self).bindgen.inputs == old(self).bindgen.inputs,
    {
        let ghost e0 = self.bindgen.static_gens@;
        self.bindgen.static_gens.push((attr.to_owned(), template));
        proof {
            assert(self.bindgen.static_gens@.drop_last() =~= e0);
        }
    }

    /// Registers a type-alias generator under `attr`.
    pub fn gen_type(&mut self, attr: &str, template: Vec<Token>)
        ensures
            final(self).bindgen.type_map() == old(self).bindgen.type_map().insert(
                attr@,
                template@,
            ),
            final(self).bindgen.struct_gens == old(self).bindgen.struct_gens,
            final(self).bindgen.enum_gens == old(self).bindgen.enum_gens,
            final(self).bindgen.fn_gens == old(self).bindgen.fn_gens,
            final(self).bindgen.static_gens == old(self).bindgen.static_gens,
            final(self).bindgen.union_gens == old(self).bindgen.union_gens,
            final(self).bindgen.inputs == old(self).bindgen.inputs,
    {
        let ghost e0 = self.bindgen.type_gens@;
        self.bindgen.type_gens.push((attr.to_owned(), template));
        proof {
            assert(self.bindgen.type_gens@.drop_last() =~= e0);
        }
    }

    /// Registers a union generator under `attr`.
    pub fn gen_union(&mut self, attr: &str, template: Vec<Token>)
        ensures
            final(self).bindgen.union_map() == old(self).bindgen.union_map().insert(
                attr@,
                template@,
            ),
            final(self).bindgen.struct_gens == old(self).bindgen.struct_gens,
            final(self).bindgen.enum_gens == old(self).bindgen.enum_gens,
            final(self).bindgen.fn_gens == old(self).bindgen.fn_gens,
            final(self).bindgen.static_gens == old(self).bindgen.static_gens,
            final(self).bindgen.type_gens == old(self).bindgen.type_gens,
            final(self).bindgen.inputs == old(self).bindgen.inputs,
    {
        let ghost e0 = self.bindgen.union_gens@;
        self.bindgen.union_gens.push((attr.to_owned(), template));
        proof {
            assert(self.bindgen.union_gens@.drop_last() =~= e0);
        }
    }

    /// Hands out the finished configuration; nothing can be registered
    /// afterwards.
    pub fn build(self) -> (r: ProcBindgen)
        ensures
            r == self.bindgen,
    {
        self.bindgen
    }
}

/// A packaged generator configuration: implementors register their
/// generators in `config`, and `new` builds the finished registry from it.
pub trait GeneratorEntry {
    fn config(generator: &mut BindgenBuilder);

    fn new() -> ProcBindgen {
        let mut builder = BindgenBuilder::new();
        Self::config(&mut builder);
        builder.build()
    }
}

} // verus!
