//! The user-defined type registry: named composite types, each a mapping
//! from field name to field type.
//!
//! A field type is a scalar (optionally carrying a default value) or a
//! reference to another declared type by name. Floating-point defaults are
//! carried as IEEE-754 double bit patterns.

use vstd::prelude::*;

verus! {

/// A field type: a scalar variant with an optional default value, or a
/// reference to another declared type by name.
#[derive(Debug, Clone, PartialEq)]
#[allow(non_camel_case_types)]
pub enum Type {
    BOOLEAN(Option<bool>),
    BYTE(Option<i8>),
    SHORT(Option<i16>),
    INT(Option<i32>),
    LONG(Option<i64>),
    /// A single-precision default, carried as the bit pattern of its
    /// double-precision reading.
    FLOAT(Option<u64>),
    /// A double-precision default, carried as its bit pattern.
    DOUBLE(Option<u64>),
    STRING(Option<String>),
    /// A reference to another declared type: a lookup key into the
    /// registry, never an embedded definition.
    CUSTOM(String),
}

/// The mathematical model of a [`Type`].
pub enum TypeView {
    Boolean(Option<bool>),
    Byte(Option<i8>),
    Short(Option<i16>),
    Int(Option<i32>),
    Long(Option<i64>),
    Float(Option<u64>),
    Double(Option<u64>),
    Str(Option<Seq<char>>),
    Custom(Seq<char>),
}

impl View for Type {
    type V = TypeView;

    open spec fn view(&self) -> TypeView {
        match self {
            Type::BOOLEAN(d) => TypeView::Boolean(*d),
            Type::BYTE(d) => TypeView::Byte(*d),
            Type::SHORT(d) => TypeView::Short(*d),
            Type::INT(d) => TypeView::Int(*d),
            Type::LONG(d) => TypeView::Long(*d),
            Type::FLOAT(d) => TypeView::Float(*d),
            Type::DOUBLE(d) => TypeView::Double(*d),
            Type::STRING(d) => TypeView::Str(match d {
                Some(s) => Some(s@),
                None => None,
            }),
            Type::CUSTOM(name) => TypeView::Custom(name@),
        }
    }
}

/// A named record: a mapping from field name to field type. Field names
/// are unique when the definition comes out of a decoded document.
#[derive(Debug, Clone, PartialEq)]
pub struct TypeDTO {
    pub fields: Vec<(String, Type)>,
}

/// The mathematical model of a [`TypeDTO`].
pub struct TypeDefView {
    pub fields: Seq<(Seq<char>, TypeView)>,
}

impl View for TypeDTO {
    type V = TypeDefView;

    open spec fn view(&self) -> TypeDefView {
        TypeDefView { fields: crate::value::pairs_view(self.fields@) }
    }
}

/// Looks a declared type up by name: the first registry entry with that
/// name, if any.
pub fn resolve<'a>(registry: &'a Vec<(String, TypeDTO)>, name: &str) -> (r: Option<&'a TypeDTO>)
    ensures
        ({
            let reg = crate::value::pairs_view(registry@);
            match r {
                Some(d) => 0 <= crate::value::lookup_idx(reg, name@) < reg.len() && reg[
                    crate::value::lookup_idx(reg, name@)
                ].1 == d@,
                None => crate::value::lookup_idx(reg, name@) < 0,
            }
        }),
{
    let ghost reg = crate::value::pairs_view(registry@);
    let n = registry.len();
    let mut i: usize = 0;
    while i < n
        invariant
            n == registry@.len(),
            reg == crate::value::pairs_view(registry@),
            i <= n,
            forall|m: int| 0 <= m < i ==> (#[trigger] reg[m]).0 != name@,
        decreases n - i,
    {
        if crate::value::str_eq(registry[i].0.as_str(), name) {
            assert(reg[i as int].0 == name@);
            assert(crate::value::lookup_idx(reg, name@) == i as int) by {
                crate::value::lemma_lookup_idx(reg, name@);
            }
            return Some(&registry[i].1);
        }
        assert(reg[i as int].0 != name@);
        i += 1;
    }
    proof {
        crate::value::lemma_lookup_idx(reg, name@);
    }
    None
}

/// Inserts or replaces a named type definition: an already-declared name
/// keeps its place in iteration order, a new name goes to the end.
pub fn define(registry: &mut Vec<(String, TypeDTO)>, name: String, def: TypeDTO)
    ensures
        ({
            let old_reg = crate::value::pairs_view(old(registry)@);
            let reg = crate::value::pairs_view(final(registry)@);
            let i = crate::value::lookup_idx(old_reg, name@);
            if 0 <= i < old_reg.len() {
                reg == old_reg.update(i, (name@, def@))
            } else {
                reg == old_reg.push((name@, def@))
            }
        }),
{
    let ghost old_reg = crate::value::pairs_view(registry@);
    let n = registry.len();
    let mut i: usize = 0;
    while i < n
        invariant
            n == registry@.len(),
            *registry == *old(registry),
            old_reg == crate::value::pairs_view(registry@),
            i <= n,
            forall|m: int| 0 <= m < i ==> (#[trigger] old_reg[m]).0 != name@,
        decreases n - i,
    {
        if crate::value::str_eq(registry[i].0.as_str(), name.as_str()) {
            assert(old_reg[i as int].0 == name@);
            assert(crate::value::lookup_idx(old_reg, name@) == i as int) by {
                crate::value::lemma_lookup_idx(old_reg, name@);
            }
            registry.set(i, (name, def));
            proof {
                assert(registry@[i as int].0@ == name@ && registry@[i as int].1@ == def@);
                assert(crate::value::pairs_view(registry@) =~= old_reg.update(
                    i as int,
                    (name@, def@),
                ));
            }
            return ;
        }
        assert(old_reg[i as int].0 != name@);
        i += 1;
    }
    proof {
        crate::value::lemma_lookup_idx(old_reg, name@);
    }
    registry.push((name, def));
    proof {
        assert(registry@[registry@.len() - 1].0@ == name@ && registry@[registry@.len() - 1].1@
            == def@);
        assert(crate::value::pairs_view(registry@) =~= old_reg.push((name@, def@)));
    }
}

/// The declared type names, in registry order.
pub fn all_names(registry: &Vec<(String, TypeDTO)>) -> (r: Vec<String>)
    ensures
        r@.len() == registry@.len(),
        forall|i: int|
            0 <= i < r@.len() ==> (#[trigger] r@[i])@ == crate::value::pairs_view(registry@)[i].0,
{
    let n = registry.len();
    let mut names: Vec<String> = Vec::new();
    let mut i: usize = 0;
    while i < n
        invariant
            n == registry@.len(),
            i <= n,
            names@.len() == i,
            forall|m: int|
                0 <= m < i ==> (#[trigger] names@[m])@ == crate::value::pairs_view(registry@)[m].0,
        decreases n - i,
    {
        names.push(registry[i].0.clone());
        assert(crate::value::pairs_view(registry@)[i as int].0 == registry@[i as int].0@);
        i += 1;
    }
    names
}

} // verus!
