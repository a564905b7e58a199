//! The dependency validator: walks the type registry's custom-type
//! references and rejects unknown references and circular inclusion
//! chains.
//!
//! The registry is scanned in order. For each declared type, the names its
//! fields reference are gathered, together with everything an
//! already-scanned referenced type was found to reach; a reference to a
//! type whose gathered set leads back to the current one closes a cycle
//! and is rejected. Detection is deliberately iteration-order-dependent:
//! when a cycle is reported, a cycle certainly exists (and the reported
//! pair really forms one), but which member of a cycle is named — and
//! whether a cycle whose members were all scanned before their reached
//! sets were complete is caught at all — depends on the registry order.
//! What is guaranteed unconditionally: a registry with every reference
//! known and an acyclic reference graph is always accepted, and a
//! rejection always names a real unknown reference or a real cycle.

use vstd::prelude::*;
use crate::error::ConfigError;
use crate::types::{Type, TypeDTO, TypeDefView, TypeView};
use crate::value::str_eq;

verus! {

/// The mathematical model of a type registry: its entries in order.
pub open spec fn registry_view(s: Seq<(String, TypeDTO)>) -> Seq<(Seq<char>, TypeDefView)> {
    Seq::new(
        s.len(),
        |i: int|
            if 0 <= i < s.len() {
                (s[i].0@, s[i].1@)
            } else {
                (Seq::<char>::empty(), TypeDefView { fields: Seq::empty() })
            },
    )
}

/// Whether some entry of the registry declares `name`.
pub open spec fn reg_contains(r: Seq<(Seq<char>, TypeDefView)>, name: Seq<char>) -> bool {
    exists|i: int| 0 <= i < r.len() && r[i].0 == name
}

/// Whether a type named `from` has a field named `field` referencing the
/// type named `to`.
pub open spec fn has_field_ref(
    r: Seq<(Seq<char>, TypeDefView)>,
    from: Seq<char>,
    field: Seq<char>,
    to: Seq<char>,
) -> bool {
    exists|i: int, j: int|
        0 <= i < r.len() && r[i].0 == from && 0 <= j < r[i].1.fields.len() && (#[trigger] r[i].1.fields[j])
            == (field, TypeView::Custom(to))
}

/// The dependency graph's edge relation: type `a` has some field of custom
/// type `b`.
pub open spec fn has_edge(r: Seq<(Seq<char>, TypeDefView)>, a: Seq<char>, b: Seq<char>) -> bool {
    exists|i: int, j: int|
        0 <= i < r.len() && r[i].0 == a && 0 <= j < r[i].1.fields.len() && (#[trigger] r[i].1.fields[j]).1
            == TypeView::Custom(b)
}

/// Whether consecutive names of `p` are all edges of the dependency graph.
pub open spec fn is_chain(r: Seq<(Seq<char>, TypeDefView)>, p: Seq<Seq<char>>) -> bool {
    forall|k: int| 0 <= k < p.len() - 1 ==> has_edge(r, #[trigger] p[k], p[k + 1])
}

/// Whether type `a` reaches type `b` through one or more edges.
pub open spec fn reaches(r: Seq<(Seq<char>, TypeDefView)>, a: Seq<char>, b: Seq<char>) -> bool {
    exists|p: Seq<Seq<char>>|
        p.len() >= 2 && p.first() == a && p.last() == b && #[trigger] is_chain(r, p)
}

/// Whether the dependency graph has no cycle.
pub open spec fn acyclic(r: Seq<(Seq<char>, TypeDefView)>) -> bool {
    forall|a: Seq<char>| !reaches(r, a, a)
}

/// Whether every custom reference of every entry resolves to a declared
/// type.
pub open spec fn refs_known(r: Seq<(Seq<char>, TypeDefView)>) -> bool {
    forall|i: int, j: int|
        0 <= i < r.len() && 0 <= j < r[i].1.fields.len() ==> ((#[trigger] r[i].1.fields[j]).1
            matches TypeView::Custom(u) ==> reg_contains(r, u))
}

/// An edge is a two-step chain.
proof fn lemma_edge_reaches(r: Seq<(Seq<char>, TypeDefView)>, a: Seq<char>, b: Seq<char>)
    requires
        has_edge(r, a, b),
    ensures
        reaches(r, a, b),
{
    let p = seq![a, b];
    assert(p.len() == 2 && p.first() == a && p.last() == b);
    assert(is_chain(r, p));
}

/// An edge prepended to a chain is a chain.
proof fn lemma_edge_then_reaches(
    r: Seq<(Seq<char>, TypeDefView)>,
    a: Seq<char>,
    b: Seq<char>,
    c: Seq<char>,
)
    requires
        has_edge(r, a, b),
        reaches(r, b, c),
    ensures
        reaches(r, a, c),
{
    let p = choose|p: Seq<Seq<char>>|
        p.len() >= 2 && p.first() == b && p.last() == c && #[trigger] is_chain(r, p);
    let q = seq![a] + p;
    assert(q.len() >= 2);
    assert(q.first() == a);
    assert(q.last() == c);
    assert forall|k: int| 0 <= k < q.len() - 1 implies has_edge(r, #[trigger] q[k], q[k + 1]) by {
        if k == 0 {
            assert(q[0] == a && q[1] == p[0]);
        } else {
            assert(q[k] == p[k - 1] && q[k + 1] == p[k]);
            assert(has_edge(r, p[k - 1], p[k]));
        }
    }
    assert(is_chain(r, q));
}

/// Whether some element of `v` reads `s`.
pub open spec fn seq_contains_str(v: Seq<String>, s: Seq<char>) -> bool {
    exists|i: int| 0 <= i < v.len() && (#[trigger] v[i])@ == s
}

/// Scans a string list for a name.
fn vec_contains_string(v: &Vec<String>, s: &String) -> (r: bool)
    ensures
        r == seq_contains_str(v@, s@),
{
    let n = v.len();
    let mut i: usize = 0;
    while i < n
        invariant
            n == v@.len(),
            i <= n,
            forall|m: int| 0 <= m < i ==> (#[trigger] v@[m])@ != s@,
        decreases n - i,
    {
        if str_eq(v[i].as_str(), s.as_str()) {
            assert(v@[i as int]@ == s@);
            return true;
        }
        i += 1;
    }
    false
}

/// Scans the registry for a declared type name.
fn registry_contains(types: &Vec<(String, TypeDTO)>, name: &String) -> (r: bool)
    ensures
        r == reg_contains(registry_view(types@), name@),
{
    let ghost reg = registry_view(types@);
    let n = types.len();
    let mut i: usize = 0;
    while i < n
        invariant
            n == types@.len(),
            reg == registry_view(types@),
            i <= n,
            forall|m: int| 0 <= m < i ==> reg[m].0 != name@,
        decreases n - i,
    {
        if str_eq(types[i].0.as_str(), name.as_str()) {
            assert(reg[i as int].0 == name@);
            return true;
        }
        assert(reg[i as int].0 != name@);
        i += 1;
    }
    false
}

/// Looks a name up in the memo of already-gathered reached sets.
fn memo_get<'a>(memo: &'a Vec<(String, Vec<String>)>, key: &String) -> (r: Option<
    &'a Vec<String>,
>)
    ensures
        match r {
            Some(s) => exists|i: int|
                0 <= i < memo@.len() && (#[trigger] memo@[i]).0@ == key@ && memo@[i].1 == *s,
            None => true,
        },
{
    let n = memo.len();
    let mut i: usize = 0;
    while i < n
        invariant
            n == memo@.len(),
            i <= n,
        decreases n - i,
    {
        if str_eq(memo[i].0.as_str(), key.as_str()) {
            assert((memo@[i as int]).0@ == key@);
            return Some(&memo[i].1);
        }
        i += 1;
    }
    None
}

/// Every name in every memoized set is reachable from the set's key.
spec fn memo_sound(r: Seq<(Seq<char>, TypeDefView)>, memo: Seq<(String, Vec<String>)>) -> bool {
    forall|i: int, j: int|
        0 <= i < memo.len() && 0 <= j < memo[i].1@.len() ==> reaches(
            r,
            memo[i].0@,
            ((#[trigger] memo[i].1@[j])@),
        )
}

/// Validates the custom-type reference graph of a type registry, given as
/// its entries in order.
///
/// Accepts every registry whose references all resolve and whose
/// dependency graph is acyclic. A rejection is always genuine: an
/// `UnknownTypeReference` names a field whose custom type is undeclared,
/// and a `CircularDependency { a, b }` names a real cycle (`b` references
/// `a` directly and `a` reaches `b`). Which member of a cycle is named —
/// and whether a cycle is caught at all — depends on the registry's
/// iteration order; acceptance therefore guarantees only that every
/// reference resolves.
pub fn validate_types(types: &Vec<(String, TypeDTO)>) -> (r: Result<(), ConfigError>)
    ensures
        ({
            let reg = registry_view(types@);
            &&& (r is Ok ==> refs_known(reg))
            &&& (refs_known(reg) && acyclic(reg) ==> r is Ok)
            &&& (match r {
                Ok(_) => true,
                Err(e) => match e@ {
                    crate::error::ConfigErrorView::UnknownTypeReference { from, field, to } => {
                        has_field_ref(reg, from, field, to) && !reg_contains(reg, to)
                    },
                    crate::error::ConfigErrorView::CircularDependency { a, b } => {
                        has_edge(reg, b, a) && reaches(reg, a, b) && !acyclic(reg)
                    },
                    _ => false,
                },
            })
        }),
{
    let ghost reg = registry_view(types@);
    let mut memo: Vec<(String, Vec<String>)> = Vec::new();
    let n = types.len();
    let mut i: usize = 0;
    while i < n
        invariant
            n == types@.len(),
            reg == registry_view(types@),
            i <= n,
            memo_sound(reg, memo@),
            forall|i2: int, j2: int|
                0 <= i2 < i && 0 <= j2 < reg[i2].1.fields.len() ==> ((
                #[trigger] reg[i2].1.fields[j2]).1 matches TypeView::Custom(u) ==> reg_contains(
                    reg,
                    u,
                )),
        decreases n - i,
    {
        let pair = &types[i];
        let key: &String = &pair.0;
        let dto: &TypeDTO = &pair.1;
        assert(reg[i as int].0 == key@ && reg[i as int].1 == dto@);
        let mut set: Vec<String> = Vec::new();
        let m = dto.fields.len();
        let mut j: usize = 0;
        while j < m
            invariant
                n == types@.len(),
                reg == registry_view(types@),
                i < n,
                m == dto.fields@.len(),
                j <= m,
                *pair == types@[i as int],
                key@ == reg[i as int].0,
                dto@ == reg[i as int].1,
                memo_sound(reg, memo@),
                forall|k: int| 0 <= k < set@.len() ==> reaches(reg, key@, (#[trigger] set@[k])@),
                forall|i2: int, j2: int|
                    0 <= i2 < i && 0 <= j2 < reg[i2].1.fields.len() ==> ((
                    #[trigger] reg[i2].1.fields[j2]).1 matches TypeView::Custom(u)
                        ==> reg_contains(reg, u)),
                forall|j2: int|
                    0 <= j2 < j ==> ((#[trigger] reg[i as int].1.fields[j2]).1 matches
                    TypeView::Custom(u) ==> reg_contains(reg, u)),
            decreases m - j,
        {
            let fpair = &dto.fields[j];
            assert(reg[i as int].1.fields[j as int] == (fpair.0@, fpair.1@));
            match &fpair.1 {
                Type::CUSTOM(value) => {
                    assert(reg[i as int].1.fields[j as int].1 == TypeView::Custom(value@));
                    if !registry_contains(types, value) {
                        assert(has_field_ref(reg, key@, fpair.0@, value@));
                        return Err(
                            ConfigError::UnknownTypeReference {
                                from: key.clone(),
                                field: fpair.0.clone(),
                                to: value.clone(),
                            },
                        );
                    }
                    assert(has_edge(reg, key@, value@));
                    if !vec_contains_string(&set, value) {
                        proof {
                            lemma_edge_reaches(reg, key@, value@);
                        }
                        set.push(value.clone());
                        let sub = memo_get(&memo, value);
                        if let Some(subset) = sub {
                            if vec_contains_string(subset, key) {
                                proof {
                                    let si = choose|si: int|
                                        0 <= si < subset@.len() && (#[trigger] subset@[si])@
                                            == key@;
                                    let mi = choose|mi: int|
                                        0 <= mi < memo@.len() && (#[trigger] memo@[mi]).0@
                                            == value@ && memo@[mi].1 == *subset;
                                    assert(reaches(reg, value@, key@));
                                    lemma_edge_then_reaches(reg, key@, value@, key@);
                                    assert(reaches(reg, key@, key@));
                                    assert(!acyclic(reg));
                                }
                                return Err(
                                    ConfigError::CircularDependency {
                                        a: value.clone(),
                                        b: key.clone(),
                                    },
                                );
                            }
                            let ghost mi = choose|mi: int|
                                0 <= mi < memo@.len() && (#[trigger] memo@[mi]).0@ == value@
                                    && memo@[mi].1 == *subset;
                            let sl = subset.len();
                            let mut t: usize = 0;
                            while t < sl
                                invariant
                                    sl == subset@.len(),
                                    t <= sl,
                                    reg == registry_view(types@),
                                    i < n,
                                    n == types@.len(),
                                    key@ == reg[i as int].0,
                                    has_edge(reg, key@, value@),
                                    0 <= mi < memo@.len() && (memo@[mi]).0@ == value@
                                        && memo@[mi].1 == *subset,
                                    memo_sound(reg, memo@),
                                    forall|k: int|
                                        0 <= k < set@.len() ==> reaches(
                                            reg,
                                            key@,
                                            (#[trigger] set@[k])@,
                                        ),
                                decreases sl - t,
                            {
                                proof {
                                    assert(memo@[mi].1@[t as int] == subset@[t as int]);
                                    assert(reaches(reg, value@, subset@[t as int]@));
                                    lemma_edge_then_reaches(
                                        reg,
                                        key@,
                                        value@,
                                        subset@[t as int]@,
                                    );
                                }
                                set.push(subset[t].clone());
                                t += 1;
                            }
                        }
                    }
                },
                _ => {},
            }
            assert((reg[i as int].1.fields[j as int]).1 matches TypeView::Custom(u)
                ==> reg_contains(reg, u));
            j += 1;
        }
        memo.push((key.clone(), set));
        i += 1;
    }
    assert(refs_known(reg));
    Ok(())
}

} // verus!
