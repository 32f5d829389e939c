//! The generator's entry point.
//!
//! `generate_trait_types` checks the interface description — receiver forms,
//! derived-name collisions, return types whose borrow-scope parameter no
//! argument reaches, and clashes with identifiers already present at the
//! emission scope — and, when all four checks pass, emits the original
//! declaration followed by the level interface, its two implementations, the
//! iteration interface, and one iterator type per method, as source text.
//! Generation never fails at runtime of the generated code: every failure is
//! one of these four generation-time diagnostics.

use vstd::prelude::*;
use vstd::string::*;

use crate::extract::{check_receivers, ret_or_unit, ret_text, strs};
use crate::iface::{GenError, InterfaceSpec, MethodSpec, Receiver};
use crate::names::{composite_iter_text, derive_names, derived_names_distinct, iter_trait_text,
    level_trait_text, GeneratedNames};
use crate::synth_iter::{all_iterators, all_iterators_text, iter_composite_impl,
    iter_composite_impl_text, iter_trait_decl, iter_trait_decl_text};
use crate::synth_level::{level_empty_impl, level_empty_impl_text, level_node_impl,
    level_node_impl_text, level_trait_decl, level_trait_decl_text};
use crate::text::{contains_token, contains_token_str};

verus! {

/// Whether the interface's borrow-scope parameters are all written as
/// nonempty text — true of any parameter list a parser can produce.
pub open spec fn lifetimes_wf(iface: InterfaceSpec) -> bool {
    forall|k: int|
        0 <= k < iface.lifetimes@.len() ==> (#[trigger] iface.lifetimes@[k]@).len() > 0
}

/// Whether every method takes its receiver as `&self`.
pub open spec fn receivers_ok(iface: InterfaceSpec) -> bool {
    forall|i: int|
        0 <= i < iface.methods@.len() ==> (#[trigger] iface.methods@[i].receiver)
            == Receiver::SharedBorrow
}

/// Whether the names derived from the interface's method names are pairwise
/// distinct.
pub open spec fn names_distinct(iface: InterfaceSpec) -> bool {
    derived_names_distinct(iface.methods@.map_values(|m: MethodSpec| m.name@))
}

/// Whether some argument of the method mentions the borrow-scope parameter.
pub open spec fn lt_reachable_from_args(m: MethodSpec, lt: Seq<char>) -> bool {
    exists|j: int| 0 <= j < m.params@.len() && contains_token(#[trigger] m.params@[j].ty@, lt)
}

/// Whether the method's return type mentions a borrow-scope parameter that
/// none of its arguments reaches: such a signature would dangle.
pub open spec fn method_dangles(m: MethodSpec, lt: Seq<char>) -> bool {
    contains_token(ret_text(m), lt) && !lt_reachable_from_args(m, lt)
}

/// Whether the method dangles on any of the interface's borrow-scope
/// parameters.
pub open spec fn method_dangles_any(iface: InterfaceSpec, m: MethodSpec) -> bool {
    exists|k: int|
        0 <= k < iface.lifetimes@.len() && method_dangles(m, (#[trigger] iface.lifetimes@[k])@)
}

/// Whether no method's return type dangles.
pub open spec fn no_dangling(iface: InterfaceSpec) -> bool {
    forall|i: int|
        0 <= i < iface.methods@.len() ==> !method_dangles_any(iface, #[trigger] iface.methods@[i])
}

/// Whether the generator would emit a declaration of this name at the
/// emission scope.
pub open spec fn emits_name(iface: InterfaceSpec, x: Seq<char>) -> bool {
    ||| level_trait_text(iface.name@) == x
    ||| iter_trait_text(iface.name@) == x
    ||| exists|j: int|
        0 <= j < iface.methods@.len() && composite_iter_text(
            (#[trigger] iface.methods@[j]).name@,
        ) == x
}

/// Whether none of the identifiers already present at the emission scope
/// collides with a declaration the generator would emit.
pub open spec fn scope_clear(iface: InterfaceSpec, scope: Seq<Seq<char>>) -> bool {
    forall|i: int| 0 <= i < scope.len() ==> !emits_name(iface, #[trigger] scope[i])
}

/// Whether generation succeeds: supported receivers, distinct derived names,
/// no dangling return type, and a clear emission scope.
pub open spec fn gen_ok(iface: InterfaceSpec, scope: Seq<Seq<char>>) -> bool {
    &&& receivers_ok(iface)
    &&& names_distinct(iface)
    &&& no_dangling(iface)
    &&& scope_clear(iface, scope)
}

/// The support imports emitted ahead of the generated declarations.
pub open spec fn prelude_text() -> Seq<char> {
    "use zero_v::{Composite, NextNode, Node};\nuse std::marker::PhantomData;\n"@
}

/// Everything the generator emits: the original declaration unchanged, the
/// support imports, the level interface with its terminal and recursive
/// implementations, the iteration interface with its implementation for the
/// composite, and every method's iterator items.
pub open spec fn emission_text(iface: InterfaceSpec, original: Seq<char>) -> Seq<char> {
    original + "\n"@ + prelude_text() + level_trait_decl_text(iface) + level_empty_impl_text(iface)
        + level_node_impl_text(iface) + iter_trait_decl_text(iface) + iter_composite_impl_text(
        iface,
    ) + all_iterators_text(iface)
}

/// Whether any argument of the method mentions the borrow-scope parameter.
fn lt_in_args(m: &MethodSpec, lt: &String) -> (r: bool)
    requires
        lt@.len() > 0,
    ensures
        r == lt_reachable_from_args(*m, lt@),
{
    let mut j: usize = 0;
    while j < m.params.len()
        invariant
            j <= m.params@.len(),
            lt@.len() > 0,
            forall|a: int| 0 <= a < j ==> !contains_token(#[trigger] m.params@[a].ty@, lt@),
        decreases m.params@.len() - j,
    {
        if contains_token_str(m.params[j].ty.as_str(), lt.as_str()) {
            return true;
        }
        j += 1;
    }
    false
}

/// Checks that no method's return type names a borrow-scope parameter that
/// its arguments do not reach; on failure, points at the first method that
/// does.
pub fn check_dangling(iface: &InterfaceSpec) -> (r: Result<(), GenError>)
    requires
        lifetimes_wf(*iface),
    ensures
        r is Ok <==> no_dangling(*iface),
        r matches Err(e) ==> {
            &&& e matches GenError::DanglingLifetime { method }
            &&& method < iface.methods@.len()
            &&& method_dangles_any(*iface, iface.methods@[method as int])
        },
{
    let mut i: usize = 0;
    while i < iface.methods.len()
        invariant
            i <= iface.methods@.len(),
            lifetimes_wf(*iface),
            forall|a: int|
                0 <= a < i ==> !method_dangles_any(*iface, #[trigger] iface.methods@[a]),
        decreases iface.methods@.len() - i,
    {
        let m = &iface.methods[i];
        let ret = ret_or_unit(m);
        let mut k: usize = 0;
        while k < iface.lifetimes.len()
            invariant
                k <= iface.lifetimes@.len(),
                lifetimes_wf(*iface),
                ret@ == ret_text(*m),
                m == &iface.methods@[i as int],
                0 <= i < iface.methods@.len(),
                forall|a: int|
                    0 <= a < k ==> !method_dangles(iface.methods@[i as int], (
                    #[trigger] iface.lifetimes@[a])@),
            decreases iface.lifetimes@.len() - k,
        {
            let lt = &iface.lifetimes[k];
            if contains_token_str(ret.as_str(), lt.as_str()) && !lt_in_args(m, lt) {
                proof {
                    assert(method_dangles_any(*iface, iface.methods@[i as int])) by {
                        assert(method_dangles(iface.methods@[i as int], iface.lifetimes@[
                            k as int]@));
                    }
                }
                return Err(GenError::DanglingLifetime { method: i });
            }
            k += 1;
        }
        proof {
            assert(!method_dangles_any(*iface, iface.methods@[i as int]));
        }
        i += 1;
    }
    Ok(())
}

/// Whether one of the derived declaration names equals this identifier.
fn names_contain(g: &GeneratedNames, x: &String) -> (r: bool)
    ensures
        r == {
            ||| g.level_trait@ == x@
            ||| g.iter_trait@ == x@
            ||| exists|j: int|
                0 <= j < g.composite_iters@.len() && (#[trigger] g.composite_iters@[j]@) == x@
        },
{
    if g.level_trait.eq(x) || g.iter_trait.eq(x) {
        return true;
    }
    let mut j: usize = 0;
    while j < g.composite_iters.len()
        invariant
            j <= g.composite_iters@.len(),
            forall|a: int| 0 <= a < j ==> (#[trigger] g.composite_iters@[a]@) != x@,
        decreases g.composite_iters@.len() - j,
    {
        if g.composite_iters[j].eq(x) {
            return true;
        }
        j += 1;
    }
    false
}

/// The first identifier of the emission scope that one of the derived
/// declaration names collides with, `None` when the scope is clear.
fn scope_collision(g: &GeneratedNames, scope: &Vec<String>) -> (r: Option<usize>)
    ensures
        r is None ==> forall|i: int|
            0 <= i < scope@.len() ==> {
                &&& g.level_trait@ != (#[trigger] scope@[i])@
                &&& g.iter_trait@ != scope@[i]@
                &&& forall|j: int|
                    0 <= j < g.composite_iters@.len() ==> (#[trigger] g.composite_iters@[j]@)
                        != scope@[i]@
            },
        r matches Some(k) ==> k < scope@.len() && {
            ||| g.level_trait@ == scope@[k as int]@
            ||| g.iter_trait@ == scope@[k as int]@
            ||| exists|j: int|
                0 <= j < g.composite_iters@.len() && (#[trigger] g.composite_iters@[j]@)
                    == scope@[k as int]@
        },
{
    let mut i: usize = 0;
    while i < scope.len()
        invariant
            i <= scope@.len(),
            forall|a: int|
                0 <= a < i ==> {
                    &&& g.level_trait@ != (#[trigger] scope@[a])@
                    &&& g.iter_trait@ != scope@[a]@
                    &&& forall|j: int|
                        0 <= j < g.composite_iters@.len() ==> (#[trigger] g.composite_iters@[j]@)
                            != scope@[a]@
                },
        decreases scope@.len() - i,
    {
        if names_contain(g, &scope[i]) {
            return Some(i);
        }
        i += 1;
    }
    None
}

/// The method names of the interface, in order.
fn method_names(iface: &InterfaceSpec) -> (r: Vec<String>)
    ensures
        r@.len() == iface.methods@.len(),
        forall|i: int| 0 <= i < r@.len() ==> (#[trigger] r@[i]@) == iface.methods@[i].name@,
{
    let mut r: Vec<String> = Vec::new();
    let mut k: usize = 0;
    while k < iface.methods.len()
        invariant
            k <= iface.methods@.len(),
            r@.len() == k,
            forall|i: int| 0 <= i < k ==> (#[trigger] r@[i]@) == iface.methods@[i].name@,
        decreases iface.methods@.len() - k,
    {
        r.push(iface.methods[k].name.clone());
        k += 1;
    }
    r
}

/// Checks the interface description and, when generation is possible, emits
/// the original declaration followed by every generated item, as source
/// text.  `original` is the original declaration's text, passed through
/// unchanged; `scope` lists the identifiers already declared at the emission
/// scope.
pub fn generate_trait_types(iface: &InterfaceSpec, original: &str, scope: &Vec<String>) -> (r:
    Result<String, GenError>)
    requires
        lifetimes_wf(*iface),
    ensures
        r is Ok <==> gen_ok(*iface, strs(scope@)),
        r matches Ok(out) ==> out@ == emission_text(*iface, original@),
        r matches Err(e) ==> match e {
            GenError::UnsupportedReceiver { method } => {
                &&& method < iface.methods@.len()
                &&& iface.methods@[method as int].receiver != Receiver::SharedBorrow
            },
            GenError::NameCollision { first, second } => {
                &&& first < second < iface.methods@.len()
                &&& !names_distinct(*iface)
            },
            GenError::DanglingLifetime { method } => {
                &&& method < iface.methods@.len()
                &&& method_dangles_any(*iface, iface.methods@[method as int])
            },
            GenError::ScopeCollision { existing } => {
                &&& existing < scope@.len()
                &&& emits_name(*iface, scope@[existing as int]@)
            },
        },
{
    if let Err(e) = check_receivers(&iface.methods) {
        return Err(e);
    }
    let names = method_names(iface);
    proof {
        assert(strs(names@) =~= iface.methods@.map_values(|m: MethodSpec| m.name@));
    }
    let g = match derive_names(iface.name.as_str(), &names) {
        Ok(g) => g,
        Err(e) => {
            return Err(e);
        },
    };
    if let Err(e) = check_dangling(iface) {
        return Err(e);
    }
    if let Some(k) = scope_collision(&g, scope) {
        proof {
            if g.level_trait@ == scope@[k as int]@ {
            } else if g.iter_trait@ == scope@[k as int]@ {
            } else {
                let j = choose|j: int|
                    0 <= j < g.composite_iters@.len() && (#[trigger] g.composite_iters@[j]@)
                        == scope@[k as int]@;
                assert(g.composite_iters@[j]@ == composite_iter_text(names@[j]@));
                assert(names@[j]@ == iface.methods@[j].name@);
                assert(composite_iter_text(iface.methods@[j].name@) == scope@[k as int]@);
            }
            assert(emits_name(*iface, scope@[k as int]@));
            assert(!scope_clear(*iface, strs(scope@))) by {
                assert(strs(scope@)[k as int] == scope@[k as int]@);
            }
        }
        return Err(GenError::ScopeCollision { existing: k });
    }
    proof {
        assert(scope_clear(*iface, strs(scope@))) by {
            assert forall|i: int| 0 <= i < scope@.len() implies !emits_name(
                *iface,
                #[trigger] strs(scope@)[i],
            ) by {
                assert(strs(scope@)[i] == scope@[i]@);
                assert forall|j: int| 0 <= j < iface.methods@.len() implies composite_iter_text(
                    (#[trigger] iface.methods@[j]).name@,
                ) != scope@[i]@ by {
                    assert(g.composite_iters@[j]@ == composite_iter_text(names@[j]@));
                    assert(names@[j]@ == iface.methods@[j].name@);
                }
            }
        }
    }
    let mut s = original.to_owned();
    s.append("\n");
    s.append("use zero_v::{Composite, NextNode, Node};\nuse std::marker::PhantomData;\n");
    let p1 = level_trait_decl(iface);
    s.append(p1.as_str());
    let p2 = level_empty_impl(iface);
    s.append(p2.as_str());
    let p3 = level_node_impl(iface);
    s.append(p3.as_str());
    let p4 = iter_trait_decl(iface);
    s.append(p4.as_str());
    let p5 = iter_composite_impl(iface);
    s.append(p5.as_str());
    let p6 = all_iterators(iface);
    s.append(p6.as_str());
    proof {
        assert(s@ =~= emission_text(*iface, original@));
    }
    Ok(s)
}

} // verus!
