//! Derivation of every generated identifier.
//!
//! For an interface named `X` with a method named `m`, the generator emits:
//! the level trait `XAtLevel`, the iteration trait `IterX`, the level method
//! `m_at_level`, the iteration method `iter_m`, and the iterator type
//! `CompositeIteratorM` where `M` is the upper-camel form of `m`.  These five
//! forms are a stable contract: independent tooling splices against them.
//!
//! Derivation is a pure function of the interface and method names.  It fails
//! exactly when two methods of one interface derive the same identifier —
//! either because the method names coincide, or because their upper-camel
//! forms do.

use vstd::prelude::*;
use vstd::string::*;

use crate::iface::GenError;

verus! {

/// The upper-camel form of an identifier, as convert_case computes it.
pub uninterp spec fn upper_camel_of(s: Seq<char>) -> Seq<char>;

/// The name of the level trait derived from an interface name.
pub open spec fn level_trait_text(name: Seq<char>) -> Seq<char> {
    name + "AtLevel"@
}

/// The name of the iteration trait derived from an interface name.
pub open spec fn iter_trait_text(name: Seq<char>) -> Seq<char> {
    "Iter"@ + name
}

/// The name of the level method derived from a method name.
pub open spec fn level_method_text(m: Seq<char>) -> Seq<char> {
    m + "_at_level"@
}

/// The name of the iteration method derived from a method name.
pub open spec fn iter_method_text(m: Seq<char>) -> Seq<char> {
    "iter_"@ + m
}

/// The name of the iterator type derived from a method name.
pub open spec fn composite_iter_text(m: Seq<char>) -> Seq<char> {
    "CompositeIterator"@ + upper_camel_of(m)
}

/// Relies on convert_case's `Casing::to_case` toward `Case::UpperCamel`: the
/// result is a pure function of the characters of the input, splitting it at
/// its word boundaries, capitalising each word and joining them unseparated.
#[verifier::external_body]
fn to_upper_camel(s: &str) -> (r: String)
    ensures
        r@ == upper_camel_of(s@),
{
    convert_case::Casing::to_case(&s, convert_case::Case::UpperCamel)
}

/// Derives the level trait name: the interface name followed by `AtLevel`.
pub fn level_trait_name(main: &str) -> (r: String)
    ensures
        r@ == level_trait_text(main@),
{
    let mut s = main.to_owned();
    s.append("AtLevel");
    s
}

/// Derives the iteration trait name: `Iter` followed by the interface name.
pub fn iter_trait_name(main: &str) -> (r: String)
    ensures
        r@ == iter_trait_text(main@),
{
    let mut s = "Iter".to_owned();
    s.append(main);
    s
}

/// Derives the level method name: the method name followed by `_at_level`.
pub fn level_method_name(m: &str) -> (r: String)
    ensures
        r@ == level_method_text(m@),
{
    let mut s = m.to_owned();
    s.append("_at_level");
    s
}

/// Derives the iteration method name: `iter_` followed by the method name.
pub fn iter_method_name(m: &str) -> (r: String)
    ensures
        r@ == iter_method_text(m@),
{
    let mut s = "iter_".to_owned();
    s.append(m);
    s
}

/// Derives the iterator type name: `CompositeIterator` followed by the
/// upper-camel form of the method name.
pub fn composite_iter_name(m: &str) -> (r: String)
    ensures
        r@ == composite_iter_text(m@),
{
    let mut s = "CompositeIterator".to_owned();
    let camel = to_upper_camel(m);
    s.append(camel.as_str());
    s
}

/// Every identifier the generator derives for one interface.
#[derive(Debug)]
pub struct GeneratedNames {
    /// The level trait's name.
    pub level_trait: String,
    /// The iteration trait's name.
    pub iter_trait: String,
    /// Per method, the level method's name.
    pub level_methods: Vec<String>,
    /// Per method, the iteration method's name.
    pub iter_methods: Vec<String>,
    /// Per method, the iterator type's name.
    pub composite_iters: Vec<String>,
}

/// Whether the names derived from these method names are pairwise distinct
/// within each of the three per-method families.
pub open spec fn derived_names_distinct(methods: Seq<Seq<char>>) -> bool {
    forall|i: int, j: int|
        0 <= i < j < methods.len() ==> {
            &&& level_method_text(#[trigger] methods[i]) != level_method_text(#[trigger] methods[j])
            &&& iter_method_text(methods[i]) != iter_method_text(methods[j])
            &&& composite_iter_text(methods[i]) != composite_iter_text(methods[j])
        }
}

/// The first pair of equal entries, scanning pairs in lexicographic order of
/// their indices; `None` when all entries are pairwise distinct.
fn first_collision(xs: &Vec<String>) -> (r: Option<(usize, usize)>)
    ensures
        r is None ==> forall|a: int, b: int| 0 <= a < b < xs@.len() ==> xs@[a]@ != xs@[b]@,
        r matches Some(p) ==> p.0 < p.1 < xs@.len() && xs@[p.0 as int]@ == xs@[p.1 as int]@,
{
    let n = xs.len();
    let mut i: usize = 0;
    while i < n
        invariant
            i <= n,
            n == xs@.len(),
            forall|a: int, b: int| 0 <= a < b < n && a < i ==> xs@[a]@ != xs@[b]@,
        decreases n - i,
    {
        let mut j: usize = i + 1;
        while j < n
            invariant
                i < n,
                i + 1 <= j <= n,
                n == xs@.len(),
                forall|b: int| i < b < j ==> xs@[i as int]@ != xs@[b]@,
            decreases n - j,
        {
            if xs[i] == xs[j] {
                return Some((i, j));
            }
            j += 1;
        }
        i += 1;
    }
    None
}

/// Derives every generated identifier for an interface, rejecting the
/// derivation exactly when two methods derive a common name.
pub fn derive_names(main: &str, methods: &Vec<String>) -> (r: Result<GeneratedNames, GenError>)
    ensures
        r matches Ok(g) ==> {
            &&& g.level_trait@ == level_trait_text(main@)
            &&& g.iter_trait@ == iter_trait_text(main@)
            &&& g.level_methods@.len() == methods@.len()
            &&& g.iter_methods@.len() == methods@.len()
            &&& g.composite_iters@.len() == methods@.len()
            &&& forall|i: int|
                0 <= i < methods@.len() ==> g.level_methods@[i]@ == level_method_text(
                    #[trigger] methods@[i]@,
                )
            &&& forall|i: int|
                0 <= i < methods@.len() ==> g.iter_methods@[i]@ == iter_method_text(
                    #[trigger] methods@[i]@,
                )
            &&& forall|i: int|
                0 <= i < methods@.len() ==> g.composite_iters@[i]@ == composite_iter_text(
                    #[trigger] methods@[i]@,
                )
        },
        r is Ok <==> derived_names_distinct(methods@.map_values(|m: String| m@)),
        r matches Err(e) ==> {
            &&& e matches GenError::NameCollision { first, second }
            &&& first < second < methods@.len()
        },
{
    let n = methods.len();
    let mut level_methods: Vec<String> = Vec::new();
    let mut iter_methods: Vec<String> = Vec::new();
    let mut composite_iters: Vec<String> = Vec::new();
    let mut k: usize = 0;
    while k < n
        invariant
            k <= n,
            n == methods@.len(),
            level_methods@.len() == k,
            iter_methods@.len() == k,
            composite_iters@.len() == k,
            forall|i: int|
                0 <= i < k ==> level_methods@[i]@ == level_method_text(#[trigger] methods@[i]@),
            forall|i: int|
                0 <= i < k ==> iter_methods@[i]@ == iter_method_text(#[trigger] methods@[i]@),
            forall|i: int|
                0 <= i < k ==> composite_iters@[i]@ == composite_iter_text(
                    #[trigger] methods@[i]@,
                ),
        decreases n - k,
    {
        level_methods.push(level_method_name(methods[k].as_str()));
        iter_methods.push(iter_method_name(methods[k].as_str()));
        composite_iters.push(composite_iter_name(methods[k].as_str()));
        k += 1;
    }
    let ghost views = methods@.map_values(|m: String| m@);
    if let Some((a, b)) = first_collision(&level_methods) {
        proof {
            assert(!derived_names_distinct(views)) by {
                assert(level_method_text(views[a as int]) == level_method_text(views[b as int]));
            }
        }
        return Err(GenError::NameCollision { first: a, second: b });
    }
    if let Some((a, b)) = first_collision(&iter_methods) {
        proof {
            assert(!derived_names_distinct(views)) by {
                assert(iter_method_text(views[a as int]) == iter_method_text(views[b as int]));
            }
        }
        return Err(GenError::NameCollision { first: a, second: b });
    }
    if let Some((a, b)) = first_collision(&composite_iters) {
        proof {
            assert(!derived_names_distinct(views)) by {
                assert(composite_iter_text(views[a as int]) == composite_iter_text(
                    views[b as int],
                ));
            }
        }
        return Err(GenError::NameCollision { first: a, second: b });
    }
    proof {
        assert(derived_names_distinct(views)) by {
            assert forall|i: int, j: int| 0 <= i < j < views.len() implies {
                &&& level_method_text(#[trigger] views[i]) != level_method_text(
                    #[trigger] views[j],
                )
                &&& iter_method_text(views[i]) != iter_method_text(views[j])
                &&& composite_iter_text(views[i]) != composite_iter_text(views[j])
            } by {
                assert(level_methods@[i]@ != level_methods@[j]@);
                assert(iter_methods@[i]@ != iter_methods@[j]@);
                assert(composite_iters@[i]@ != composite_iters@[j]@);
            }
        }
    }
    Ok(
        GeneratedNames {
            level_trait: level_trait_name(main),
            iter_trait: iter_trait_name(main),
            level_methods,
            iter_methods,
            composite_iters,
        },
    )
}

} // verus!
