//! Pieces shared by the two synthesizers.
//!
//! Both generated interfaces restate the original interface's generic and
//! borrow-scope parameters and its bound predicates, extended with the
//! synthetic parameters of the generated machinery: `TraitType` (an element
//! satisfying the original interface), `NodeType` (a tail satisfying the
//! level interface), and the borrow-scope parameter `'zero_v` of the
//! reference an iterator holds.  Lifetimes always stand before type
//! parameters in a rendered parameter list.

use vstd::prelude::*;
use vstd::string::*;

use crate::extract::{lemma_strs_push, strs};
use crate::iface::InterfaceSpec;
use crate::names::level_trait_text;
use crate::text::{join, join_text};

verus! {

/// The concatenation of `parts`, nothing between neighbours.
pub open spec fn concat_texts(parts: Seq<Seq<char>>) -> Seq<char> {
    join_text(parts, Seq::empty())
}

/// Concatenates `parts`.
pub fn concat_all(parts: &Vec<String>) -> (r: String)
    ensures
        r@ == concat_texts(strs(parts@)),
{
    proof {
        reveal_strlit("");
        assert(""@ =~= Seq::<char>::empty());
    }
    join(parts, "")
}

/// A bracketed generic parameter list, empty text for no parameters.
pub open spec fn angle_text(parts: Seq<Seq<char>>) -> Seq<char> {
    if parts.len() == 0 {
        Seq::empty()
    } else {
        "<"@ + join_text(parts, ", "@) + ">"@
    }
}

/// Renders a bracketed generic parameter list, empty for no parameters.
pub fn angle(parts: &Vec<String>) -> (r: String)
    ensures
        r@ == angle_text(strs(parts@)),
{
    if parts.len() == 0 {
        String::new()
    } else {
        let mut s = "<".to_owned();
        let joined = join(parts, ", ");
        s.append(joined.as_str());
        s.append(">");
        s
    }
}

/// A where clause, empty text for no predicates.
pub open spec fn where_text(preds: Seq<Seq<char>>) -> Seq<char> {
    if preds.len() == 0 {
        Seq::empty()
    } else {
        " where "@ + join_text(preds, ", "@)
    }
}

/// Renders a where clause, empty for no predicates.
pub fn where_clause(preds: &Vec<String>) -> (r: String)
    ensures
        r@ == where_text(strs(preds@)),
{
    if preds.len() == 0 {
        String::new()
    } else {
        let mut s = " where ".to_owned();
        let joined = join(preds, ", ");
        s.append(joined.as_str());
        s
    }
}

/// Appends clones of `src`'s strings to `dst`.
pub fn extend_strings(dst: &mut Vec<String>, src: &Vec<String>)
    ensures
        strs(final(dst)@) =~= strs(old(dst)@) + strs(src@),
{
    let mut k: usize = 0;
    while k < src.len()
        invariant
            k <= src@.len(),
            dst@.len() == old(dst)@.len() + k,
            forall|i: int| 0 <= i < old(dst)@.len() ==> dst@[i] == old(dst)@[i],
            forall|i: int| 0 <= i < k ==> dst@[old(dst)@.len() + i] == src@[i],
        decreases src@.len() - k,
    {
        dst.push(src[k].clone());
        k += 1;
    }
}

/// The views of the interface's borrow-scope parameters.
pub open spec fn lt_views(iface: InterfaceSpec) -> Seq<Seq<char>> {
    strs(iface.lifetimes@)
}

/// The views of the interface's generic type parameters.
pub open spec fn tp_views(iface: InterfaceSpec) -> Seq<Seq<char>> {
    strs(iface.type_params@)
}

/// The views of the interface's bound predicates.
pub open spec fn pred_views(iface: InterfaceSpec) -> Seq<Seq<char>> {
    strs(iface.preds@)
}

/// The original interface's own parameter list: its lifetimes, then its type
/// parameters.
pub open spec fn ty_generic_views(iface: InterfaceSpec) -> Seq<Seq<char>> {
    lt_views(iface) + tp_views(iface)
}

/// The bound tying the synthetic element parameter to the original
/// interface.
pub open spec fn trait_type_pred_text(iface: InterfaceSpec) -> Seq<char> {
    "TraitType: "@ + iface.name@ + angle_text(ty_generic_views(iface))
}

/// The bound tying the synthetic tail parameter to the level interface.
pub open spec fn node_type_pred_text(iface: InterfaceSpec) -> Seq<char> {
    "NodeType: NextNode + "@ + level_trait_text(iface.name@) + angle_text(ty_generic_views(iface))
}

/// The predicates of the recursive level implementation: the original
/// bounds, then the element bound, then the tail bound.
pub open spec fn node_pred_views(iface: InterfaceSpec) -> Seq<Seq<char>> {
    pred_views(iface).push(trait_type_pred_text(iface)).push(node_type_pred_text(iface))
}

/// The predicates of the iteration machinery: the original bounds, then the
/// tail bound.
pub open spec fn iter_pred_views(iface: InterfaceSpec) -> Seq<Seq<char>> {
    pred_views(iface).push(node_type_pred_text(iface))
}

/// The generic parameters of the recursive level implementation.
pub open spec fn node_generic_views(iface: InterfaceSpec) -> Seq<Seq<char>> {
    lt_views(iface) + tp_views(iface).push("TraitType"@).push("NodeType"@)
}

/// The generic parameters of the iteration trait and its implementation.
pub open spec fn iter_generic_views(iface: InterfaceSpec) -> Seq<Seq<char>> {
    lt_views(iface) + tp_views(iface).push("NodeType"@)
}

/// The generic parameters declared on an iterator type: the original
/// lifetimes, the iterator's own borrow-scope parameter, the original type
/// parameters, and the tail parameter.
pub open spec fn iterator_decl_generic_views(iface: InterfaceSpec) -> Seq<Seq<char>> {
    lt_views(iface).push("'zero_v"@) + tp_views(iface).push("NodeType"@)
}

/// The generic arguments of an iterator type as referred to from the
/// iteration trait, where the held reference's borrow-scope is anonymous.
pub open spec fn iterator_ty_arg_views(iface: InterfaceSpec) -> Seq<Seq<char>> {
    lt_views(iface).push("'_"@) + tp_views(iface).push("NodeType"@)
}

/// Renders the original interface's own parameter list.
pub fn ty_generics(iface: &InterfaceSpec) -> (r: Vec<String>)
    ensures
        strs(r@) =~= ty_generic_views(*iface),
{
    let mut r: Vec<String> = Vec::new();
    extend_strings(&mut r, &iface.lifetimes);
    extend_strings(&mut r, &iface.type_params);
    r
}

/// Renders the element bound of the recursive level implementation.
pub fn trait_type_pred(iface: &InterfaceSpec) -> (r: String)
    ensures
        r@ == trait_type_pred_text(*iface),
{
    let mut s = "TraitType: ".to_owned();
    s.append(iface.name.as_str());
    let args = angle(&ty_generics(iface));
    s.append(args.as_str());
    s
}

/// Renders the tail bound of the generated machinery.
pub fn node_type_pred(iface: &InterfaceSpec) -> (r: String)
    ensures
        r@ == node_type_pred_text(*iface),
{
    let mut s = "NodeType: NextNode + ".to_owned();
    let name = crate::names::level_trait_name(iface.name.as_str());
    s.append(name.as_str());
    let args = angle(&ty_generics(iface));
    s.append(args.as_str());
    s
}

/// Renders the predicates of the recursive level implementation.
pub fn node_preds(iface: &InterfaceSpec) -> (r: Vec<String>)
    ensures
        strs(r@) =~= node_pred_views(*iface),
{
    let mut r: Vec<String> = Vec::new();
    extend_strings(&mut r, &iface.preds);
    r.push(trait_type_pred(iface));
    r.push(node_type_pred(iface));
    r
}

/// Renders the predicates of the iteration machinery.
pub fn iter_preds(iface: &InterfaceSpec) -> (r: Vec<String>)
    ensures
        strs(r@) =~= iter_pred_views(*iface),
{
    let mut r: Vec<String> = Vec::new();
    extend_strings(&mut r, &iface.preds);
    r.push(node_type_pred(iface));
    r
}

/// Renders the generic parameters of the recursive level implementation.
pub fn node_generics(iface: &InterfaceSpec) -> (r: Vec<String>)
    ensures
        strs(r@) =~= node_generic_views(*iface),
{
    let mut r = ty_generics(iface);
    let ghost r0 = r@;
    let x = "TraitType".to_owned();
    let ghost xv = x;
    r.push(x);
    let y = "NodeType".to_owned();
    let ghost yv = y;
    r.push(y);
    proof {
        lemma_strs_push(r0, xv);
        lemma_strs_push(r0.push(xv), yv);
        assert(strs(r@) =~= node_generic_views(*iface));
    }
    r
}

/// Renders the generic parameters of the iteration trait.
pub fn iter_generics(iface: &InterfaceSpec) -> (r: Vec<String>)
    ensures
        strs(r@) =~= iter_generic_views(*iface),
{
    let mut r = ty_generics(iface);
    let ghost r0 = r@;
    let x = "NodeType".to_owned();
    let ghost xv = x;
    r.push(x);
    proof {
        lemma_strs_push(r0, xv);
        assert(strs(r@) =~= iter_generic_views(*iface));
    }
    r
}

/// Renders the generic parameters declared on an iterator type.
pub fn iterator_decl_generics(iface: &InterfaceSpec) -> (r: Vec<String>)
    ensures
        strs(r@) =~= iterator_decl_generic_views(*iface),
{
    let mut r: Vec<String> = Vec::new();
    extend_strings(&mut r, &iface.lifetimes);
    let ghost r0 = r@;
    let x = "'zero_v".to_owned();
    let ghost xv = x;
    r.push(x);
    extend_strings(&mut r, &iface.type_params);
    let ghost r1 = r@;
    let y = "NodeType".to_owned();
    let ghost yv = y;
    r.push(y);
    proof {
        lemma_strs_push(r0, xv);
        lemma_strs_push(r1, yv);
        assert(strs(r@) =~= iterator_decl_generic_views(*iface));
    }
    r
}

/// Renders the generic arguments of an iterator type at its use sites.
pub fn iterator_ty_args(iface: &InterfaceSpec) -> (r: Vec<String>)
    ensures
        strs(r@) =~= iterator_ty_arg_views(*iface),
{
    let mut r: Vec<String> = Vec::new();
    extend_strings(&mut r, &iface.lifetimes);
    let ghost r0 = r@;
    let x = "'_".to_owned();
    let ghost xv = x;
    r.push(x);
    extend_strings(&mut r, &iface.type_params);
    let ghost r1 = r@;
    let y = "NodeType".to_owned();
    let ghost yv = y;
    r.push(y);
    proof {
        lemma_strs_push(r0, xv);
        lemma_strs_push(r1, yv);
        assert(strs(r@) =~= iterator_ty_arg_views(*iface));
    }
    r
}

/// The header of an implementation block: its generic parameters, the trait
/// reference, the implementing type, and the where clause.
pub open spec fn impl_header_text(
    generics: Seq<Seq<char>>,
    trait_ref: Seq<char>,
    for_ty: Seq<char>,
    preds: Seq<Seq<char>>,
) -> Seq<char> {
    "impl"@ + angle_text(generics) + " "@ + trait_ref + " for "@ + for_ty + where_text(preds)
        + " {\n"@
}

/// Renders the header of an implementation block.
pub fn impl_header(
    generics: &Vec<String>,
    trait_ref: &str,
    for_ty: &str,
    preds: &Vec<String>,
) -> (r: String)
    ensures
        r@ == impl_header_text(strs(generics@), trait_ref@, for_ty@, strs(preds@)),
{
    let mut s = "impl".to_owned();
    let g = angle(generics);
    s.append(g.as_str());
    s.append(" ");
    s.append(trait_ref);
    s.append(" for ");
    s.append(for_ty);
    let w = where_clause(preds);
    s.append(w.as_str());
    s.append(" {\n");
    s
}

/// The reference to the level trait with the original interface's own
/// parameters: the trait every tail of a collection must satisfy.
pub open spec fn level_trait_ref_text(iface: InterfaceSpec) -> Seq<char> {
    level_trait_text(iface.name@) + angle_text(ty_generic_views(iface))
}

/// Renders the reference to the level trait with the original interface's
/// own parameters.
pub fn level_trait_ref(iface: &InterfaceSpec) -> (r: String)
    ensures
        r@ == level_trait_ref_text(*iface),
{
    let mut s = crate::names::level_trait_name(iface.name.as_str());
    let args = angle(&ty_generics(iface));
    s.append(args.as_str());
    s
}

} // verus!
