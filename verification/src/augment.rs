//! The signature augmenter.
//!
//! A free function that wants to accept any collection of objects satisfying
//! an interface declares one parameter whose type is a placeholder name.
//! This transform consumes the derived names of the interface and adds to
//! the function's generics: a fresh tail parameter bound by the level
//! interface and the valid-tail capability, and the placeholder as a type
//! parameter bound by the iteration interface over that tail.  It is a
//! one-shot signature splice with no recursion: the caller replaces the
//! function's generic parameters and where clause with the augmented ones.

use vstd::prelude::*;
use vstd::string::*;

use crate::extract::{lemma_strs_push, strs};
use crate::names::{iter_trait_text, level_trait_text};
use crate::synth::{angle, angle_text, extend_strings};

verus! {

/// The generic parameters and bound predicates of the augmented function.
#[derive(Debug)]
pub struct AugmentedGenerics {
    /// The full parameter list: the function's own lifetimes, its own type
    /// parameters, then `NodeType` and the placeholder.
    pub params: Vec<String>,
    /// The full predicate list: the function's own predicates, then the
    /// tail bound and the placeholder bound.
    pub preds: Vec<String>,
}

/// The tail bound added to the function: the fresh tail parameter must be a
/// valid tail satisfying the level interface over the function's own
/// generics.
pub open spec fn fn_node_pred_text(
    lts: Seq<Seq<char>>,
    tps: Seq<Seq<char>>,
    trait_name: Seq<char>,
) -> Seq<char> {
    "NodeType: NextNode + "@ + level_trait_text(trait_name) + angle_text(lts + tps)
}

/// The placeholder bound added to the function: the placeholder must
/// satisfy the iteration interface over the function's own generics and the
/// fresh tail parameter.
pub open spec fn fn_placeholder_pred_text(
    lts: Seq<Seq<char>>,
    tps: Seq<Seq<char>>,
    trait_name: Seq<char>,
    placeholder: Seq<char>,
) -> Seq<char> {
    placeholder + ": "@ + iter_trait_text(trait_name) + angle_text(lts + tps + seq!["NodeType"@])
}

/// Augments a free function's generics so that its placeholder parameter
/// accepts any collection satisfying the interface.
pub fn augment_fn_generics(
    lifetimes: &Vec<String>,
    type_params: &Vec<String>,
    preds: &Vec<String>,
    trait_name: &str,
    placeholder: &str,
) -> (r: AugmentedGenerics)
    ensures
        strs(r.params@) == strs(lifetimes@) + strs(type_params@) + seq![
            "NodeType"@,
            placeholder@,
        ],
        strs(r.preds@) == strs(preds@).push(
            fn_node_pred_text(strs(lifetimes@), strs(type_params@), trait_name@),
        ).push(
            fn_placeholder_pred_text(
                strs(lifetimes@),
                strs(type_params@),
                trait_name@,
                placeholder@,
            ),
        ),
{
    let mut params: Vec<String> = Vec::new();
    extend_strings(&mut params, lifetimes);
    extend_strings(&mut params, type_params);
    let ghost p0 = params@;
    let x = "NodeType".to_owned();
    let ghost xv = x;
    params.push(x);
    let ghost p1 = params@;
    let y = placeholder.to_owned();
    let ghost yv = y;
    params.push(y);
    proof {
        lemma_strs_push(p0, xv);
        lemma_strs_push(p1, yv);
        assert(strs(params@) =~= strs(lifetimes@) + strs(type_params@) + seq![
            "NodeType"@,
            placeholder@,
        ]);
    }

    let mut own_generics: Vec<String> = Vec::new();
    extend_strings(&mut own_generics, lifetimes);
    extend_strings(&mut own_generics, type_params);
    let mut node_pred = "NodeType: NextNode + ".to_owned();
    let lt_name = crate::names::level_trait_name(trait_name);
    node_pred.append(lt_name.as_str());
    let own_args = angle(&own_generics);
    node_pred.append(own_args.as_str());
    proof {
        assert(node_pred@ =~= fn_node_pred_text(strs(lifetimes@), strs(type_params@),
            trait_name@));
    }

    let mut iter_args = own_generics;
    let ghost ia0 = iter_args@;
    let z = "NodeType".to_owned();
    let ghost zv = z;
    iter_args.push(z);
    proof {
        lemma_strs_push(ia0, zv);
        assert(strs(iter_args@) =~= strs(lifetimes@) + strs(type_params@) + seq!["NodeType"@]);
    }
    let mut ph_pred = placeholder.to_owned();
    ph_pred.append(": ");
    let it_name = crate::names::iter_trait_name(trait_name);
    ph_pred.append(it_name.as_str());
    let iter_args_text = angle(&iter_args);
    ph_pred.append(iter_args_text.as_str());
    proof {
        assert(ph_pred@ =~= fn_placeholder_pred_text(strs(lifetimes@), strs(type_params@),
            trait_name@, placeholder@));
    }

    let mut new_preds: Vec<String> = Vec::new();
    extend_strings(&mut new_preds, preds);
    let ghost q0 = new_preds@;
    let ghost npv = node_pred;
    new_preds.push(node_pred);
    let ghost q1 = new_preds@;
    let ghost ppv = ph_pred;
    new_preds.push(ph_pred);
    proof {
        lemma_strs_push(q0, npv);
        lemma_strs_push(q1, ppv);
        assert(strs(new_preds@) =~= strs(preds@).push(
            fn_node_pred_text(strs(lifetimes@), strs(type_params@), trait_name@),
        ).push(
            fn_placeholder_pred_text(
                strs(lifetimes@),
                strs(type_params@),
                trait_name@,
                placeholder@,
            ),
        ));
    }
    AugmentedGenerics { params, preds: new_preds }
}

} // verus!
