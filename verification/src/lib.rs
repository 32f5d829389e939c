//! Zero-cost composition of objects behind a shared trait, together with the
//! code generator that produces the iteration boilerplate for such traits.
//!
//! A collection is a compile-time list of types: a chain of [`Node`] values
//! terminated by the unit type, wrapped in a [`Composite`].  Every method call
//! on an element resolves statically; no trait objects are involved.
//!
//! The generator half of the crate takes a structured description of a trait
//! ([`InterfaceSpec`]) and emits, as source text, the level-indexed execution
//! trait, its terminal and recursive implementations, the iteration trait and
//! one iterator type per method, restating the original trait's generic and
//! lifetime parameters.

mod augment;
mod composite;
mod emit;
mod extract;
mod iface;
mod level;
mod names;
mod nest;
mod semantics;
mod synth;
mod synth_iter;
mod synth_level;
mod text;

pub use augment::{augment_fn_generics, AugmentedGenerics};
pub use composite::{Composite, NextNode, Node};
pub use emit::{check_dangling, generate_trait_types};
pub use extract::{check_receivers, decl_list, name_list, ret_or_unit, self_list};
pub use iface::{parse_mode, GenError, GenMode, InterfaceSpec, MethodSpec, ParamSpec, Receiver};
pub use level::Level;
pub use names::{
    composite_iter_name, derive_names, iter_method_name, iter_trait_name, level_method_name,
    level_trait_name, GeneratedNames,
};
pub use nest::NestLevel;
pub use semantics::{
    lemma_empty_level_absent, lemma_iteration_idempotent, lemma_iteration_yields_all,
    lemma_level_result, lemma_manual_matches_sequence, value_at_level, ResultsCursor,
};
pub use text::{contains_token_str, join};
