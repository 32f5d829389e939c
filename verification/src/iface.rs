//! The structured description of an interface, as the generator consumes it.
//!
//! An [`InterfaceSpec`] carries everything the generator reads from a trait
//! declaration: its name, its generic type parameters, its borrow-scope
//! (lifetime) parameters, its bound predicates, and its methods in order.
//! Type expressions are carried verbatim as text; the generator never
//! interprets them beyond searching for lifetime occurrences.

use vstd::prelude::*;
use vstd::string::*;

verus! {

/// Which transform the generator is asked to run.
#[derive(Clone, Copy, Debug, PartialEq, Eq, Structural)]
pub enum GenMode {
    /// Generate the level and iteration machinery for a trait declaration.
    TraitTypes,
    /// Augment a free function's generics for collection arguments.
    FnGenerics,
}

/// Selects the transform named by the attribute's first word; any other
/// word names no transform.
pub fn parse_mode(word: &str) -> (r: Option<GenMode>)
    ensures
        word@ == "trait_types"@ ==> r == Some(GenMode::TraitTypes),
        word@ == "fn_generics"@ ==> r == Some(GenMode::FnGenerics),
        r is Some ==> word@ == "trait_types"@ || word@ == "fn_generics"@,
{
    proof {
        reveal_strlit("trait_types");
        reveal_strlit("fn_generics");
        assert("trait_types"@[0] == 't');
        assert("fn_generics"@[0] == 'f');
    }
    let w = word.to_owned();
    if w.eq(&"trait_types".to_owned()) {
        Some(GenMode::TraitTypes)
    } else if w.eq(&"fn_generics".to_owned()) {
        Some(GenMode::FnGenerics)
    } else {
        None
    }
}

/// The receiver form of a trait method.
#[derive(Clone, Copy, Debug, PartialEq, Eq, Structural)]
pub enum Receiver {
    /// `&self` — the only form the generator supports.
    SharedBorrow,
    /// `&mut self`.
    UniqueBorrow,
    /// `self`, taken by value.
    ByValue,
    /// No receiver at all (an associated function).
    Absent,
}

/// One declared argument of a method, the receiver excluded.
#[derive(Debug)]
pub struct ParamSpec {
    /// The argument's name.
    pub name: String,
    /// The argument's type expression, verbatim.
    pub ty: String,
}

/// One method of the interface.
#[derive(Debug)]
pub struct MethodSpec {
    /// The method's name, unique within the interface.
    pub name: String,
    /// How the method takes its receiver.
    pub receiver: Receiver,
    /// The declared arguments, in order, the receiver excluded.
    pub params: Vec<ParamSpec>,
    /// The return type expression, or `None` when the method produces no
    /// value (treated as the unit type).
    pub ret: Option<String>,
}

/// The structured description of an interface declaration.
#[derive(Debug)]
pub struct InterfaceSpec {
    /// The interface's name.
    pub name: String,
    /// The borrow-scope parameters, each with its leading tick (`'a`).
    pub lifetimes: Vec<String>,
    /// The generic type parameters, in order.
    pub type_params: Vec<String>,
    /// The bound predicates, verbatim (`I: Copy`).
    pub preds: Vec<String>,
    /// The methods, in declaration order.
    pub methods: Vec<MethodSpec>,
}

/// A generation-time failure.  The generator has no runtime failure paths:
/// everything here is diagnosed before any code is emitted.
#[derive(Clone, Copy, Debug, PartialEq, Eq, Structural)]
pub enum GenError {
    /// The method at this index takes its receiver in a form other than
    /// `&self`.
    UnsupportedReceiver { method: usize },
    /// The derived names of the methods at these two indices coincide.
    NameCollision { first: usize, second: usize },
    /// The return type of the method at this index names a borrow-scope
    /// parameter that none of its arguments reaches.
    DanglingLifetime { method: usize },
    /// A name the generator would emit already exists at the emission scope;
    /// the index points into the caller's list of pre-existing identifiers.
    ScopeCollision { existing: usize },
}

} // verus!
