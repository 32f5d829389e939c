//! The signature extractor.
//!
//! For each method of an interface this module produces the three argument
//! lists the synthesizers splice into generated code: the declaration list
//! (`name: Type, ...`), the bare name list for call sites (`name, ...`), and
//! the self-qualified name list for call sites reached through a held value
//! (`self.name, ...`).  It also checks the one hard restriction on methods:
//! the receiver must be an immutable borrow of `self`.

use vstd::prelude::*;
use vstd::string::*;

use crate::iface::{GenError, MethodSpec, ParamSpec, Receiver};

verus! {

/// The views of a list of strings.
pub open spec fn strs(v: Seq<String>) -> Seq<Seq<char>> {
    v.map_values(|s: String| s@)
}

/// Viewing a list of strings commutes with appending one more.
pub proof fn lemma_strs_push(v: Seq<String>, x: String)
    ensures
        strs(v.push(x)) =~= strs(v).push(x@),
{
}

/// Per parameter, the declaration text `name: Type`.
pub open spec fn decl_texts(ps: Seq<ParamSpec>) -> Seq<Seq<char>> {
    ps.map_values(|p: ParamSpec| p.name@ + ": "@ + p.ty@)
}

/// Per parameter, the bare argument name.
pub open spec fn name_texts(ps: Seq<ParamSpec>) -> Seq<Seq<char>> {
    ps.map_values(|p: ParamSpec| p.name@)
}

/// Per parameter, the self-qualified argument name `self.name`.
pub open spec fn self_texts(ps: Seq<ParamSpec>) -> Seq<Seq<char>> {
    ps.map_values(|p: ParamSpec| "self."@ + p.name@)
}

/// The return type of a method as text, the unit type when it declares none.
pub open spec fn ret_text(m: MethodSpec) -> Seq<char> {
    match m.ret {
        Some(t) => t@,
        None => "()"@,
    }
}

/// The declaration list of a method's parameters: one string `name: Type`
/// per parameter.
pub fn decl_list(ps: &Vec<ParamSpec>) -> (r: Vec<String>)
    ensures
        strs(r@) =~= decl_texts(ps@),
{
    let mut r: Vec<String> = Vec::new();
    let mut k: usize = 0;
    while k < ps.len()
        invariant
            k <= ps@.len(),
            r@.len() == k,
            forall|i: int| 0 <= i < k ==> r@[i]@ == #[trigger] decl_texts(ps@)[i],
        decreases ps@.len() - k,
    {
        let mut s = ps[k].name.clone();
        s.append(": ");
        s.append(ps[k].ty.as_str());
        r.push(s);
        k += 1;
    }
    r
}

/// The bare argument-name list of a method's parameters.
pub fn name_list(ps: &Vec<ParamSpec>) -> (r: Vec<String>)
    ensures
        strs(r@) =~= name_texts(ps@),
{
    let mut r: Vec<String> = Vec::new();
    let mut k: usize = 0;
    while k < ps.len()
        invariant
            k <= ps@.len(),
            r@.len() == k,
            forall|i: int| 0 <= i < k ==> r@[i]@ == #[trigger] name_texts(ps@)[i],
        decreases ps@.len() - k,
    {
        r.push(ps[k].name.clone());
        k += 1;
    }
    r
}

/// The self-qualified argument list of a method's parameters.
pub fn self_list(ps: &Vec<ParamSpec>) -> (r: Vec<String>)
    ensures
        strs(r@) =~= self_texts(ps@),
{
    let mut r: Vec<String> = Vec::new();
    let mut k: usize = 0;
    while k < ps.len()
        invariant
            k <= ps@.len(),
            r@.len() == k,
            forall|i: int| 0 <= i < k ==> r@[i]@ == #[trigger] self_texts(ps@)[i],
        decreases ps@.len() - k,
    {
        let mut s = "self.".to_owned();
        s.append(ps[k].name.as_str());
        r.push(s);
        k += 1;
    }
    r
}

/// The return type of a method as text, the unit type when it declares none.
pub fn ret_or_unit(m: &MethodSpec) -> (r: String)
    ensures
        r@ == ret_text(*m),
{
    match &m.ret {
        Some(t) => t.clone(),
        None => "()".to_owned(),
    }
}

/// Whether every method takes its receiver as `&self`, the only supported
/// form; on failure, points at the first method that does not.
pub fn check_receivers(ms: &Vec<MethodSpec>) -> (r: Result<(), GenError>)
    ensures
        r is Ok <==> (forall|i: int|
            0 <= i < ms@.len() ==> (#[trigger] ms@[i].receiver) == Receiver::SharedBorrow),
        r matches Err(e) ==> {
            &&& e matches GenError::UnsupportedReceiver { method }
            &&& method < ms@.len()
            &&& ms@[method as int].receiver != Receiver::SharedBorrow
        },
{
    let mut k: usize = 0;
    while k < ms.len()
        invariant
            k <= ms@.len(),
            forall|i: int| 0 <= i < k ==> (#[trigger] ms@[i].receiver) == Receiver::SharedBorrow,
        decreases ms@.len() - k,
    {
        if !matches!(ms[k].receiver, Receiver::SharedBorrow) {
            return Err(GenError::UnsupportedReceiver { method: k });
        }
        k += 1;
    }
    Ok(())
}

} // verus!
