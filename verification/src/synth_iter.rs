//! The iteration synthesizer.
//!
//! For each method of the interface it emits an iteration method on the
//! collection returning a concrete iterator type, and that iterator type
//! itself: a structure holding the current level, a copy of the method's
//! arguments captured at construction, and a borrowed reference to the
//! collection's head node.  Advancing the iterator asks the level interface
//! for the result at the current level, unconditionally steps the level, and
//! hands the optional result on, so the sequence ends exactly at the
//! collection's depth.
//!
//! The iterator type restates every generic parameter and bound of the
//! original interface, plus one borrow-scope parameter for the held
//! reference; type parameters that end up in no stored field are still
//! declared and carried as zero-sized marker fields, keeping the parameter
//! arity of the iteration trait and the iterator type in step.

use vstd::prelude::*;
use vstd::string::*;

use crate::extract::{decl_list, decl_texts, lemma_strs_push, name_list, name_texts, ret_or_unit,
    ret_text, self_list, self_texts, strs};
use crate::iface::{InterfaceSpec, MethodSpec, ParamSpec};
use crate::names::{composite_iter_name, composite_iter_text, iter_method_name, iter_method_text,
    iter_trait_name, iter_trait_text, level_method_name, level_method_text};
use crate::synth::{angle, angle_text, concat_all, concat_texts, extend_strings, impl_header,
    impl_header_text, iter_generics, iter_generic_views, iter_preds, iter_pred_views,
    iterator_decl_generics, iterator_decl_generic_views, iterator_ty_args, iterator_ty_arg_views,
    where_clause, where_text};
use crate::text::{join, join_text};

verus! {

/// The signature of an iteration method: the original arguments, returning
/// the method's iterator type over an anonymously borrowed head node.
pub open spec fn iter_sig_text(iface: InterfaceSpec, m: MethodSpec) -> Seq<char> {
    "fn "@ + iter_method_text(m.name@) + "("@ + join_text(
        seq!["&self"@] + decl_texts(m.params@),
        ", "@,
    ) + ") -> "@ + composite_iter_text(m.name@) + angle_text(iterator_ty_arg_views(iface))
}

/// Renders the signature of an iteration method.
pub fn iter_sig(iface: &InterfaceSpec, m: &MethodSpec) -> (r: String)
    ensures
        r@ == iter_sig_text(*iface, *m),
{
    let mut parts: Vec<String> = Vec::new();
    let x = "&self".to_owned();
    let ghost xv = x;
    parts.push(x);
    let decls = decl_list(&m.params);
    extend_strings(&mut parts, &decls);
    proof {
        lemma_strs_push(Seq::empty(), xv);
        assert(strs(parts@) =~= seq!["&self"@] + decl_texts(m.params@));
    }
    let args = join(&parts, ", ");
    let mut s = "fn ".to_owned();
    let n = iter_method_name(m.name.as_str());
    s.append(n.as_str());
    s.append("(");
    s.append(args.as_str());
    s.append(") -> ");
    let c = composite_iter_name(m.name.as_str());
    s.append(c.as_str());
    let g = angle(&iterator_ty_args(iface));
    s.append(g.as_str());
    proof {
        assert(s@ =~= iter_sig_text(*iface, *m));
    }
    s
}

/// One method line of the iteration trait declaration.
pub open spec fn iter_decl_line_text(iface: InterfaceSpec, m: MethodSpec) -> Seq<char> {
    "    "@ + iter_sig_text(iface, m) + ";\n"@
}

/// One method of the collection's implementation: construct a fresh iterator
/// over the borrowed head node with the given arguments.
pub open spec fn iter_composite_line_text(iface: InterfaceSpec, m: MethodSpec) -> Seq<char> {
    "    "@ + iter_sig_text(iface, m) + " {\n        "@ + composite_iter_text(m.name@) + "::new("@
        + join_text(seq!["&self.head"@] + name_texts(m.params@), ", "@)
        + ")\n    }\n"@
}

/// The declaration of the iteration trait.
pub open spec fn iter_trait_decl_text(iface: InterfaceSpec) -> Seq<char> {
    "trait "@ + iter_trait_text(iface.name@) + angle_text(iter_generic_views(iface)) + where_text(
        iter_pred_views(iface),
    ) + " {\n"@ + concat_texts(
        iface.methods@.map_values(|m: MethodSpec| iter_decl_line_text(iface, m)),
    ) + "}\n"@
}

/// The implementation of the iteration trait for a composite over a valid
/// tail satisfying the level interface.
pub open spec fn iter_composite_impl_text(iface: InterfaceSpec) -> Seq<char> {
    impl_header_text(
        iter_generic_views(iface),
        iter_trait_text(iface.name@) + angle_text(iter_generic_views(iface)),
        "Composite<NodeType>"@,
        iter_pred_views(iface),
    ) + concat_texts(iface.methods@.map_values(|m: MethodSpec| iter_composite_line_text(iface, m)))
        + "}\n"@
}

/// Renders the declaration of the iteration trait.
pub fn iter_trait_decl(iface: &InterfaceSpec) -> (r: String)
    ensures
        r@ == iter_trait_decl_text(*iface),
{
    let mut lines: Vec<String> = Vec::new();
    let mut k: usize = 0;
    while k < iface.methods.len()
        invariant
            k <= iface.methods@.len(),
            lines@.len() == k,
            forall|i: int|
                0 <= i < k ==> (#[trigger] lines@[i]@) == iter_decl_line_text(
                    *iface,
                    iface.methods@[i],
                ),
        decreases iface.methods@.len() - k,
    {
        let mut line = "    ".to_owned();
        let sig = iter_sig(iface, &iface.methods[k]);
        line.append(sig.as_str());
        line.append(";\n");
        lines.push(line);
        k += 1;
    }
    proof {
        assert(strs(lines@) =~= iface.methods@.map_values(
            |m: MethodSpec| iter_decl_line_text(*iface, m),
        ));
    }
    let body = concat_all(&lines);
    let mut s = "trait ".to_owned();
    let n = iter_trait_name(iface.name.as_str());
    s.append(n.as_str());
    let g = angle(&iter_generics(iface));
    s.append(g.as_str());
    let w = where_clause(&iter_preds(iface));
    s.append(w.as_str());
    s.append(" {\n");
    s.append(body.as_str());
    s.append("}\n");
    proof {
        assert(s@ =~= iter_trait_decl_text(*iface));
    }
    s
}

/// Renders the implementation of the iteration trait for the composite.
pub fn iter_composite_impl(iface: &InterfaceSpec) -> (r: String)
    ensures
        r@ == iter_composite_impl_text(*iface),
{
    let mut lines: Vec<String> = Vec::new();
    let mut k: usize = 0;
    while k < iface.methods.len()
        invariant
            k <= iface.methods@.len(),
            lines@.len() == k,
            forall|i: int|
                0 <= i < k ==> (#[trigger] lines@[i]@) == iter_composite_line_text(
                    *iface,
                    iface.methods@[i],
                ),
        decreases iface.methods@.len() - k,
    {
        let m = &iface.methods[k];
        let mut parts: Vec<String> = Vec::new();
        let x = "&self.head".to_owned();
        let ghost xv = x;
        parts.push(x);
        let nl = name_list(&m.params);
        extend_strings(&mut parts, &nl);
        proof {
            lemma_strs_push(Seq::empty(), xv);
            assert(strs(parts@) =~= seq!["&self.head"@] + name_texts(m.params@));
        }
        let args = join(&parts, ", ");
        let mut line = "    ".to_owned();
        let sig = iter_sig(iface, m);
        line.append(sig.as_str());
        line.append(" {\n        ");
        let c = composite_iter_name(m.name.as_str());
        line.append(c.as_str());
        line.append("::new(");
        line.append(args.as_str());
        line.append(")\n    }\n");
        proof {
            assert(line@ =~= iter_composite_line_text(*iface, iface.methods@[k as int]));
        }
        lines.push(line);
        k += 1;
    }
    proof {
        assert(strs(lines@) =~= iface.methods@.map_values(
            |m: MethodSpec| iter_composite_line_text(*iface, m),
        ));
    }
    let body = concat_all(&lines);
    let tn = iter_trait_name(iface.name.as_str());
    let mut tref = tn;
    let g = angle(&iter_generics(iface));
    tref.append(g.as_str());
    let mut s = impl_header(&iter_generics(iface), tref.as_str(), "Composite<NodeType>",
        &iter_preds(iface));
    s.append(body.as_str());
    s.append("}\n");
    proof {
        assert(s@ =~= iter_composite_impl_text(*iface));
    }
    s
}

/// One stored-argument field of an iterator type.
pub open spec fn field_line_text(p: ParamSpec) -> Seq<char> {
    "    "@ + p.name@ + ": "@ + p.ty@ + ",\n"@
}

/// One zero-sized marker field, carrying a type parameter that no stored
/// field uses.
pub open spec fn phantom_field_line_text(tp: Seq<char>) -> Seq<char> {
    "    _phantom_"@ + tp + ": PhantomData<"@ + tp + ">,\n"@
}

/// One marker field's initializer in the iterator's constructor.
pub open spec fn phantom_init_line_text(tp: Seq<char>) -> Seq<char> {
    "            _phantom_"@ + tp + ": PhantomData,\n"@
}

/// One stored argument's initializer in the iterator's constructor.
pub open spec fn field_init_line_text(p: ParamSpec) -> Seq<char> {
    "            "@ + p.name@ + ",\n"@
}

/// The declaration of one method's iterator type: the level counter, one
/// field per method argument, the borrowed head node, and one marker field
/// per type parameter of the original interface.
pub open spec fn iterator_struct_text(iface: InterfaceSpec, m: MethodSpec) -> Seq<char> {
    "struct "@ + composite_iter_text(m.name@) + angle_text(iterator_decl_generic_views(iface))
        + where_text(iter_pred_views(iface)) + " {\n    level: usize,\n"@ + concat_texts(
        m.params@.map_values(|p: ParamSpec| field_line_text(p)),
    ) + "    parent: &'zero_v NodeType,\n"@ + concat_texts(
        strs(iface.type_params@).map_values(|tp: Seq<char>| phantom_field_line_text(tp)),
    ) + "}\n"@
}

/// The constructor of one method's iterator type: captures the arguments,
/// borrows the head node, and starts at level zero.
pub open spec fn iterator_ctor_impl_text(iface: InterfaceSpec, m: MethodSpec) -> Seq<char> {
    "impl"@ + angle_text(iterator_decl_generic_views(iface)) + " "@ + composite_iter_text(m.name@)
        + angle_text(iterator_decl_generic_views(iface)) + where_text(iter_pred_views(iface))
        + " {\n    fn new("@ + join_text(
        seq!["parent: &'zero_v NodeType"@] + decl_texts(m.params@),
        ", "@,
    ) + ") -> Self {\n        Self {\n            parent,\n"@ + concat_texts(
        m.params@.map_values(|p: ParamSpec| field_init_line_text(p)),
    ) + "            level: 0,\n"@ + concat_texts(
        strs(iface.type_params@).map_values(|tp: Seq<char>| phantom_init_line_text(tp)),
    ) + "        }\n    }\n}\n"@
}

/// The sequence implementation of one method's iterator type: ask the held
/// node for the result at the current level with the held arguments, step
/// the level, and hand the optional result on.
pub open spec fn iterator_iter_impl_text(iface: InterfaceSpec, m: MethodSpec) -> Seq<char> {
    impl_header_text(
        iterator_decl_generic_views(iface),
        "Iterator"@,
        composite_iter_text(m.name@) + angle_text(iterator_decl_generic_views(iface)),
        iter_pred_views(iface),
    ) + "    type Item = "@ + ret_text(m)
        + ";\n\n    #[inline]\n    fn next(&mut self) -> Option<Self::Item> {\n        let result = self.parent."@
        + level_method_text(m.name@) + "("@ + join_text(
        self_texts(m.params@).push("self.level"@),
        ", "@,
    ) + ");\n        self.level += 1;\n        result\n    }\n}\n"@
}

/// Everything emitted for one method's iterator: the type, its constructor,
/// and its sequence implementation.
pub open spec fn iterator_items_text(iface: InterfaceSpec, m: MethodSpec) -> Seq<char> {
    iterator_struct_text(iface, m) + iterator_ctor_impl_text(iface, m) + iterator_iter_impl_text(
        iface,
        m,
    )
}

/// The iterator items of every method, in declaration order.
pub open spec fn all_iterators_text(iface: InterfaceSpec) -> Seq<char> {
    concat_texts(iface.methods@.map_values(|m: MethodSpec| iterator_items_text(iface, m)))
}

/// Renders the declaration of one method's iterator type.
pub fn iterator_struct(iface: &InterfaceSpec, m: &MethodSpec) -> (r: String)
    ensures
        r@ == iterator_struct_text(*iface, *m),
{
    let mut field_lines: Vec<String> = Vec::new();
    let mut k: usize = 0;
    while k < m.params.len()
        invariant
            k <= m.params@.len(),
            field_lines@.len() == k,
            forall|i: int|
                0 <= i < k ==> (#[trigger] field_lines@[i]@) == field_line_text(m.params@[i]),
        decreases m.params@.len() - k,
    {
        let mut line = "    ".to_owned();
        line.append(m.params[k].name.as_str());
        line.append(": ");
        line.append(m.params[k].ty.as_str());
        line.append(",\n");
        field_lines.push(line);
        k += 1;
    }
    proof {
        assert(strs(field_lines@) =~= m.params@.map_values(|p: ParamSpec| field_line_text(p)));
    }
    let fields = concat_all(&field_lines);

    let mut phantom_lines: Vec<String> = Vec::new();
    let mut k2: usize = 0;
    while k2 < iface.type_params.len()
        invariant
            k2 <= iface.type_params@.len(),
            phantom_lines@.len() == k2,
            forall|i: int|
                0 <= i < k2 ==> (#[trigger] phantom_lines@[i]@) == phantom_field_line_text(
                    iface.type_params@[i]@,
                ),
        decreases iface.type_params@.len() - k2,
    {
        let mut line = "    _phantom_".to_owned();
        line.append(iface.type_params[k2].as_str());
        line.append(": PhantomData<");
        line.append(iface.type_params[k2].as_str());
        line.append(">,\n");
        phantom_lines.push(line);
        k2 += 1;
    }
    proof {
        assert(strs(phantom_lines@) =~= strs(iface.type_params@).map_values(
            |tp: Seq<char>| phantom_field_line_text(tp),
        ));
    }
    let phantoms = concat_all(&phantom_lines);

    let mut s = "struct ".to_owned();
    let c = composite_iter_name(m.name.as_str());
    s.append(c.as_str());
    let g = angle(&iterator_decl_generics(iface));
    s.append(g.as_str());
    let w = where_clause(&iter_preds(iface));
    s.append(w.as_str());
    s.append(" {\n    level: usize,\n");
    s.append(fields.as_str());
    s.append("    parent: &'zero_v NodeType,\n");
    s.append(phantoms.as_str());
    s.append("}\n");
    proof {
        assert(s@ =~= iterator_struct_text(*iface, *m));
    }
    s
}

/// Renders the constructor of one method's iterator type.
pub fn iterator_ctor_impl(iface: &InterfaceSpec, m: &MethodSpec) -> (r: String)
    ensures
        r@ == iterator_ctor_impl_text(*iface, *m),
{
    let mut parts: Vec<String> = Vec::new();
    let x = "parent: &'zero_v NodeType".to_owned();
    let ghost xv = x;
    parts.push(x);
    let decls = decl_list(&m.params);
    extend_strings(&mut parts, &decls);
    proof {
        lemma_strs_push(Seq::empty(), xv);
        assert(strs(parts@) =~= seq!["parent: &'zero_v NodeType"@] + decl_texts(m.params@));
    }
    let args = join(&parts, ", ");

    let mut init_lines: Vec<String> = Vec::new();
    let mut k: usize = 0;
    while k < m.params.len()
        invariant
            k <= m.params@.len(),
            init_lines@.len() == k,
            forall|i: int|
                0 <= i < k ==> (#[trigger] init_lines@[i]@) == field_init_line_text(m.params@[i]),
        decreases m.params@.len() - k,
    {
        let mut line = "            ".to_owned();
        line.append(m.params[k].name.as_str());
        line.append(",\n");
        init_lines.push(line);
        k += 1;
    }
    proof {
        assert(strs(init_lines@) =~= m.params@.map_values(|p: ParamSpec| field_init_line_text(p)));
    }
    let inits = concat_all(&init_lines);

    let mut phantom_lines: Vec<String> = Vec::new();
    let mut k2: usize = 0;
    while k2 < iface.type_params.len()
        invariant
            k2 <= iface.type_params@.len(),
            phantom_lines@.len() == k2,
            forall|i: int|
                0 <= i < k2 ==> (#[trigger] phantom_lines@[i]@) == phantom_init_line_text(
                    iface.type_params@[i]@,
                ),
        decreases iface.type_params@.len() - k2,
    {
        let mut line = "            _phantom_".to_owned();
        line.append(iface.type_params[k2].as_str());
        line.append(": PhantomData,\n");
        phantom_lines.push(line);
        k2 += 1;
    }
    proof {
        assert(strs(phantom_lines@) =~= strs(iface.type_params@).map_values(
            |tp: Seq<char>| phantom_init_line_text(tp),
        ));
    }
    let phantoms = concat_all(&phantom_lines);

    let mut s = "impl".to_owned();
    let g = angle(&iterator_decl_generics(iface));
    s.append(g.as_str());
    s.append(" ");
    let c = composite_iter_name(m.name.as_str());
    s.append(c.as_str());
    s.append(g.as_str());
    let w = where_clause(&iter_preds(iface));
    s.append(w.as_str());
    s.append(" {\n    fn new(");
    s.append(args.as_str());
    s.append(") -> Self {\n        Self {\n            parent,\n");
    s.append(inits.as_str());
    s.append("            level: 0,\n");
    s.append(phantoms.as_str());
    s.append("        }\n    }\n}\n");
    proof {
        assert(s@ =~= iterator_ctor_impl_text(*iface, *m));
    }
    s
}

/// Renders the sequence implementation of one method's iterator type.
pub fn iterator_iter_impl(iface: &InterfaceSpec, m: &MethodSpec) -> (r: String)
    ensures
        r@ == iterator_iter_impl_text(*iface, *m),
{
    let mut parts = self_list(&m.params);
    let ghost p0 = parts@;
    let x = "self.level".to_owned();
    let ghost xv = x;
    parts.push(x);
    proof {
        lemma_strs_push(p0, xv);
    }
    let args = join(&parts, ", ");

    let c = composite_iter_name(m.name.as_str());
    let g = angle(&iterator_decl_generics(iface));
    let mut for_ty = c;
    for_ty.append(g.as_str());

    let mut s = impl_header(&iterator_decl_generics(iface), "Iterator", for_ty.as_str(),
        &iter_preds(iface));
    s.append("    type Item = ");
    let ret = ret_or_unit(m);
    s.append(ret.as_str());
    s.append(";\n\n    #[inline]\n    fn next(&mut self) -> Option<Self::Item> {\n        let result = self.parent.");
    let ln = level_method_name(m.name.as_str());
    s.append(ln.as_str());
    s.append("(");
    s.append(args.as_str());
    s.append(");\n        self.level += 1;\n        result\n    }\n}\n");
    proof {
        assert(s@ =~= iterator_iter_impl_text(*iface, *m));
    }
    s
}

/// Renders everything emitted for one method's iterator.
pub fn iterator_items(iface: &InterfaceSpec, m: &MethodSpec) -> (r: String)
    ensures
        r@ == iterator_items_text(*iface, *m),
{
    let mut s = iterator_struct(iface, m);
    let ctor = iterator_ctor_impl(iface, m);
    s.append(ctor.as_str());
    let it = iterator_iter_impl(iface, m);
    s.append(it.as_str());
    proof {
        assert(s@ =~= iterator_items_text(*iface, *m));
    }
    s
}

/// Renders the iterator items of every method, in declaration order.
pub fn all_iterators(iface: &InterfaceSpec) -> (r: String)
    ensures
        r@ == all_iterators_text(*iface),
{
    let mut pieces: Vec<String> = Vec::new();
    let mut k: usize = 0;
    while k < iface.methods.len()
        invariant
            k <= iface.methods@.len(),
            pieces@.len() == k,
            forall|i: int|
                0 <= i < k ==> (#[trigger] pieces@[i]@) == iterator_items_text(
                    *iface,
                    iface.methods@[i],
                ),
        decreases iface.methods@.len() - k,
    {
        pieces.push(iterator_items(iface, &iface.methods[k]));
        k += 1;
    }
    proof {
        assert(strs(pieces@) =~= iface.methods@.map_values(
            |m: MethodSpec| iterator_items_text(*iface, m),
        ));
    }
    concat_all(&pieces)
}

} // verus!
