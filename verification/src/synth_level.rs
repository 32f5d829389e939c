//! The level-interface synthesizer.
//!
//! From an interface it emits a trait isomorphic to the original in which
//! every method additionally takes a zero-based `level` argument and returns
//! an optional value of the original return type, together with the trait's
//! two implementations: the terminal one for the unit type, on which every
//! method answers `None` whatever its arguments, and the recursive one for a
//! node, which answers the element's own result at level zero and otherwise
//! delegates to its tail with the level decreased by one.

use vstd::prelude::*;
use vstd::string::*;

use crate::extract::{decl_list, decl_texts, lemma_strs_push, name_list, name_texts, ret_or_unit,
    ret_text, strs};
use crate::iface::{InterfaceSpec, MethodSpec};
use crate::names::{level_method_name, level_method_text, level_trait_name, level_trait_text};
use crate::synth::{angle, concat_all, concat_texts, impl_header, impl_header_text, level_trait_ref,
    level_trait_ref_text, node_generics, node_generic_views, node_preds, node_pred_views,
    pred_views, ty_generics, ty_generic_views, angle_text, where_clause, where_text,
    extend_strings};
use crate::text::{join, join_text};

verus! {

/// The signature of a level method: the original signature with `level:
/// usize` appended to its arguments and the return type wrapped in `Option`.
pub open spec fn level_sig_text(m: MethodSpec) -> Seq<char> {
    "fn "@ + level_method_text(m.name@) + "("@ + join_text(
        seq!["&self"@] + decl_texts(m.params@) + seq!["level: usize"@],
        ", "@,
    ) + ") -> Option<"@ + ret_text(m) + ">"@
}

/// Renders the signature of a level method.
pub fn level_sig(m: &MethodSpec) -> (r: String)
    ensures
        r@ == level_sig_text(*m),
{
    let mut parts: Vec<String> = Vec::new();
    let x = "&self".to_owned();
    let ghost xv = x;
    parts.push(x);
    let ghost p1 = parts@;
    let decls = decl_list(&m.params);
    extend_strings(&mut parts, &decls);
    let ghost p2 = parts@;
    let y = "level: usize".to_owned();
    let ghost yv = y;
    parts.push(y);
    proof {
        lemma_strs_push(Seq::empty(), xv);
        assert(p1 =~= Seq::empty().push(xv));
        lemma_strs_push(p2, yv);
        assert(strs(parts@) =~= seq!["&self"@] + decl_texts(m.params@) + seq![
            "level: usize"@,
        ]);
    }
    let args = join(&parts, ", ");
    let mut s = "fn ".to_owned();
    let n = level_method_name(m.name.as_str());
    s.append(n.as_str());
    s.append("(");
    s.append(args.as_str());
    s.append(") -> Option<");
    let ret = ret_or_unit(m);
    s.append(ret.as_str());
    s.append(">");
    proof {
        assert(s@ =~= level_sig_text(*m));
    }
    s
}

/// One method line of the level trait declaration.
pub open spec fn level_decl_line_text(m: MethodSpec) -> Seq<char> {
    "    "@ + level_sig_text(m) + ";\n"@
}

/// One method of the terminal implementation: every level is out of range on
/// an empty tail, so the body is `None`.
pub open spec fn level_empty_line_text(m: MethodSpec) -> Seq<char> {
    "    "@ + level_sig_text(m) + " {\n        None\n    }\n"@
}

/// One method of the recursive implementation: level zero answers the
/// element's result, any other level delegates to the tail one level down.
pub open spec fn level_node_line_text(m: MethodSpec) -> Seq<char> {
    "    "@ + level_sig_text(m) + " {\n        if level != 0 {\n            self.next."@
        + level_method_text(m.name@) + "("@ + join_text(
        name_texts(m.params@).push("level - 1"@),
        ", "@,
    ) + ")\n        } else {\n            Some(self.data."@ + m.name@ + "("@ + join_text(
        name_texts(m.params@),
        ", "@,
    ) + "))\n        }\n    }\n"@
}

/// The declaration of the level trait: the original generic parameters and
/// bounds, one level method per original method.
pub open spec fn level_trait_decl_text(iface: InterfaceSpec) -> Seq<char> {
    "trait "@ + level_trait_text(iface.name@) + angle_text(ty_generic_views(iface)) + where_text(
        pred_views(iface),
    ) + " {\n"@ + concat_texts(iface.methods@.map_values(|m: MethodSpec| level_decl_line_text(m)))
        + "}\n"@
}

/// The terminal implementation of the level trait, for the unit type.
pub open spec fn level_empty_impl_text(iface: InterfaceSpec) -> Seq<char> {
    impl_header_text(ty_generic_views(iface), level_trait_ref_text(iface), "()"@, pred_views(iface))
        + concat_texts(iface.methods@.map_values(|m: MethodSpec| level_empty_line_text(m)))
        + "}\n"@
}

/// The recursive implementation of the level trait, for a node whose element
/// satisfies the original interface and whose tail satisfies the level
/// interface.
pub open spec fn level_node_impl_text(iface: InterfaceSpec) -> Seq<char> {
    impl_header_text(
        node_generic_views(iface),
        level_trait_ref_text(iface),
        "Node<TraitType, NodeType>"@,
        node_pred_views(iface),
    ) + concat_texts(iface.methods@.map_values(|m: MethodSpec| level_node_line_text(m))) + "}\n"@
}

/// Renders the declaration of the level trait.
pub fn level_trait_decl(iface: &InterfaceSpec) -> (r: String)
    ensures
        r@ == level_trait_decl_text(*iface),
{
    let mut lines: Vec<String> = Vec::new();
    let mut k: usize = 0;
    while k < iface.methods.len()
        invariant
            k <= iface.methods@.len(),
            lines@.len() == k,
            forall|i: int|
                0 <= i < k ==> (#[trigger] lines@[i]@) == level_decl_line_text(iface.methods@[i]),
        decreases iface.methods@.len() - k,
    {
        let mut line = "    ".to_owned();
        let sig = level_sig(&iface.methods[k]);
        line.append(sig.as_str());
        line.append(";\n");
        lines.push(line);
        k += 1;
    }
    proof {
        assert(strs(lines@) =~= iface.methods@.map_values(|m: MethodSpec| level_decl_line_text(m)));
    }
    let body = concat_all(&lines);
    let mut s = "trait ".to_owned();
    let n = level_trait_name(iface.name.as_str());
    s.append(n.as_str());
    let g = angle(&ty_generics(iface));
    s.append(g.as_str());
    let w = where_clause(&iface.preds);
    s.append(w.as_str());
    s.append(" {\n");
    s.append(body.as_str());
    s.append("}\n");
    proof {
        assert(s@ =~= level_trait_decl_text(*iface));
    }
    s
}

/// Renders the terminal implementation of the level trait.
pub fn level_empty_impl(iface: &InterfaceSpec) -> (r: String)
    ensures
        r@ == level_empty_impl_text(*iface),
{
    let mut lines: Vec<String> = Vec::new();
    let mut k: usize = 0;
    while k < iface.methods.len()
        invariant
            k <= iface.methods@.len(),
            lines@.len() == k,
            forall|i: int|
                0 <= i < k ==> (#[trigger] lines@[i]@) == level_empty_line_text(iface.methods@[i]),
        decreases iface.methods@.len() - k,
    {
        let mut line = "    ".to_owned();
        let sig = level_sig(&iface.methods[k]);
        line.append(sig.as_str());
        line.append(" {\n        None\n    }\n");
        lines.push(line);
        k += 1;
    }
    proof {
        assert(strs(lines@) =~= iface.methods@.map_values(
            |m: MethodSpec| level_empty_line_text(m),
        ));
    }
    let body = concat_all(&lines);
    let tref = level_trait_ref(iface);
    let mut s = impl_header(&ty_generics(iface), tref.as_str(), "()", &iface.preds);
    s.append(body.as_str());
    s.append("}\n");
    proof {
        assert(s@ =~= level_empty_impl_text(*iface));
    }
    s
}

/// Renders the recursive implementation of the level trait.
pub fn level_node_impl(iface: &InterfaceSpec) -> (r: String)
    ensures
        r@ == level_node_impl_text(*iface),
{
    let mut lines: Vec<String> = Vec::new();
    let mut k: usize = 0;
    while k < iface.methods.len()
        invariant
            k <= iface.methods@.len(),
            lines@.len() == k,
            forall|i: int|
                0 <= i < k ==> (#[trigger] lines@[i]@) == level_node_line_text(iface.methods@[i]),
        decreases iface.methods@.len() - k,
    {
        let m = &iface.methods[k];
        let mut delegated = name_list(&m.params);
        let ghost d0 = delegated@;
        let lv = "level - 1".to_owned();
        let ghost lvv = lv;
        delegated.push(lv);
        proof {
            lemma_strs_push(d0, lvv);
        }
        let delegate_args = join(&delegated, ", ");
        let plain = name_list(&m.params);
        let plain_args = join(&plain, ", ");

        let mut line = "    ".to_owned();
        let sig = level_sig(m);
        line.append(sig.as_str());
        line.append(" {\n        if level != 0 {\n            self.next.");
        let lname = level_method_name(m.name.as_str());
        line.append(lname.as_str());
        line.append("(");
        line.append(delegate_args.as_str());
        line.append(")\n        } else {\n            Some(self.data.");
        line.append(m.name.as_str());
        line.append("(");
        line.append(plain_args.as_str());
        line.append("))\n        }\n    }\n");
        proof {
            assert(line@ =~= level_node_line_text(iface.methods@[k as int]));
        }
        lines.push(line);
        k += 1;
    }
    proof {
        assert(strs(lines@) =~= iface.methods@.map_values(|m: MethodSpec| level_node_line_text(m)));
    }
    let body = concat_all(&lines);
    let tref = level_trait_ref(iface);
    let mut s = impl_header(
        &node_generics(iface),
        tref.as_str(),
        "Node<TraitType, NodeType>",
        &node_preds(iface),
    );
    s.append(body.as_str());
    s.append("}\n");
    proof {
        assert(s@ =~= level_node_impl_text(*iface));
    }
    s
}

} // verus!
