//! The generator itself: derived names, the four generation-time
//! diagnostics, the emitted source text for a small interface checked
//! character for character, and emitted text for the richer fixtures fed
//! back through a Rust parser.

use zero_v::{
    augment_fn_generics, derive_names, generate_trait_types, parse_mode, GenError, GenMode,
    InterfaceSpec, MethodSpec, ParamSpec, Receiver,
};

fn param(name: &str, ty: &str) -> ParamSpec {
    ParamSpec {
        name: name.to_string(),
        ty: ty.to_string(),
    }
}

fn method(name: &str, params: Vec<ParamSpec>, ret: Option<&str>) -> MethodSpec {
    MethodSpec {
        name: name.to_string(),
        receiver: Receiver::SharedBorrow,
        params,
        ret: ret.map(|s| s.to_string()),
    }
}

fn strings(words: &[&str]) -> Vec<String> {
    words.iter().map(|w| w.to_string()).collect()
}

fn int_op() -> InterfaceSpec {
    InterfaceSpec {
        name: "IntOp".to_string(),
        lifetimes: vec![],
        type_params: vec![],
        preds: vec![],
        methods: vec![method(
            "execute",
            vec![param("input", "usize")],
            Some("usize"),
        )],
    }
}

fn my_trait() -> InterfaceSpec {
    InterfaceSpec {
        name: "MyTrait".to_string(),
        lifetimes: strings(&["'a"]),
        type_params: strings(&["I", "R"]),
        preds: strings(&["I: Copy"]),
        methods: vec![method("apply", vec![param("input", "&'a I")], Some("R"))],
    }
}

#[test]
fn derives_every_name_form() {
    let names = derive_names(
        "IntOp",
        &strings(&["execute_1", "execute_2"]),
    )
    .unwrap();
    assert_eq!(names.level_trait, "IntOpAtLevel");
    assert_eq!(names.iter_trait, "IterIntOp");
    assert_eq!(
        names.level_methods,
        strings(&["execute_1_at_level", "execute_2_at_level"])
    );
    assert_eq!(names.iter_methods, strings(&["iter_execute_1", "iter_execute_2"]));
    assert_eq!(
        names.composite_iters,
        strings(&["CompositeIteratorExecute1", "CompositeIteratorExecute2"])
    );
}

#[test]
fn rejects_duplicate_method_names() {
    let r = derive_names("IntOp", &strings(&["run", "run"]));
    assert_eq!(r.unwrap_err(), GenError::NameCollision { first: 0, second: 1 });
}

#[test]
fn rejects_coinciding_upper_camel_forms() {
    let r = derive_names("IntOp", &strings(&["do_it", "doIt"]));
    assert_eq!(r.unwrap_err(), GenError::NameCollision { first: 0, second: 1 });
}

#[test]
fn emits_the_full_machinery_for_a_small_interface() {
    let original = "trait IntOp {\n    fn execute(&self, input: usize) -> usize;\n}\n";
    let out = generate_trait_types(&int_op(), original, &vec![]).unwrap();

    let mut expected = String::new();
    expected.push_str(original);
    expected.push_str("\n");
    expected.push_str("use zero_v::{Composite, NextNode, Node};\n");
    expected.push_str("use std::marker::PhantomData;\n");
    expected.push_str(
        "trait IntOpAtLevel {\n    fn execute_at_level(&self, input: usize, level: usize) -> Option<usize>;\n}\n",
    );
    expected.push_str(
        "impl IntOpAtLevel for () {\n    fn execute_at_level(&self, input: usize, level: usize) -> Option<usize> {\n        None\n    }\n}\n",
    );
    expected.push_str(
        "impl<TraitType, NodeType> IntOpAtLevel for Node<TraitType, NodeType> where TraitType: IntOp, NodeType: NextNode + IntOpAtLevel {\n    fn execute_at_level(&self, input: usize, level: usize) -> Option<usize> {\n        if level != 0 {\n            self.next.execute_at_level(input, level - 1)\n        } else {\n            Some(self.data.execute(input))\n        }\n    }\n}\n",
    );
    expected.push_str(
        "trait IterIntOp<NodeType> where NodeType: NextNode + IntOpAtLevel {\n    fn iter_execute(&self, input: usize) -> CompositeIteratorExecute<'_, NodeType>;\n}\n",
    );
    expected.push_str(
        "impl<NodeType> IterIntOp<NodeType> for Composite<NodeType> where NodeType: NextNode + IntOpAtLevel {\n    fn iter_execute(&self, input: usize) -> CompositeIteratorExecute<'_, NodeType> {\n        CompositeIteratorExecute::new(&self.head, input)\n    }\n}\n",
    );
    expected.push_str(
        "struct CompositeIteratorExecute<'zero_v, NodeType> where NodeType: NextNode + IntOpAtLevel {\n    level: usize,\n    input: usize,\n    parent: &'zero_v NodeType,\n}\n",
    );
    expected.push_str(
        "impl<'zero_v, NodeType> CompositeIteratorExecute<'zero_v, NodeType> where NodeType: NextNode + IntOpAtLevel {\n    fn new(parent: &'zero_v NodeType, input: usize) -> Self {\n        Self {\n            parent,\n            input,\n            level: 0,\n        }\n    }\n}\n",
    );
    expected.push_str(
        "impl<'zero_v, NodeType> Iterator for CompositeIteratorExecute<'zero_v, NodeType> where NodeType: NextNode + IntOpAtLevel {\n    type Item = usize;\n\n    #[inline]\n    fn next(&mut self) -> Option<Self::Item> {\n        let result = self.parent.execute_at_level(self.input, self.level);\n        self.level += 1;\n        result\n    }\n}\n",
    );
    assert_eq!(out, expected);
}

#[test]
fn emitted_text_parses_as_rust() {
    let original = "trait IntOp {\n    fn execute_1(&self, input: usize) -> usize;\n    fn execute_2(&self, input_1: usize, input_2: usize) -> usize;\n}\n";
    let iface = InterfaceSpec {
        name: "IntOp".to_string(),
        lifetimes: vec![],
        type_params: vec![],
        preds: vec![],
        methods: vec![
            method(
                "execute_1",
                vec![param("input", "usize")],
                Some("usize"),
            ),
            method(
                "execute_2",
                vec![param("input_1", "usize"), param("input_2", "usize")],
                Some("usize"),
            ),
        ],
    };
    let out = generate_trait_types(&iface, original, &vec![]).unwrap();
    let parsed = syn::parse_file(&out);
    assert!(parsed.is_ok());
    assert!(out.contains("trait IntOpAtLevel {"));
    assert!(out.contains("struct CompositeIteratorExecute1<'zero_v, NodeType>"));
    assert!(out.contains("struct CompositeIteratorExecute2<'zero_v, NodeType>"));
}

#[test]
fn emitted_generic_text_parses_and_carries_markers() {
    let original = "trait MyTrait<'a, I, R> where I: Copy {\n    fn apply(&self, input: &'a I) -> R;\n}\n";
    let out = generate_trait_types(&my_trait(), original, &vec![]).unwrap();
    let parsed = syn::parse_file(&out);
    assert!(parsed.is_ok());
    assert!(out.contains("trait MyTraitAtLevel<'a, I, R> where I: Copy {"));
    assert!(out.contains(
        "struct CompositeIteratorApply<'a, 'zero_v, I, R, NodeType> where I: Copy, NodeType: NextNode + MyTraitAtLevel<'a, I, R> {"
    ));
    assert!(out.contains("    _phantom_I: PhantomData<I>,\n"));
    assert!(out.contains("    _phantom_R: PhantomData<R>,\n"));
    assert!(out.contains("            _phantom_I: PhantomData,\n"));
    assert!(out.contains("type Item = R;"));
}

#[test]
fn rejects_an_unsupported_receiver() {
    let mut iface = int_op();
    iface.methods[0].receiver = Receiver::ByValue;
    let r = generate_trait_types(&iface, "trait IntOp {}", &vec![]);
    assert_eq!(r.unwrap_err(), GenError::UnsupportedReceiver { method: 0 });
}

#[test]
fn rejects_a_dangling_return_lifetime() {
    let iface = InterfaceSpec {
        name: "Lender".to_string(),
        lifetimes: strings(&["'a"]),
        type_params: vec![],
        preds: vec![],
        methods: vec![method(
            "lend",
            vec![param("input", "usize")],
            Some("&'a usize"),
        )],
    };
    let r = generate_trait_types(&iface, "trait Lender {}", &vec![]);
    assert_eq!(r.unwrap_err(), GenError::DanglingLifetime { method: 0 });
}

#[test]
fn accepts_a_return_lifetime_reachable_from_an_argument() {
    let iface = InterfaceSpec {
        name: "Lender".to_string(),
        lifetimes: strings(&["'a"]),
        type_params: vec![],
        preds: vec![],
        methods: vec![method(
            "lend",
            vec![param("input", "&'a usize")],
            Some("&'a usize"),
        )],
    };
    let r = generate_trait_types(&iface, "trait Lender {}", &vec![]);
    assert!(r.is_ok());
}

#[test]
fn a_longer_lifetime_is_not_mistaken_for_a_shorter_one() {
    let iface = InterfaceSpec {
        name: "Lender".to_string(),
        lifetimes: strings(&["'a"]),
        type_params: vec![],
        preds: vec![],
        methods: vec![method(
            "lend",
            vec![param("input", "&'ab usize")],
            Some("&'a usize"),
        )],
    };
    let r = generate_trait_types(&iface, "trait Lender {}", &vec![]);
    assert_eq!(r.unwrap_err(), GenError::DanglingLifetime { method: 0 });
}

#[test]
fn rejects_a_pre_existing_identifier() {
    let scope = strings(&["Logger", "CompositeIteratorExecute"]);
    let r = generate_trait_types(&int_op(), "trait IntOp {}", &scope);
    assert_eq!(r.unwrap_err(), GenError::ScopeCollision { existing: 1 });
}

#[test]
fn augments_a_free_function_signature() {
    let augmented = augment_fn_generics(
        &strings(&["'a"]),
        &strings(&["I", "R"]),
        &strings(&["I: Copy"]),
        "MyTrait",
        "MyTraits",
    );
    assert_eq!(augmented.params, strings(&["'a", "I", "R", "NodeType", "MyTraits"]));
    assert_eq!(
        augmented.preds,
        strings(&[
            "I: Copy",
            "NodeType: NextNode + MyTraitAtLevel<'a, I, R>",
            "MyTraits: IterMyTrait<'a, I, R, NodeType>",
        ])
    );
}

#[test]
fn augments_a_plain_function_signature() {
    let augmented = augment_fn_generics(&vec![], &vec![], &vec![], "IntOp", "IntOps");
    assert_eq!(augmented.params, strings(&["NodeType", "IntOps"]));
    assert_eq!(
        augmented.preds,
        strings(&["NodeType: NextNode + IntOpAtLevel", "IntOps: IterIntOp<NodeType>"])
    );
}

#[test]
fn extracts_the_three_argument_lists() {
    let params = vec![param("input_1", "usize"), param("input_2", "&'a I")];
    assert_eq!(
        zero_v::decl_list(&params),
        strings(&["input_1: usize", "input_2: &'a I"])
    );
    assert_eq!(zero_v::name_list(&params), strings(&["input_1", "input_2"]));
    assert_eq!(
        zero_v::self_list(&params),
        strings(&["self.input_1", "self.input_2"])
    );
    let with_ret = method("run", vec![], Some("usize"));
    assert_eq!(zero_v::ret_or_unit(&with_ret), "usize");
    let without_ret = method("run", vec![], None);
    assert_eq!(zero_v::ret_or_unit(&without_ret), "()");
}

#[test]
fn rejects_a_missing_receiver() {
    let mut iface = int_op();
    iface.methods[0].receiver = Receiver::Absent;
    let r = zero_v::check_receivers(&iface.methods);
    assert_eq!(r.unwrap_err(), GenError::UnsupportedReceiver { method: 0 });
    let mut iface2 = int_op();
    iface2.methods[0].receiver = Receiver::UniqueBorrow;
    let r2 = generate_trait_types(&iface2, "trait IntOp {}", &vec![]);
    assert_eq!(r2.unwrap_err(), GenError::UnsupportedReceiver { method: 0 });
}

#[test]
fn selects_the_transform_by_name() {
    assert_eq!(parse_mode("trait_types"), Some(GenMode::TraitTypes));
    assert_eq!(parse_mode("fn_generics"), Some(GenMode::FnGenerics));
    assert_eq!(parse_mode("other"), None);
}
