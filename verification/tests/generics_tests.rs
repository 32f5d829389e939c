//! The generic fixture: an interface with a borrow-scope parameter and two
//! generic type parameters, with the generated machinery written out by
//! hand exactly as the generator emits it — including the zero-sized marker
//! fields that carry the type parameters no stored field uses.

use std::marker::PhantomData;
use zero_v::{Composite, NextNode, Node};

trait MyTrait<'a, I, R>
where
    I: Copy,
{
    fn apply(&self, input: &'a I) -> R;
}

#[derive(Debug)]
struct Plus(usize);

impl<'a> MyTrait<'a, usize, usize> for Plus {
    fn apply(&self, input: &'a usize) -> usize {
        input + self.0
    }
}

#[derive(Debug)]
struct PlusLen<'a>(&'a str);

impl<'a> MyTrait<'a, usize, usize> for PlusLen<'a> {
    fn apply(&self, input: &'a usize) -> usize {
        input + self.0.len()
    }
}

trait MyTraitAtLevel<'a, I, R>
where
    I: Copy,
{
    fn apply_at_level(&self, input: &'a I, level: usize) -> Option<R>;
}

impl<'a, I, R> MyTraitAtLevel<'a, I, R> for ()
where
    I: Copy,
{
    fn apply_at_level(&self, _input: &'a I, _level: usize) -> Option<R> {
        None
    }
}

impl<'a, I, R, TraitType, NodeType> MyTraitAtLevel<'a, I, R> for Node<TraitType, NodeType>
where
    I: Copy,
    TraitType: MyTrait<'a, I, R>,
    NodeType: NextNode + MyTraitAtLevel<'a, I, R>,
{
    fn apply_at_level(&self, input: &'a I, level: usize) -> Option<R> {
        if level != 0 {
            self.next.apply_at_level(input, level - 1)
        } else {
            Some(self.data.apply(input))
        }
    }
}

trait IterMyTrait<'a, I, R, NodeType>
where
    I: Copy,
    NodeType: NextNode + MyTraitAtLevel<'a, I, R>,
{
    fn iter_apply(&self, input: &'a I) -> CompositeIteratorApply<'a, '_, I, R, NodeType>;
}

impl<'a, I, R, NodeType> IterMyTrait<'a, I, R, NodeType> for Composite<NodeType>
where
    I: Copy,
    NodeType: NextNode + MyTraitAtLevel<'a, I, R>,
{
    fn iter_apply(&self, input: &'a I) -> CompositeIteratorApply<'a, '_, I, R, NodeType> {
        CompositeIteratorApply::new(&self.head, input)
    }
}

#[allow(non_snake_case)]
struct CompositeIteratorApply<'a, 'zero_v, I, R, NodeType>
where
    I: Copy,
    NodeType: NextNode + MyTraitAtLevel<'a, I, R>,
{
    level: usize,
    input: &'a I,
    parent: &'zero_v NodeType,
    _phantom_I: PhantomData<I>,
    _phantom_R: PhantomData<R>,
}

impl<'a, 'zero_v, I, R, NodeType> CompositeIteratorApply<'a, 'zero_v, I, R, NodeType>
where
    I: Copy,
    NodeType: NextNode + MyTraitAtLevel<'a, I, R>,
{
    fn new(parent: &'zero_v NodeType, input: &'a I) -> Self {
        Self {
            parent,
            input,
            level: 0,
            _phantom_I: PhantomData,
            _phantom_R: PhantomData,
        }
    }
}

impl<'a, 'zero_v, I, R, NodeType> Iterator for CompositeIteratorApply<'a, 'zero_v, I, R, NodeType>
where
    I: Copy,
    NodeType: NextNode + MyTraitAtLevel<'a, I, R>,
{
    type Item = R;

    fn next(&mut self) -> Option<Self::Item> {
        let result = self.parent.apply_at_level(self.input, self.level);
        self.level += 1;
        result
    }
}

fn apply<'a, I, R, NodeType, MyTraits>(t: &MyTraits, input: &'a I) -> Vec<R>
where
    I: Copy,
    NodeType: NextNode + MyTraitAtLevel<'a, I, R>,
    MyTraits: IterMyTrait<'a, I, R, NodeType>,
{
    t.iter_apply(input).collect()
}

#[test]
fn test_generic_trait() {
    let impls = Composite::new(Node::new(Plus(1), Node::base(PlusLen("a"))));

    let results: Vec<usize> = apply(&impls, &100);
    assert_eq!(results, vec![101, 101]);
}

#[test]
fn test_generic_manual_iter() {
    let impls = Composite::new(Node::new(Plus(1), Node::base(PlusLen("ab"))));

    let mapped: Vec<_> = (0..impls.len())
        .filter_map(|index| impls.head.apply_at_level(&100, index))
        .collect();

    assert_eq!(vec![101, 102], mapped);
}
