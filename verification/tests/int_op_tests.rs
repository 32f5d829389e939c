//! The two-method fixture: an interface with methods of differing arities
//! over a composed collection of arithmetic operations, with the generated
//! machinery written out by hand exactly as the generator emits it, and a
//! free function whose generics carry the augmented bounds.

use zero_v::{Composite, NextNode, Node};

trait IntOp {
    fn execute_1(&self, input: usize) -> usize;
    fn execute_2(&self, input_1: usize, input_2: usize) -> usize;
}

struct Adder {
    value: usize,
}

impl Adder {
    fn new(value: usize) -> Self {
        Self { value }
    }
}

impl IntOp for Adder {
    fn execute_1(&self, input: usize) -> usize {
        input + self.value
    }
    fn execute_2(&self, input_1: usize, input_2: usize) -> usize {
        input_1 + input_2 + self.value
    }
}

struct Multiplier {
    value: usize,
}

impl Multiplier {
    fn new(value: usize) -> Self {
        Self { value }
    }
}

impl IntOp for Multiplier {
    fn execute_1(&self, input: usize) -> usize {
        input * self.value
    }
    fn execute_2(&self, input_1: usize, input_2: usize) -> usize {
        input_1 * input_2 * self.value
    }
}

struct RShifter {
    value: usize,
}

impl RShifter {
    fn new(value: usize) -> Self {
        Self { value }
    }
}

impl IntOp for RShifter {
    fn execute_1(&self, input: usize) -> usize {
        input >> self.value
    }
    fn execute_2(&self, input_1: usize, input_2: usize) -> usize {
        input_1 >> input_2 >> self.value
    }
}

struct LShifter {
    value: usize,
}

impl LShifter {
    fn new(value: usize) -> Self {
        Self { value }
    }
}

impl IntOp for LShifter {
    fn execute_1(&self, input: usize) -> usize {
        input << self.value
    }
    fn execute_2(&self, input_1: usize, input_2: usize) -> usize {
        input_1 << input_2 << self.value
    }
}

trait IntOpAtLevel {
    fn execute_1_at_level(&self, input: usize, level: usize) -> Option<usize>;
    fn execute_2_at_level(&self, input_1: usize, input_2: usize, level: usize) -> Option<usize>;
}

impl IntOpAtLevel for () {
    fn execute_1_at_level(&self, _input: usize, _level: usize) -> Option<usize> {
        None
    }
    fn execute_2_at_level(&self, _input_1: usize, _input_2: usize, _level: usize) -> Option<usize> {
        None
    }
}

impl<TraitType, NodeType> IntOpAtLevel for Node<TraitType, NodeType>
where
    TraitType: IntOp,
    NodeType: NextNode + IntOpAtLevel,
{
    fn execute_1_at_level(&self, input: usize, level: usize) -> Option<usize> {
        if level != 0 {
            self.next.execute_1_at_level(input, level - 1)
        } else {
            Some(self.data.execute_1(input))
        }
    }
    fn execute_2_at_level(&self, input_1: usize, input_2: usize, level: usize) -> Option<usize> {
        if level != 0 {
            self.next.execute_2_at_level(input_1, input_2, level - 1)
        } else {
            Some(self.data.execute_2(input_1, input_2))
        }
    }
}

trait IterIntOp<NodeType>
where
    NodeType: NextNode + IntOpAtLevel,
{
    fn iter_execute_1(&self, input: usize) -> CompositeIteratorExecute1<'_, NodeType>;
    fn iter_execute_2(
        &self,
        input_1: usize,
        input_2: usize,
    ) -> CompositeIteratorExecute2<'_, NodeType>;
}

impl<NodeType> IterIntOp<NodeType> for Composite<NodeType>
where
    NodeType: NextNode + IntOpAtLevel,
{
    fn iter_execute_1(&self, input: usize) -> CompositeIteratorExecute1<'_, NodeType> {
        CompositeIteratorExecute1::new(&self.head, input)
    }
    fn iter_execute_2(
        &self,
        input_1: usize,
        input_2: usize,
    ) -> CompositeIteratorExecute2<'_, NodeType> {
        CompositeIteratorExecute2::new(&self.head, input_1, input_2)
    }
}

struct CompositeIteratorExecute1<'zero_v, NodeType>
where
    NodeType: NextNode + IntOpAtLevel,
{
    level: usize,
    input: usize,
    parent: &'zero_v NodeType,
}

impl<'zero_v, NodeType> CompositeIteratorExecute1<'zero_v, NodeType>
where
    NodeType: NextNode + IntOpAtLevel,
{
    fn new(parent: &'zero_v NodeType, input: usize) -> Self {
        Self {
            parent,
            input,
            level: 0,
        }
    }
}

impl<'zero_v, NodeType> Iterator for CompositeIteratorExecute1<'zero_v, NodeType>
where
    NodeType: NextNode + IntOpAtLevel,
{
    type Item = usize;

    fn next(&mut self) -> Option<Self::Item> {
        let result = self.parent.execute_1_at_level(self.input, self.level);
        self.level += 1;
        result
    }
}

struct CompositeIteratorExecute2<'zero_v, NodeType>
where
    NodeType: NextNode + IntOpAtLevel,
{
    level: usize,
    input_1: usize,
    input_2: usize,
    parent: &'zero_v NodeType,
}

impl<'zero_v, NodeType> CompositeIteratorExecute2<'zero_v, NodeType>
where
    NodeType: NextNode + IntOpAtLevel,
{
    fn new(parent: &'zero_v NodeType, input_1: usize, input_2: usize) -> Self {
        Self {
            parent,
            input_1,
            input_2,
            level: 0,
        }
    }
}

impl<'zero_v, NodeType> Iterator for CompositeIteratorExecute2<'zero_v, NodeType>
where
    NodeType: NextNode + IntOpAtLevel,
{
    type Item = usize;

    fn next(&mut self) -> Option<Self::Item> {
        let result = self
            .parent
            .execute_2_at_level(self.input_1, self.input_2, self.level);
        self.level += 1;
        result
    }
}

fn execute_1<NodeType, IntOps>(input: usize, ops: &IntOps) -> Vec<usize>
where
    NodeType: NextNode + IntOpAtLevel,
    IntOps: IterIntOp<NodeType>,
{
    ops.iter_execute_1(input).collect()
}

#[test]
fn test_execute() {
    let ops = Composite::new(Node::new(
        Adder::new(0),
        Node::new(
            LShifter::new(1),
            Node::new(
                Adder::new(2),
                Node::new(Multiplier::new(3), Node::base(RShifter::new(2))),
            ),
        ),
    ));

    let results = ops.iter_execute_1(20).collect::<Vec<_>>();
    assert_eq!(results, vec![20, 20 << 1, 22, 20 * 3, 20 >> 2]);

    let results = ops.iter_execute_2(9, 10).collect::<Vec<_>>();
    assert_eq!(
        results,
        vec![19, 9 << 10 << 1, 21, 9 * 10 * 3, 9 >> 10 >> 2]
    );
}

#[test]
fn test_fn_generics() {
    let ops = Composite::new(Node::new(
        Adder::new(0),
        Node::new(
            LShifter::new(1),
            Node::new(
                Adder::new(2),
                Node::new(Multiplier::new(3), Node::base(RShifter::new(2))),
            ),
        ),
    ));

    let results = execute_1(10, &ops);
    assert_eq!(results, vec![10, 10 << 1, 10 + 2, 10 * 3, 10 >> 2]);
}
