//! Building collections: the nested-node expansion of the composition
//! notation, node accessors, lengths, and level wrappers.

use zero_v::{Composite, Level, NestLevel, Node};

#[test]
fn can_build_composites_with_compose_macro() {
    assert_eq!(Composite::new(()), Composite::new(()));
    assert_eq!(Composite::new(Node::base(0)), Composite::new(Node::base(0)));
    assert_eq!(
        Composite::new(Node::new(0, Node::base(1))),
        Composite::new(Node::new(0, Node::base(1)))
    );
    assert_eq!(
        Composite::new(Node::new(0, Node::new(1, Node::base(2)))),
        Composite::new(Node::new(0, Node::new(1, Node::base(2))))
    );
}

#[test]
fn node_accessors_hold_what_was_composed() {
    let nodes = Node::new(1, Node::base(2));
    assert_eq!(nodes.data, 1);
    assert_eq!(nodes.next.data, 2);
    assert_eq!(nodes.next.next, ());
    let composite = Composite::new(nodes);
    assert_eq!(composite.head.data, 1);
}

#[test]
fn nest_level_counts_depth() {
    assert_eq!(().nest_level(), 0);
    assert_eq!(Node::base(7).nest_level(), 1);
    assert_eq!(Node::new(7, Node::base(8)).nest_level(), 2);
}

#[test]
fn composite_len_counts_elements() {
    assert_eq!(Composite::new(()).len(), 0);
    assert_eq!(Composite::new(Node::base(5)).len(), 1);
    assert_eq!(Composite::new(Node::new(5, Node::new(6, Node::base(7)))).len(), 3);
}

#[test]
fn level_wraps_an_index() {
    let level: Level<u32> = Level::new(3);
    assert_eq!(level.value(), 3);
    let copy = level.clone();
    assert_eq!(copy.value(), 3);
    assert_eq!(level, copy);
}
