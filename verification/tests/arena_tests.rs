use onnx_optimizer_rs::utils::arena::{Arena, ArenaId};
use onnx_optimizer_rs::NodeId;

struct MockNode {
    value: i32,
}

impl MockNode {
    fn new(value: i32) -> Self {
        MockNode { value }
    }
}

#[test]
fn test_arena_alloc_and_get() {
    let mut arena = Arena::<MockNode, NodeId>::new();

    let id = arena.allocate(MockNode::new(42));
    let node = arena.get(id).unwrap();

    assert_eq!(node.value, 42);
}

#[test]
fn test_arena_reuse_vacant_slot() {
    let mut arena = Arena::<MockNode, NodeId>::new();

    let id1 = arena.allocate(MockNode::new(1));
    let _id2 = arena.allocate(MockNode::new(2));

    // vacate id1's slot
    arena.free(id1);

    let id3 = arena.allocate(MockNode::new(3));

    // id3 should reuse id1's index
    assert_eq!(id3.into_u32(), id1.into_u32());
    let node3 = arena.get(id3).unwrap();
    assert_eq!(node3.value, 3);
}

#[test]
fn test_free_arena() {
    let mut arena = Arena::<MockNode, NodeId>::new();

    let id = arena.allocate(MockNode::new(42));
    assert_eq!(arena.len(), 1);

    // free occupied slot
    let value = arena.free(id).unwrap();
    assert_eq!(value.value, 42);
    assert_eq!(arena.len(), 0);

    let value = arena.free(id);
    assert!(value.is_none());
}

#[test]
fn arena_indices_are_sequential_until_a_slot_is_freed() {
    let mut arena = Arena::<MockNode, NodeId>::with_capacity(4);
    assert!(arena.is_empty());
    let a = arena.allocate(MockNode::new(10));
    let b = arena.allocate(MockNode::new(20));
    let c = arena.allocate(MockNode::new(30));
    assert_eq!((a.0, b.0, c.0), (0, 1, 2));
    assert_eq!(arena.free(b).map(|n| n.value), Some(20));
    assert!(arena.get(b).is_none());
    // a freed slot is reused before the arena grows
    let d = arena.allocate(MockNode::new(40));
    assert_eq!(d.0, 1);
    let e = arena.allocate(MockNode::new(50));
    assert_eq!(e.0, 3);
    assert_eq!(arena.len(), 4);
}

#[test]
fn arena_get_mut_changes_the_stored_object() {
    let mut arena = Arena::<MockNode, NodeId>::new();
    let id = arena.allocate(MockNode::new(1));
    if let Some(n) = arena.get_mut(id) {
        n.value = 7;
    }
    assert_eq!(arena.get(id).unwrap().value, 7);
    assert!(arena.get_mut(NodeId(5)).is_none());
}

#[test]
fn arena_iter_walks_live_objects_in_index_order() {
    let mut arena = Arena::<MockNode, NodeId>::new();
    let a = arena.allocate(MockNode::new(1));
    let b = arena.allocate(MockNode::new(2));
    let _c = arena.allocate(MockNode::new(3));
    arena.free(b);
    let mut it = arena.iter();
    let mut seen = Vec::new();
    while let Some((i, n)) = it.next() {
        seen.push((i, n.value));
    }
    assert_eq!(seen, vec![(a.0, 1), (2, 3)]);
}

#[test]
fn arena_iter_mut_changes_objects_in_place() {
    let mut arena = Arena::<MockNode, NodeId>::new();
    let a = arena.allocate(MockNode::new(1));
    let b = arena.allocate(MockNode::new(2));
    let c = arena.allocate(MockNode::new(3));
    arena.free(b);
    let mut visited = Vec::new();
    {
        let mut it = arena.iter_mut();
        while let Some((i, n)) = it.next() {
            visited.push(i);
            n.value *= 10;
        }
    }
    assert_eq!(visited, vec![a.0, c.0]);
    assert_eq!(arena.get(a).unwrap().value, 10);
    assert_eq!(arena.get(c).unwrap().value, 30);
    assert!(arena.get(b).is_none());
}

#[test]
fn arena_len_counts_live_ids() {
    let mut arena = Arena::<MockNode, NodeId>::new();
    let a = arena.allocate(MockNode::new(1));
    let b = arena.allocate(MockNode::new(2));
    let c = arena.allocate(MockNode::new(3));
    assert!(arena.free(b).is_some());
    assert_eq!(arena.len(), 2);
    let live = [a, b, c].iter().filter(|id| arena.get(**id).is_some()).count();
    assert_eq!(arena.len(), live);
    let mut walked = 0;
    let mut it = arena.iter();
    while let Some(_) = it.next() {
        walked += 1;
    }
    assert_eq!(walked, 2);
    assert!(arena.free(a).is_some() && arena.free(c).is_some());
    assert_eq!(arena.len(), 0);
    assert!(arena.is_empty());
}
