//! Tests of the tree of agents.

use neoco::agent::tree::{child_response_text, AgentTree, InsertMode, QueuedMessage};

fn message(text: &str, mode: InsertMode, from: u128) -> QueuedMessage {
    QueuedMessage { content: text.to_string(), mode, from_agent_id: from }
}

#[test]
fn children_and_depth() {
    let mut tree = AgentTree::with_root(1);
    assert_eq!(tree.root_id(), 1);
    assert_eq!(tree.get_agent_depth(1), 0);
    assert_eq!(tree.add_child_with_id(1, 2), 2);
    assert_eq!(tree.add_child_with_id(2, 3), 3);
    assert_eq!(tree.add_child_with_id(1, 4), 4);
    assert_eq!(tree.get_children_count(1), 2);
    assert_eq!(tree.get_children_count(2), 1);
    assert_eq!(tree.get_children_count(9), 0);
    assert_eq!(tree.get_parent_id(3), Some(2));
    assert_eq!(tree.get_parent_id(1), None);
    assert_eq!(tree.get_agent_depth(3), 2);
    assert_eq!(tree.get_agent_depth(4), 1);
    assert_eq!(tree.get_agent_depth(9), 0);
}

#[test]
fn child_of_an_unknown_parent() {
    let mut tree = AgentTree::with_root(1);
    assert!(tree.is_fresh_id(5));
    tree.add_child_with_id(7, 5);
    assert_eq!(tree.get_agent_depth(5), 1);
    assert!(!tree.is_fresh_id(5));
    assert!(!tree.is_fresh_id(7));
}

#[test]
fn new_trees_and_async_children() {
    let mut tree = AgentTree::new();
    let root = tree.root_id();
    let child = tree.add_child_async(root).expect("a new ULID is fresh");
    assert_eq!(tree.get_parent_id(child), Some(root));
    assert_eq!(tree.get_agent_depth(child), 1);
}

#[test]
fn insert_modes() {
    let mut tree = AgentTree::with_root(1);
    assert!(!tree.add_pending_message(1, message("a", InsertMode::Queue, 0)));
    assert!(!tree.add_pending_message(1, message("b", InsertMode::Queue, 0)));
    assert!(tree.add_pending_message(1, message("urgent", InsertMode::Interrupt, 0)));
    assert!(!tree.add_pending_message(1, message("note", InsertMode::Append, 0)));
    assert!(!tree.add_pending_message(9, message("lost", InsertMode::Interrupt, 0)));
    let pending: Vec<String> = tree.drain_pending_messages(1).into_iter().map(|m| m.content).collect();
    assert_eq!(pending, vec!["urgent", "a", "b"]);
    assert!(tree.drain_pending_messages(1).is_empty());
    let history = tree.get_history_messages(1);
    assert_eq!(history.len(), 1);
    assert_eq!(history[0].content, "note");
    tree.clear_history_messages(1);
    assert!(tree.get_history_messages(1).is_empty());
    assert_eq!(InsertMode::default(), InsertMode::Queue);
}

#[test]
fn child_replies_go_to_the_parent() {
    let mut tree = AgentTree::with_root(1);
    let child: u128 = 0x0000_0000_0000_0000_0000_0000_0000_0002;
    tree.add_child_with_id(1, child);
    tree.deliver_child_response(child, "done", InsertMode::Queue);
    let pending = tree.drain_pending_messages(1);
    assert_eq!(pending.len(), 1);
    assert_eq!(pending[0].content, "[from child_00000000000000000000000002] done");
    assert_eq!(pending[0].from_agent_id, child);
    tree.deliver_child_response(1, "root has no parent", InsertMode::Queue);
    assert!(tree.drain_pending_messages(1).is_empty());
}

#[test]
fn child_response_texts() {
    assert_eq!(child_response_text(Ok("fine".to_string())), "fine");
    assert_eq!(child_response_text(Err("broke".to_string())), "Error: broke");
}

#[test]
fn drawn_ids_that_cannot_name_a_new_agent_are_refused() {
    let mut tree = AgentTree::with_root(1);
    assert_eq!(tree.add_child_drawn(1, 2), Some(2));
    assert_eq!(tree.add_child_drawn(1, 1), None);
    assert_eq!(tree.add_child_drawn(1, 2), None);
    assert_eq!(tree.add_child_drawn(2, 2), None);
    assert_eq!(tree.get_children_count(1), 1);
    assert_eq!(tree.add_child_drawn(2, 3), Some(3));
    assert_eq!(tree.get_parent_id(3), Some(2));
    assert_eq!(tree.get_agent_depth(3), 2);
}

#[test]
fn new_tree_has_an_empty_root() {
    let mut tree = AgentTree::new();
    let root = tree.root_id();
    assert_eq!(tree.get_children_count(root), 0);
    assert!(tree.drain_pending_messages(root).is_empty());
    assert!(tree.get_history_messages(root).is_empty());
    let child = tree.add_child_async(root).unwrap();
    assert_eq!(tree.get_parent_id(child), Some(root));
}
