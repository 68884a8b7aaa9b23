use wasm_ui::{LayoutBoxId, LayoutTree};

#[test]
fn new_tree_is_empty() {
    let tree: LayoutTree<&str> = LayoutTree::new();
    assert_eq!(tree.root, None);
    assert!(tree.boxes.is_empty());
    assert_eq!(tree.get(0), None);
    let default: LayoutTree<&str> = LayoutTree::default();
    assert_eq!(default.root, None);
    assert!(default.boxes.is_empty());
}

#[test]
fn insert_returns_consecutive_ids() {
    let mut tree = LayoutTree::new();
    let a: LayoutBoxId = tree.insert("a");
    let b: LayoutBoxId = tree.insert("b");
    let c: LayoutBoxId = tree.insert("c");
    assert_eq!((a, b, c), (0, 1, 2));
    assert_eq!(tree.boxes, vec!["a", "b", "c"]);
}

#[test]
fn get_after_insert_gives_the_box_back() {
    let mut tree = LayoutTree::new();
    let id = tree.insert(41);
    assert_eq!(tree.get(id), Some(&41));
    let other = tree.insert(42);
    assert_eq!(tree.get(id), Some(&41));
    assert_eq!(tree.get(other), Some(&42));
    assert_eq!(tree.get(other + 1), None);
}

#[test]
fn set_root_keeps_the_boxes() {
    let mut tree = LayoutTree::new();
    let id = tree.insert('x');
    tree.set_root(Some(id));
    assert_eq!(tree.root, Some(0));
    assert_eq!(tree.get(id), Some(&'x'));
    let id2 = tree.insert('y');
    assert_eq!(tree.root, Some(0));
    tree.set_root(Some(id2));
    assert_eq!(tree.root, Some(1));
    tree.set_root(None);
    assert_eq!(tree.root, None);
    assert_eq!(tree.boxes.len(), 2);
}
