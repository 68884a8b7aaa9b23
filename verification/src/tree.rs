use vstd::prelude::*;

verus! {

/// Used to get a box from a [LayoutTree].
///
/// The tree is a memory arena, so a box is named by its position in the
/// arena: a copyable `usize` rather than a reference.
pub type LayoutBoxId = usize;

/// A tree of laid-out boxes. The position of each box is relative to its
/// parent, and a box names its children by their [LayoutBoxId].
///
/// The tree is a memory arena indexed by [LayoutBoxId]: inserting a box
/// appends it, and the id it gets is its index. Boxes are never removed, so
/// an id stays valid, and keeps naming the same box, for the life of the tree.
#[derive(Clone, Debug)]
pub struct LayoutTree<B> {
    pub root: Option<LayoutBoxId>,
    pub boxes: Vec<B>,
}

impl<B> LayoutTree<B> {
    /// The boxes of the tree, in the order they were inserted: the box with id
    /// `i` is at index `i`.
    pub open spec fn spec_boxes(&self) -> Seq<B> {
        self.boxes@
    }

    /// Create a new empty tree: no root and no boxes.
    pub fn new() -> (tree: LayoutTree<B>)
        ensures
            tree.root is None,
            tree.spec_boxes() == Seq::<B>::empty(),
    {
        LayoutTree { root: None, boxes: Vec::new() }
    }

    /// Set the root of the tree. The caller is trusted to pass the id of a box
    /// that is in the tree; the boxes are left as they were.
    pub fn set_root(&mut self, root: Option<LayoutBoxId>)
        ensures
            final(self).root == root,
            final(self).spec_boxes() == old(self).spec_boxes(),
    {
        self.root = root;
    }

    /// Insert a box into the tree and get the id to fetch it again later. The
    /// id is the number of boxes that were in the tree before; the boxes that
    /// were there keep their ids, and the root is unchanged.
    pub fn insert(&mut self, lbox: B) -> (id: LayoutBoxId)
        ensures
            id == old(self).spec_boxes().len(),
            final(self).spec_boxes() == old(self).spec_boxes().push(lbox),
            final(self).root == old(self).root,
    {
        self.boxes.push(lbox);
        self.boxes.len() - 1
    }

    /// Get a reference to the box named by `id`, or `None` when no box has
    /// that id.
    pub fn get(&self, id: LayoutBoxId) -> (r: Option<&B>)
        ensures
            id < self.spec_boxes().len() ==> r == Some(&self.spec_boxes()[id as int]),
            id >= self.spec_boxes().len() ==> r is None,
    {
        if id < self.boxes.len() {
            Some(&self.boxes[id])
        } else {
            None
        }
    }
}

impl<B> Default for LayoutTree<B> {
    /// The empty tree.
    fn default() -> (tree: LayoutTree<B>)
        ensures
            tree.root is None,
            tree.spec_boxes() == Seq::<B>::empty(),
    {
        LayoutTree::new()
    }
}

/// Inserting a box and then getting the id that the insertion returned gives
/// back that box: `before` is the tree before [LayoutTree::insert], `after`
/// the tree after it, and `id` what the insertion returned.
pub proof fn lemma_get_after_insert<B>(
    before: LayoutTree<B>,
    after: LayoutTree<B>,
    lbox: B,
    id: LayoutBoxId,
)
    requires
        id == before.spec_boxes().len(),
        after.spec_boxes() == before.spec_boxes().push(lbox),
    ensures
        id < after.spec_boxes().len(),
        after.spec_boxes()[id as int] == lbox,
{
}

/// Inserting a box leaves every earlier box under the id it had before, so a
/// [LayoutTree::get] of that id gives the same box after the insertion as
/// before it.
pub proof fn lemma_insert_keeps_ids<B>(
    before: LayoutTree<B>,
    after: LayoutTree<B>,
    lbox: B,
    other: LayoutBoxId,
)
    requires
        after.spec_boxes() == before.spec_boxes().push(lbox),
        other < before.spec_boxes().len(),
    ensures
        other < after.spec_boxes().len(),
        after.spec_boxes()[other as int] == before.spec_boxes()[other as int],
{
}

} // verus!
