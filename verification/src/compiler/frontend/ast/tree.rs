//! Labelled trees, drawn by `termtree`: what the syntax-tree printer builds.
use vstd::prelude::*;
use termtree::Tree;

verus! {

/// `termtree::Tree`, a label and its subtrees.
#[verifier::external_type_specification]
#[verifier::external_body]
#[verifier::reject_recursive_types(D)]
pub struct ExTree<D: std::fmt::Display>(Tree<D>);

/// The label of a tree (its `root` field).
pub uninterp spec fn tree_root(t: Tree<String>) -> Seq<char>;

/// The subtrees of a tree (its `leaves` field), in order.
pub uninterp spec fn tree_leaves(t: Tree<String>) -> Seq<Tree<String>>;

/// The text that `termtree` draws for a tree.
pub uninterp spec fn tree_text(t: Tree<String>) -> Seq<char>;

/// Whether every line of a tree's label is indented (its `multiline` field).
pub uninterp spec fn tree_multiline(t: Tree<String>) -> bool;

/// Whether a tree has glyphs of its own (its `glyphs` field is `Some`).
pub uninterp spec fn tree_has_glyphs(t: Tree<String>) -> bool;

/// The default style of a tree: labels on one line each, drawn with the default glyphs.
pub open spec fn default_style(t: Tree<String>) -> bool {
    !tree_multiline(t) && !tree_has_glyphs(t)
}

/// A labelled tree: a label and the subtrees below it, in order.
#[verifier::ext_equal]
pub struct LabelTree {
    pub root: Seq<char>,
    pub leaves: Seq<LabelTree>,
}

/// A tree with label `root` and no subtrees.
pub open spec fn leaf(root: Seq<char>) -> LabelTree {
    LabelTree { root, leaves: Seq::empty() }
}

/// Whether the tree `t` has the labels and the shape of `m`, each node in the default style.
pub open spec fn tree_shows(t: Tree<String>, m: LabelTree) -> bool
    decreases m,
{
    &&& default_style(t)
    &&& tree_root(t) == m.root
    &&& tree_leaves(t).len() == m.leaves.len()
    &&& forall|i: int|
        0 <= i < m.leaves.len() ==> tree_shows(#[trigger] tree_leaves(t)[i], m.leaves[i])
}

/// Calls `Tree::new`, which makes a tree with label `root` and no subtrees, in the
/// default style (`multiline` false, no glyphs of its own).
#[verifier::external_body]
pub(crate) fn tree_new(root: String) -> (t: Tree<String>)
    ensures
        tree_root(t) == root@,
        tree_leaves(t) == Seq::<Tree<String>>::empty(),
        !tree_multiline(t),
        !tree_has_glyphs(t),
{
    Tree::new(root)
}

/// Calls `Tree::push`, which adds `leaf` after the subtrees of `t`; the label and the
/// style stay.
#[verifier::external_body]
pub(crate) fn tree_push(t: &mut Tree<String>, leaf: Tree<String>)
    ensures
        tree_root(*final(t)) == tree_root(*old(t)),
        tree_leaves(*final(t)) == tree_leaves(*old(t)).push(leaf),
        tree_multiline(*final(t)) == tree_multiline(*old(t)),
        tree_has_glyphs(*final(t)) == tree_has_glyphs(*old(t)),
{
    t.push(leaf);
}

/// A copy of the label of `t` (its `root` field).
#[verifier::external_body]
pub(crate) fn tree_label(t: &Tree<String>) -> (s: String)
    ensures
        s@ == tree_root(*t),
{
    t.root.clone()
}

/// Sets the label of `t` (its `root` field); the subtrees and the style stay.
#[verifier::external_body]
pub(crate) fn tree_set_label(t: &mut Tree<String>, root: String)
    ensures
        tree_root(*final(t)) == root@,
        tree_leaves(*final(t)) == tree_leaves(*old(t)),
        tree_multiline(*final(t)) == tree_multiline(*old(t)),
        tree_has_glyphs(*final(t)) == tree_has_glyphs(*old(t)),
{
    t.root = root;
}

/// Moves the subtrees of `other` after those of `t` (`Vec::append` on the `leaves`
/// fields); the label and the style of `t` stay.
#[verifier::external_body]
pub(crate) fn tree_append_leaves(t: &mut Tree<String>, other: Tree<String>)
    ensures
        tree_root(*final(t)) == tree_root(*old(t)),
        tree_leaves(*final(t)) == tree_leaves(*old(t)) + tree_leaves(other),
        tree_multiline(*final(t)) == tree_multiline(*old(t)),
        tree_has_glyphs(*final(t)) == tree_has_glyphs(*old(t)),
{
    let mut other = other;
    t.leaves.append(&mut other.leaves);
}

/// The text that `termtree`'s `Display` draws for `t`.
#[verifier::external_body]
pub(crate) fn tree_render(t: &Tree<String>) -> (s: String)
    ensures
        s@ == tree_text(*t),
{
    format!("{}", t)
}

/// Whether the subtrees of `t` are drawn as `ms` says, one for one.
pub open spec fn shows_leaves(t: Tree<String>, ms: Seq<LabelTree>) -> bool {
    &&& tree_leaves(t).len() == ms.len()
    &&& forall|i: int| 0 <= i < ms.len() ==> tree_shows(#[trigger] tree_leaves(t)[i], ms[i])
}

/// A tree with label `root` and no subtrees.
pub(crate) fn new_shown(root: String) -> (t: Tree<String>)
    ensures
        tree_root(t) == root@,
        shows_leaves(t, Seq::empty()),
        default_style(t),
{
    tree_new(root)
}

/// Adds `leaf`, drawn as `m`, after the subtrees of `t`.
pub(crate) fn push_shown(
    t: &mut Tree<String>,
    leaf: Tree<String>,
    Ghost(ms): Ghost<Seq<LabelTree>>,
    Ghost(m): Ghost<LabelTree>,
)
    requires
        shows_leaves(*old(t), ms),
        tree_shows(leaf, m),
    ensures
        tree_root(*final(t)) == tree_root(*old(t)),
        default_style(*final(t)) == default_style(*old(t)),
        shows_leaves(*final(t), ms.push(m)),
{
    tree_push(t, leaf);
    assert forall|i: int| 0 <= i < ms.len() + 1 implies tree_shows(
        #[trigger] tree_leaves(*t)[i],
        ms.push(m)[i],
    ) by {
        if i < ms.len() {
            assert(tree_leaves(*t)[i] == tree_leaves(*old(t))[i]);
        }
    }
}

/// Moves the subtrees of `other`, drawn as `m`, after those of `t`.
pub(crate) fn append_shown(
    t: &mut Tree<String>,
    other: Tree<String>,
    Ghost(ms): Ghost<Seq<LabelTree>>,
    Ghost(m): Ghost<LabelTree>,
)
    requires
        shows_leaves(*old(t), ms),
        tree_shows(other, m),
    ensures
        tree_root(*final(t)) == tree_root(*old(t)),
        default_style(*final(t)) == default_style(*old(t)),
        shows_leaves(*final(t), ms + m.leaves),
{
    let ghost others = tree_leaves(other);
    tree_append_leaves(t, other);
    assert forall|i: int| 0 <= i < ms.len() + m.leaves.len() implies tree_shows(
        #[trigger] tree_leaves(*t)[i],
        (ms + m.leaves)[i],
    ) by {
        if i < ms.len() {
            assert(tree_leaves(*t)[i] == tree_leaves(*old(t))[i]);
        } else {
            assert(tree_leaves(*t)[i] == others[i - ms.len()]);
        }
    }
}

/// `t`, drawn as `m`, with its label replaced by `root`.
pub(crate) fn relabel(t: Tree<String>, root: String, Ghost(m): Ghost<LabelTree>) -> (r: Tree<String>)
    requires
        tree_shows(t, m),
    ensures
        tree_shows(r, LabelTree { root: root@, leaves: m.leaves }),
{
    let mut r = t;
    tree_set_label(&mut r, root);
    r
}

} // verus!
