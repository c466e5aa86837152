//! A depth-bounded binary tree with a breadth-filling insertion policy and a
//! recursive sum over all reachable values.
//!
//! A [`Node`] owns its two child slots exclusively; dropping a node drops its
//! whole subtree. [`Node::add_node`] attaches a new subtree at the first free
//! slot found by the fill policy (left slot first, then right slot, then
//! descend into the left child), refusing once the depth counter passes
//! [`MAX_LEVEL`]. [`Node::sum`] folds the values of a subtree with integer
//! addition.

use vstd::prelude::*;

verus! {

/// Largest value of the insertion depth counter at which `add_node` may still
/// attach a node. The counter starts at 1 at the insertion root, so at most
/// `MAX_LEVEL + 1` levels of nodes ever hold children placed by `add_node`.
pub const MAX_LEVEL: usize = 2;

/// A child slot: either an exclusively owned subtree or empty.
pub enum Leaf<T> {
    Item(Box<Node<T>>),
    Empty,
}

/// One tree vertex: a payload and two independent child slots.
pub struct Node<T> {
    pub value: T,
    pub left: Leaf<T>,
    pub right: Leaf<T>,
}

/// One step of a path through the tree: into the left or the right slot.
#[derive(Clone, Copy, Debug, PartialEq, Eq, Structural)]
pub enum Side {
    Left,
    Right,
}

/// The one failure `add_node` knows: the depth counter passed `MAX_LEVEL`
/// before a free slot was found.
#[derive(Clone, Copy, Debug, PartialEq, Eq, Structural)]
pub enum ErrorKind {
    DepthExceeded,
}

impl ErrorKind {
    /// The human-readable message for this error.
    pub fn message(&self) -> (s: String)
        ensures
            s@ == "Max iteration achieved"@,
    {
        "Max iteration achieved".to_string()
    }
}

impl<T> Node<T> {
    /// What `add_node` does, as a function on trees: `None` when the depth
    /// counter passes `MAX_LEVEL` before a free slot is found, otherwise the
    /// tree with `node` attached at the first free slot on the fill path
    /// (left slot, then right slot, then descend into the left child).
    pub open spec fn spec_insert(self, node: Node<T>, iteration: nat) -> Option<Node<T>>
        decreases MAX_LEVEL as int + 1 - iteration,
    {
        if iteration > MAX_LEVEL as nat {
            None
        } else if self.left is Empty {
            Some(Node { value: self.value, left: Leaf::Item(Box::new(node)), right: self.right })
        } else if self.right is Empty {
            Some(Node { value: self.value, left: self.left, right: Leaf::Item(Box::new(node)) })
        } else {
            match self.left {
                Leaf::Item(child) => match child.spec_insert(node, iteration + 1) {
                    Some(sub) => Some(
                        Node {
                            value: self.value,
                            left: Leaf::Item(Box::new(sub)),
                            right: self.right,
                        },
                    ),
                    None => None,
                },
                Leaf::Empty => None,
            }
        }
    }

    /// How many nodes along the left spine, starting here, already have both
    /// child slots occupied. The fill policy must walk past exactly these
    /// nodes before it finds a free slot.
    pub open spec fn left_fill_depth(self) -> nat
        decreases self,
    {
        if self.left is Empty || self.right is Empty {
            0
        } else {
            match self.left {
                Leaf::Item(child) => 1 + child.left_fill_depth(),
                Leaf::Empty => 0,
            }
        }
    }

    /// The path along which the fill policy places the next node, ignoring
    /// the depth bound: left slot first, then right slot, then down into the
    /// left child.
    pub open spec fn fill_path(self) -> Seq<Side>
        decreases self,
    {
        if self.left is Empty {
            seq![Side::Left]
        } else if self.right is Empty {
            seq![Side::Right]
        } else {
            match self.left {
                Leaf::Item(child) => seq![Side::Left] + child.fill_path(),
                Leaf::Empty => Seq::empty(),
            }
        }
    }

    /// The subtree reached by following `path` from this node, if every step
    /// of the path finds an occupied slot.
    pub open spec fn subtree_at(self, path: Seq<Side>) -> Option<Node<T>>
        decreases path.len(),
    {
        if path.len() == 0 {
            Some(self)
        } else {
            let slot = if path[0] is Left {
                self.left
            } else {
                self.right
            };
            match slot {
                Leaf::Item(child) => child.subtree_at(path.skip(1)),
                Leaf::Empty => None,
            }
        }
    }

    /// Creates a node with both child slots empty.
    pub fn new(value: T) -> (n: Node<T>)
        ensures
            n.value == value,
            n.left is Empty,
            n.right is Empty,
    {
        Node { value, left: Leaf::Empty, right: Leaf::Empty }
    }

    /// The recursive worker behind `add_node`: attaches `node` at the first
    /// free slot on the fill path, counting depth from `iteration`.
    pub fn _add_node(&mut self, node: Box<Node<T>>, iteration: usize) -> (r: Result<
        (),
        ErrorKind,
    >)
        ensures
            match old(self).spec_insert(*node, iteration as nat) {
                Some(t) => r == Ok::<(), ErrorKind>(()) && *final(self) == t,
                None => r == Err::<(), ErrorKind>(ErrorKind::DepthExceeded) && *final(self) == *old(
                    self,
                ),
            },
        decreases MAX_LEVEL as int + 1 - iteration as int,
    {
        if iteration > MAX_LEVEL {
            return Err(ErrorKind::DepthExceeded);
        }
        if let Leaf::Empty = self.left {
            self.left = Leaf::Item(node);
            return Ok(());
        }
        if let Leaf::Empty = self.right {
            self.right = Leaf::Item(node);
            return Ok(());
        }
        let mut taken: Leaf<T> = Leaf::Empty;
        core::mem::swap(&mut taken, &mut self.left);
        match taken {
            Leaf::Item(mut child) => {
                let r = (&mut *child)._add_node(node, iteration + 1);
                self.left = Leaf::Item(child);
                r
            },
            // both slots were checked to be occupied above
            Leaf::Empty => vstd::pervasive::unreached(),
        }
    }

    /// Attaches `node` (a fully formed, exclusively owned subtree) at the
    /// first free slot found by the fill policy, or fails with
    /// `DepthExceeded` once the depth counter passes `MAX_LEVEL`, leaving the
    /// tree unchanged.
    pub fn add_node(&mut self, node: Box<Node<T>>) -> (r: Result<(), ErrorKind>)
        ensures
            match old(self).spec_insert(*node, 1) {
                Some(t) => r == Ok::<(), ErrorKind>(()) && *final(self) == t,
                None => r == Err::<(), ErrorKind>(ErrorKind::DepthExceeded) && *final(self) == *old(
                    self,
                ),
            },
    {
        self._add_node(node, 1)
    }
}

/// Law: with the depth counter at `iteration`, insertion succeeds exactly
/// when the filled stretch of the left spine still leaves a free slot within
/// the depth bound; and on success the new node stands at the end of the
/// fill path (left slot first, then right slot, then descend left).
pub proof fn lemma_add_node_fill_policy<T>(tree: Node<T>, node: Node<T>, iteration: nat)
    ensures
        tree.spec_insert(node, iteration) is Some <==> iteration + tree.left_fill_depth()
            <= MAX_LEVEL as nat,
        tree.spec_insert(node, iteration) is Some ==> tree.spec_insert(
            node,
            iteration,
        )->Some_0.subtree_at(tree.fill_path()) == Some(node),
    decreases tree,
{
    if iteration > MAX_LEVEL as nat {
        // no slot is within reach of the bound
    } else if tree.left is Empty || tree.right is Empty {
        // the node lands in a direct slot, at the end of a one-step path
        let result = tree.spec_insert(node, iteration)->Some_0;
        let path = tree.fill_path();
        assert(path.len() == 1);
        assert(node.subtree_at(path.skip(1)) == Some(node));
    } else {
        match tree.left {
            Leaf::Item(child) => {
                lemma_add_node_fill_policy(*child, node, iteration + 1);
                if child.spec_insert(node, iteration + 1) is Some {
                    let sub = child.spec_insert(node, iteration + 1)->Some_0;
                    let result = tree.spec_insert(node, iteration)->Some_0;
                    let path = tree.fill_path();
                    assert(path[0] is Left);
                    assert(path.skip(1) =~= child.fill_path());
                    assert(result.subtree_at(path) == sub.subtree_at(path.skip(1)));
                }
            },
            Leaf::Empty => {},
        }
    }
}

impl Node<i64> {
    /// The mathematical sum of all values reachable from this node: the
    /// node's own value plus the sums of its non-empty subtrees. An empty
    /// slot contributes nothing.
    pub open spec fn spec_sum(self) -> int
        decreases self,
    {
        self.value as int + (match self.left {
            Leaf::Item(child) => child.spec_sum(),
            Leaf::Empty => 0,
        }) + (match self.right {
            Leaf::Item(child) => child.spec_sum(),
            Leaf::Empty => 0,
        })
    }

    /// Whether `sum` can fold this subtree without leaving the range of
    /// `i64`: every subtree's sum, and the running total after the left
    /// subtree has been added, stay in range.
    pub open spec fn sum_fits(self) -> bool
        decreases self,
    {
        let left_sum: int = match self.left {
            Leaf::Item(child) => child.spec_sum(),
            Leaf::Empty => 0,
        };
        &&& (match self.left {
            Leaf::Item(child) => child.sum_fits(),
            Leaf::Empty => true,
        })
        &&& (match self.right {
            Leaf::Item(child) => child.sum_fits(),
            Leaf::Empty => true,
        })
        &&& i64::MIN <= self.value as int + left_sum <= i64::MAX
        &&& i64::MIN <= self.spec_sum() <= i64::MAX
    }

    /// The additive fold of this subtree, callable on any subtree root.
    /// Read-only: the result is a function of the tree alone.
    pub fn sum(&self) -> (total: i64)
        requires
            self.sum_fits(),
        ensures
            total == self.spec_sum(),
        decreases *self,
    {
        let mut total = self.value;
        if let Leaf::Item(item) = &self.left {
            total = total + item.sum();
        }
        if let Leaf::Item(item) = &self.right {
            total = total + item.sum();
        }
        total
    }

    /// Like `sum`, but total for every tree: returns `None` exactly when
    /// some intermediate of the fold would leave the range of `i64`.
    pub fn checked_sum(&self) -> (r: Option<i64>)
        ensures
            match r {
                Some(total) => self.sum_fits() && total == self.spec_sum(),
                None => !self.sum_fits(),
            },
        decreases *self,
    {
        let mut total = self.value;
        if let Leaf::Item(item) = &self.left {
            match item.checked_sum() {
                Some(left_total) => match total.checked_add(left_total) {
                    Some(t) => {
                        total = t;
                    },
                    None => {
                        return None;
                    },
                },
                None => {
                    return None;
                },
            }
        }
        if let Leaf::Item(item) = &self.right {
            match item.checked_sum() {
                Some(right_total) => match total.checked_add(right_total) {
                    Some(t) => {
                        total = t;
                    },
                    None => {
                        return None;
                    },
                },
                None => {
                    return None;
                },
            }
        }
        Some(total)
    }
}

} // verus!
