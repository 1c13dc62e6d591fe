//! The root of the commitment tree that a note commitment and its
//! authentication path lead to.
use crate::field::Fp;
use crate::hash::{poseidon_hash, poseidon_of, reprs};
use crate::note::{commitment_of, Note};
use vstd::prelude::*;

verus! {

/// The side on which a sibling stands.
#[derive(Clone, Copy, Debug, PartialEq, Eq)]
pub enum LR {
    /// The sibling is the right child.
    R,
    /// The sibling is the left child.
    L,
}

/// The root of a commitment tree.
#[derive(Clone, Copy, Debug, PartialEq, Eq)]
pub struct Anchor(pub Fp);

/// The siblings from a leaf up to the root.
#[derive(Clone, Debug)]
pub struct MerklePath {
    pub merkle_path: Vec<(Fp, LR)>,
}

/// The parent of two nodes.
pub open spec fn combine_of(left: Seq<u8>, right: Seq<u8>) -> Seq<u8> {
    poseidon_of(seq![left, right])
}

/// The node reached from `leaf` after the first `k` steps of `path`.
pub open spec fn root_after(leaf: Seq<u8>, path: Seq<(Fp, LR)>, k: nat) -> Seq<u8>
    decreases k,
{
    if k == 0 {
        leaf
    } else {
        let below = root_after(leaf, path, (k - 1) as nat);
        let (sibling, side) = path[k - 1];
        match side {
            LR::R => combine_of(below, sibling@),
            LR::L => combine_of(sibling@, below),
        }
    }
}

/// The root that a leaf and a whole path lead to.
pub open spec fn root_of(leaf: Seq<u8>, path: Seq<(Fp, LR)>) -> Seq<u8> {
    root_after(leaf, path, path.len())
}

impl MerklePath {
    pub open spec fn wf(&self) -> bool {
        forall|i: int| 0 <= i < self.merkle_path@.len() ==> (#[trigger] self.merkle_path@[i]).0.wf()
    }

    /// A path from its siblings, leaf first.
    pub fn from_path(merkle_path: Vec<(Fp, LR)>) -> (r: MerklePath)
        ensures
            r.merkle_path@ == merkle_path@,
    {
        MerklePath { merkle_path }
    }

    /// The root that the path leads to from a leaf.
    pub fn root(&self, leaf: Fp) -> (r: Anchor)
        requires
            self.wf(),
            leaf.wf(),
        ensures
            r.0.wf(),
            r.0@ == root_of(leaf@, self.merkle_path@),
    {
        let mut node = leaf;
        let mut i: usize = 0;
        while i < self.merkle_path.len()
            invariant
                self.wf(),
                i <= self.merkle_path@.len(),
                node.wf(),
                node@ == root_after(leaf@, self.merkle_path@, i as nat),
            decreases self.merkle_path@.len() - i,
        {
            let (sibling, side) = self.merkle_path[i];
            assert(self.merkle_path@[i as int].0.wf());
            node = match side {
                LR::R => {
                    let h = poseidon_hash([node, sibling]);
                    assert(reprs([node, sibling]) =~= seq![node@, sibling@]);
                    h
                },
                LR::L => {
                    let h = poseidon_hash([sibling, node]);
                    assert(reprs([sibling, node]) =~= seq![sibling@, node@]);
                    h
                },
            };
            i = i + 1;
        }
        Anchor(node)
    }
}

impl Note {
    /// The root that this note's commitment and a path lead to.
    pub fn calculate_root(&self, path: &MerklePath) -> (r: Anchor)
        requires
            self.wf(),
            path.wf(),
        ensures
            r.0.wf(),
            r.0@ == root_of(commitment_of(*self), path.merkle_path@),
    {
        let cm = self.commitment();
        path.root(cm.0)
    }
}

} // verus!
