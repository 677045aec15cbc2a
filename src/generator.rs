//! A deterministic, always-answering delegate for the peer-to-peer port.
use vstd::prelude::*;
use crate::blockchain::{
    BlockHeader, BlockHeight, BlockId, Consensus, Sealed, SealedBlockHeader, SourcePeer,
    Transaction,
};

verus! {

/// The root of fuel-merkle's binary Merkle tree over the given leaves.
pub uninterp spec fn binary_merkle_root(leaves: Seq<Seq<u8>>) -> Seq<u8>;

/// Relies on fuel_merkle::binary::in_memory::MerkleTree: `new` builds a tree
/// with no leaves and `root` returns that tree's root.
#[verifier::external_body]
fn empty_tree_root() -> (r: [u8; 32])
    ensures
        r@ == binary_merkle_root(Seq::empty()),
{
    let tree = fuel_merkle::binary::in_memory::MerkleTree::new();
    tree.root()
}

/// What the generator answers for `height`: a default header that declares
/// `height`, whose transactions root is that of an empty block body, under
/// the default seal and from a peer with an empty identity.
pub open spec fn is_empty_header(r: SourcePeer<SealedBlockHeader>, height: BlockHeight) -> bool {
    &&& r.peer_id@ == Seq::<u8>::empty()
    &&& r.data.entity.height == height
    &&& r.data.entity.transactions_root@ == binary_merkle_root(Seq::empty())
    &&& r.data.consensus == Consensus::Genesis
}

/// Builds the header the generator answers for `h`.
pub fn empty_header(h: BlockHeight) -> (r: SourcePeer<SealedBlockHeader>)
    ensures
        is_empty_header(r, h),
{
    let header = BlockHeader { height: h, transactions_root: empty_tree_root() };
    let sealed = Sealed { entity: header, consensus: Consensus::Genesis };
    SourcePeer { peer_id: Vec::new(), data: sealed }
}

/// A stand-in peer that knows every height and has no transactions.
#[derive(Debug, Copy, Clone)]
pub struct SyntheticPeerToPeerPort;

impl SyntheticPeerToPeerPort {
    pub fn new() -> (r: SyntheticPeerToPeerPort) {
        SyntheticPeerToPeerPort
    }

    /// Always present: the empty header declaring `height`.
    pub fn get_sealed_block_header(&self, height: BlockHeight) -> (r: Option<
        SourcePeer<SealedBlockHeader>,
    >)
        ensures
            r is Some,
            is_empty_header(r->Some_0, height),
    {
        Some(empty_header(height))
    }

    /// Always present and empty, whatever block is asked for.
    pub fn get_transactions(&self, block_id: &SourcePeer<BlockId>) -> (r: Option<Vec<Transaction>>)
        ensures
            r is Some,
            r->Some_0@.len() == 0,
    {
        Some(Vec::new())
    }
}

} // verus!
