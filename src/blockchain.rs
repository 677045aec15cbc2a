//! The values that travel through the peer-to-peer port.
use vstd::prelude::*;

verus! {

/// A position in the chain.
#[derive(Debug, Copy, Clone, PartialEq, Eq, Structural)]
pub struct BlockHeight(pub u32);

/// The identifier of a block, used to ask a peer for its transactions.
#[derive(Debug, Copy, Clone, PartialEq, Eq)]
pub struct BlockId(pub [u8; 32]);

/// A transaction, carried as its encoded bytes.
#[derive(Debug, Clone, PartialEq, Eq)]
pub struct Transaction {
    pub bytes: Vec<u8>,
}

/// The fields of a block header that this port reads and writes.
#[derive(Debug, Copy, Clone, PartialEq, Eq)]
pub struct BlockHeader {
    /// The height the header declares.
    pub height: BlockHeight,
    /// The root of the binary Merkle tree over the block's transactions.
    pub transactions_root: [u8; 32],
}

/// The consensus seal of a block.
#[derive(Debug, Copy, Clone, PartialEq, Eq)]
pub enum Consensus {
    /// The seal of the genesis block; the default seal.
    Genesis,
    /// A proof-of-authority signature.
    PoA([u8; 64]),
}

/// An entity paired with the consensus seal that attests it.
#[derive(Debug, Clone, PartialEq, Eq)]
pub struct Sealed<T> {
    pub entity: T,
    pub consensus: Consensus,
}

pub type SealedBlockHeader = Sealed<BlockHeader>;

/// A payload tagged with the identity of the peer that supplied it.
#[derive(Debug, Clone, PartialEq, Eq)]
pub struct SourcePeer<T> {
    pub peer_id: Vec<u8>,
    pub data: T,
}

} // verus!
