//! The module for all possible coins.
use vstd::prelude::*;

verus! {

/// A 32-byte account address.
#[derive(Debug, Copy, Clone, PartialEq, Eq)]
pub struct Address(pub [u8; 32]);

/// A 32-byte identifier of an asset.
#[derive(Debug, Copy, Clone, PartialEq, Eq)]
pub struct AssetId(pub [u8; 32]);

/// The spec-level value of the base asset: every byte is zero.
pub open spec fn base_asset_bytes() -> Seq<u8> {
    Seq::new(32, |i: int| 0u8)
}

impl AssetId {
    /// The base asset of the chain, whose identifier is all zeros.
    pub fn base() -> (r: AssetId)
        ensures
            r.0@ == base_asset_bytes(),
    {
        let r = AssetId([0u8; 32]);
        assert(r.0@ =~= base_asset_bytes());
        r
    }
}

/// The unique `nonce` of a message sent from the DA layer.
#[derive(Debug, Copy, Clone, PartialEq, Eq)]
pub struct Nonce(pub [u8; 32]);

/// The identifier of an unspent transaction output: the id of the
/// transaction that produced it and the index of the output in it.
#[derive(Debug, Copy, Clone, PartialEq, Eq)]
pub struct UtxoId {
    pub tx_id: [u8; 32],
    pub output_index: u16,
}

/// Whether a coin has been spent or not
#[derive(Debug, Copy, Clone, PartialEq, Eq, Structural)]
pub enum CoinStatus {
    /// Coin has not been spent
    Unspent,
    /// Coin has been spent
    Spent,
}

impl Default for CoinStatus {
    fn default() -> (r: CoinStatus)
        ensures
            r == CoinStatus::Spent,
    {
        CoinStatus::Spent
    }
}

/// A regular coin generated by a transaction output.
#[derive(Debug, Copy, Clone, PartialEq, Eq)]
pub struct Coin {
    pub utxo_id: UtxoId,
    pub owner: Address,
    pub amount: u64,
    pub asset_id: AssetId,
    pub maturity: u32,
    pub status: CoinStatus,
    pub block_created: u32,
}

/// A coin bridged from the DA layer; it always holds the base asset.
#[derive(Debug, Copy, Clone, PartialEq, Eq)]
pub struct DepositCoin {
    pub sender: Address,
    pub recipient: Address,
    pub nonce: Nonce,
    pub amount: u64,
    pub da_height: u64,
    pub status: CoinStatus,
}

/// The unique identifier of the coin.
#[derive(Debug, Copy, Clone, PartialEq, Eq)]
pub enum CoinId {
    /// The UTXO id of the regular coin.
    Utxo(UtxoId),
    /// The unique `nonce` of the `DepositCoin`.
    Message(Nonce),
}

impl From<UtxoId> for CoinId {
    fn from(id: UtxoId) -> (r: CoinId) {
        CoinId::Utxo(id)
    }
}

impl vstd::std_specs::convert::FromSpecImpl<UtxoId> for CoinId {
    open spec fn obeys_from_spec() -> bool {
        true
    }

    open spec fn from_spec(id: UtxoId) -> CoinId {
        CoinId::Utxo(id)
    }
}

impl From<Nonce> for CoinId {
    fn from(id: Nonce) -> (r: CoinId) {
        CoinId::Message(id)
    }
}

impl vstd::std_specs::convert::FromSpecImpl<Nonce> for CoinId {
    open spec fn obeys_from_spec() -> bool {
        true
    }

    open spec fn from_spec(id: Nonce) -> CoinId {
        CoinId::Message(id)
    }
}

/// The enum of all kind of coins.
#[derive(Debug, Copy, Clone, PartialEq, Eq)]
pub enum Coins {
    /// The regular coins generated by the transaction output.
    Coin(Coin),
    /// The bridged coin from the DA layer.
    DepositCoin(DepositCoin),
}

impl Coins {
    /// The identifier of the coin: its UTXO id, or the nonce of a deposit.
    pub open spec fn spec_coin_id(self) -> CoinId {
        match self {
            Coins::Coin(coin) => CoinId::Utxo(coin.utxo_id),
            Coins::DepositCoin(coin) => CoinId::Message(coin.nonce),
        }
    }

    /// The owner of the coin: the recipient of a deposit.
    pub open spec fn spec_owner(self) -> Address {
        match self {
            Coins::Coin(coin) => coin.owner,
            Coins::DepositCoin(coin) => coin.recipient,
        }
    }

    pub open spec fn spec_amount(self) -> u64 {
        match self {
            Coins::Coin(coin) => coin.amount,
            Coins::DepositCoin(coin) => coin.amount,
        }
    }

    /// The bytes of the asset held: a deposit always holds the base asset.
    pub open spec fn spec_asset_id(self) -> Seq<u8> {
        match self {
            Coins::Coin(coin) => coin.asset_id.0@,
            Coins::DepositCoin(_) => base_asset_bytes(),
        }
    }

    pub open spec fn spec_status(self) -> CoinStatus {
        match self {
            Coins::Coin(coin) => coin.status,
            Coins::DepositCoin(coin) => coin.status,
        }
    }

    /// Returns the coin unique identifier.
    pub fn coin_id(&self) -> (r: CoinId)
        ensures
            r == self.spec_coin_id(),
    {
        match self {
            Coins::Coin(coin) => CoinId::Utxo(coin.utxo_id),
            Coins::DepositCoin(coin) => CoinId::Message(coin.nonce),
        }
    }

    /// Returns the owner of the coin.
    pub fn owner(&self) -> (r: &Address)
        ensures
            *r == self.spec_owner(),
    {
        match self {
            Coins::Coin(coin) => &coin.owner,
            Coins::DepositCoin(coin) => &coin.recipient,
        }
    }

    /// Returns the amount of the asset held by the coin.
    pub fn amount(&self) -> (r: u64)
        ensures
            r == self.spec_amount(),
    {
        match self {
            Coins::Coin(coin) => coin.amount,
            Coins::DepositCoin(coin) => coin.amount,
        }
    }

    /// Returns the asset held by the coin.
    pub fn asset_id(&self) -> (r: AssetId)
        ensures
            r.0@ == self.spec_asset_id(),
    {
        match self {
            Coins::Coin(coin) => coin.asset_id,
            Coins::DepositCoin(_) => AssetId::base(),
        }
    }

    /// Returns the status of the coin.
    pub fn status(&self) -> (r: CoinStatus)
        ensures
            r == self.spec_status(),
    {
        match self {
            Coins::Coin(coin) => coin.status,
            Coins::DepositCoin(coin) => coin.status,
        }
    }
}

impl From<Coin> for Coins {
    fn from(coin: Coin) -> (r: Coins) {
        Coins::Coin(coin)
    }
}

impl vstd::std_specs::convert::FromSpecImpl<Coin> for Coins {
    open spec fn obeys_from_spec() -> bool {
        true
    }

    open spec fn from_spec(coin: Coin) -> Coins {
        Coins::Coin(coin)
    }
}

impl From<DepositCoin> for Coins {
    fn from(coin: DepositCoin) -> (r: Coins) {
        Coins::DepositCoin(coin)
    }
}

impl vstd::std_specs::convert::FromSpecImpl<DepositCoin> for Coins {
    open spec fn obeys_from_spec() -> bool {
        true
    }

    open spec fn from_spec(coin: DepositCoin) -> Coins {
        Coins::DepositCoin(coin)
    }
}

} // verus!
