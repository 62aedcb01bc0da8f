//! What is read from the chain, as plain values: addresses, hashes,
//! transactions, block headers, log entries and the answers to the round
//! manager's constants.

use crate::uint256::Uint256;
use vstd::prelude::*;

verus! {

/// Whether two byte arrays of one length hold the same bytes.
pub fn bytes_equal<const N: usize>(left: &[u8; N], right: &[u8; N]) -> (same: bool)
    ensures
        same == (left@ == right@),
{
    let mut index: usize = 0;
    while index < N
        invariant
            index <= N,
            forall|j: int| 0 <= j < index ==> left@[j] == right@[j],
        decreases N - index,
    {
        if left[index] != right[index] {
            return false;
        }
        index = index + 1;
    }
    assert(left@ =~= right@);
    true
}

/// A 20-byte account address.
#[derive(Clone, Copy, Debug, PartialEq, Eq)]
pub struct Address {
    /// The bytes, first byte first.
    pub bytes: [u8; 20],
}

impl View for Address {
    type V = Seq<u8>;

    open spec fn view(&self) -> Seq<u8> {
        self.bytes@
    }
}

impl Address {
    /// The address with the given bytes.
    pub fn from_bytes(bytes: [u8; 20]) -> (address: Address)
        ensures
            address@ == bytes@,
            address.bytes == bytes,
    {
        Address { bytes }
    }

    /// Whether this is the same address as `other`.
    pub fn same_as(&self, other: &Address) -> (same: bool)
        ensures
            same == (self@ == other@),
    {
        bytes_equal(&self.bytes, &other.bytes)
    }
}

/// A 32-byte hash of a block or of a transaction.
#[derive(Clone, Copy, Debug, PartialEq, Eq)]
pub struct Hash256 {
    /// The bytes, first byte first.
    pub bytes: [u8; 32],
}

impl View for Hash256 {
    type V = Seq<u8>;

    open spec fn view(&self) -> Seq<u8> {
        self.bytes@
    }
}

impl Hash256 {
    /// The hash with the given bytes.
    pub fn from_bytes(bytes: [u8; 32]) -> (hash: Hash256)
        ensures
            hash@ == bytes@,
            hash.bytes == bytes,
    {
        Hash256 { bytes }
    }

    /// Whether this is the same hash as `other`.
    pub fn same_as(&self, other: &Hash256) -> (same: bool)
        ensures
            same == (self@ == other@),
    {
        bytes_equal(&self.bytes, &other.bytes)
    }
}

/// The view of an optional address.
pub open spec fn optional_address_view(address: Option<Address>) -> Option<Seq<u8>> {
    match address {
        Some(a) => Some(a@),
        None => None,
    }
}

/// The view of an optional hash.
pub open spec fn optional_hash_view(hash: Option<Hash256>) -> Option<Seq<u8>> {
    match hash {
        Some(h) => Some(h@),
        None => None,
    }
}

/// A transaction as the contracts see it.
pub struct TransactionView {
    pub hash: Seq<u8>,
    pub from: Seq<u8>,
    pub to: Option<Seq<u8>>,
    pub value: nat,
    pub gas: nat,
}

/// An observed transaction of interest. It lives for one evaluation.
#[derive(Clone, Copy, Debug, PartialEq, Eq)]
pub struct CandidateTransaction {
    /// The transaction's hash.
    pub hash: Hash256,
    /// The sender.
    pub from: Address,
    /// The recipient; none where the transaction creates a contract.
    pub to: Option<Address>,
    /// The token amount transferred.
    pub value: Uint256,
    /// The gas provided.
    pub gas: Uint256,
}

impl View for CandidateTransaction {
    type V = TransactionView;

    open spec fn view(&self) -> TransactionView {
        TransactionView {
            hash: self.hash@,
            from: self.from@,
            to: optional_address_view(self.to),
            value: self.value@,
            gas: self.gas@,
        }
    }
}

/// The views of a list of transactions, in the list's order.
pub open spec fn transaction_views(transactions: Seq<CandidateTransaction>) -> Seq<
    TransactionView,
> {
    Seq::new(transactions.len(), |i: int| transactions[i]@)
}

/// A block header as the contracts see it.
pub struct BlockView {
    pub block_number: nat,
    pub block_hash: Option<Seq<u8>>,
}

/// A new block header, as one subscription event delivers it.
#[derive(Clone, Copy, Debug, PartialEq, Eq)]
pub struct BlockObservation {
    /// The block's height.
    pub block_number: Uint256,
    /// The block's hash, where the event carries one.
    pub block_hash: Option<Hash256>,
}

impl View for BlockObservation {
    type V = BlockView;

    open spec fn view(&self) -> BlockView {
        BlockView {
            block_number: self.block_number@,
            block_hash: optional_hash_view(self.block_hash),
        }
    }
}

/// The round manager's answers to the three queries that fix a round:
/// `currentRound`, `currentRoundStartBlock` and `roundLength`.
pub struct ReadingView {
    pub current_round: nat,
    pub start_block: nat,
    pub round_length: nat,
}

/// One snapshot of the round manager's state.
#[derive(Clone, Copy, Debug, PartialEq, Eq)]
pub struct ChainReading {
    /// The answer to `currentRound`.
    pub current_round: Uint256,
    /// The answer to `currentRoundStartBlock`.
    pub start_block: Uint256,
    /// The answer to `roundLength`.
    pub round_length: Uint256,
}

impl View for ChainReading {
    type V = ReadingView;

    open spec fn view(&self) -> ReadingView {
        ReadingView {
            current_round: self.current_round@,
            start_block: self.start_block@,
            round_length: self.round_length@,
        }
    }
}

} // verus!
