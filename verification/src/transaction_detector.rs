//! The transaction correlator: from a transaction that a log entry led to, or
//! from the transactions of a new block, it finds the one that may confirm
//! the reward of the round.

use crate::chain::{transaction_views, Address, CandidateTransaction, TransactionView};
use vstd::prelude::*;

verus! {

/// How many times the content of one block is asked for before the block is
/// taken to hold nothing of interest.
pub const FETCH_ATTEMPTS: u8 = 5;

/// Whether a transaction was sent from the address or to it.
pub open spec fn involves(transaction: TransactionView, address: Seq<u8>) -> bool {
    transaction.from == address || transaction.to == Some(address)
}

/// Whether a transaction confirms the reward: it carries a value other than
/// zero. A transaction of value zero is a failed or empty call.
pub open spec fn qualifies(transaction: TransactionView) -> bool {
    transaction.value != 0
}

/// The position of the first transaction that involves the address, if any
/// does.
pub open spec fn first_involving(transactions: Seq<TransactionView>, address: Seq<u8>) -> Option<
    int,
>
    decreases transactions.len(),
{
    if transactions.len() == 0 {
        None
    } else {
        match first_involving(transactions.drop_last(), address) {
            Some(position) => Some(position),
            None => if involves(transactions.last(), address) {
                Some(transactions.len() - 1)
            } else {
                None
            },
        }
    }
}

/// `first_involving` gives the least position of a transaction that involves
/// the address, and nothing exactly when no transaction involves it.
pub proof fn lemma_first_involving(transactions: Seq<TransactionView>, address: Seq<u8>)
    ensures
        match first_involving(transactions, address) {
            Some(position) => {
                &&& 0 <= position < transactions.len()
                &&& involves(transactions[position], address)
                &&& forall|j: int|
                    0 <= j < position ==> !involves(#[trigger] transactions[j], address)
            },
            None => forall|j: int|
                0 <= j < transactions.len() ==> !involves(#[trigger] transactions[j], address),
        },
    decreases transactions.len(),
{
    if transactions.len() > 0 {
        let earlier = transactions.drop_last();
        lemma_first_involving(earlier, address);
        assert forall|j: int| 0 <= j < earlier.len() implies earlier[j] == transactions[j] by {}
        match first_involving(earlier, address) {
            Some(position) => {
                assert forall|j: int| 0 <= j < position implies !involves(
                    #[trigger] transactions[j],
                    address,
                ) by {
                    assert(!involves(earlier[j], address));
                }
            },
            None => {
                assert forall|j: int| 0 <= j < earlier.len() implies !involves(
                    #[trigger] transactions[j],
                    address,
                ) by {
                    assert(!involves(earlier[j], address));
                }
            },
        }
    }
}

/// What one answer to a request for a block's content leads to.
#[derive(Clone, Debug, PartialEq, Eq)]
pub enum FetchStep {
    /// The block's transactions are there.
    Content(Vec<CandidateTransaction>),
    /// Nothing came; ask again.
    Retry,
    /// Nothing came for the last time; no transaction was observed in this
    /// block.
    GiveUp,
}

/// Where the correlator looks for the transaction.
#[derive(Clone, Debug, PartialEq, Eq)]
pub enum Source {
    /// A log entry, with the transaction that its hash resolved to, if it
    /// resolved to one.
    Log(Option<CandidateTransaction>),
    /// A block, with its transactions in the block's order.
    Block(Vec<CandidateTransaction>),
}

/// Finds the transactions of the watched address.
#[derive(Clone, Copy, Debug)]
pub struct TransactionDetector {
    address: Address,
}

impl View for TransactionDetector {
    type V = Seq<u8>;

    /// The watched address.
    closed spec fn view(&self) -> Seq<u8> {
        self.address@
    }
}

impl TransactionDetector {
    /// The detector that watches `address`.
    pub fn new(address: Address) -> (detector: TransactionDetector)
        ensures
            detector@ == address@,
    {
        TransactionDetector { address }
    }

    /// The watched address.
    pub fn address(&self) -> (address: Address)
        ensures
            address@ == self@,
    {
        self.address
    }

    /// Whether a transaction was sent from the watched address or to it.
    pub fn is_involved(&self, transaction: &CandidateTransaction) -> (involved: bool)
        ensures
            involved == involves(transaction@, self@),
    {
        if transaction.from.same_as(&self.address) {
            true
        } else {
            match transaction.to {
                Some(to) => to.same_as(&self.address),
                None => false,
            }
        }
    }

    /// The first transaction of a block, in the block's order, that was sent
    /// from the watched address or to it; none where the block has no such
    /// transaction.
    pub fn contains_reward_transaction(&self, transactions: &Vec<CandidateTransaction>) -> (found:
        Option<CandidateTransaction>)
        ensures
            found == match first_involving(transaction_views(transactions@), self@) {
                Some(position) => Some(transactions@[position]),
                None => None,
            },
    {
        let ghost views = transaction_views(transactions@);
        let mut index: usize = 0;
        while index < transactions.len()
            invariant
                index <= transactions.len(),
                views == transaction_views(transactions@),
                first_involving(views.take(index as int), self@) is None,
            decreases transactions.len() - index,
        {
            let transaction = transactions[index];
            proof {
                assert(views.take(index + 1).drop_last() =~= views.take(index as int));
                assert(views.take(index + 1).last() == transaction@);
            }
            if self.is_involved(&transaction) {
                proof {
                    lemma_first_found_stays(views, self@, index + 1);
                }
                return Some(transaction);
            }
            index = index + 1;
        }
        assert(views.take(index as int) =~= views);
        None
    }

    /// Whether the transaction that a log entry led to confirms the reward.
    /// A log entry that led to no transaction, because it has no hash or
    /// because the chain does not know the transaction yet, confirms nothing.
    pub fn has_valid_transaction_been_made(&self, found: &Option<CandidateTransaction>) -> (valid:
        bool)
        ensures
            valid == match *found {
                Some(transaction) => qualifies(transaction@),
                None => false,
            },
    {
        match found {
            Some(transaction) => !transaction.value.is_zero(),
            None => false,
        }
    }

    /// The transaction of interest in what was observed: the one a log entry
    /// led to, or the first of a block that involves the watched address.
    pub fn correlate(&self, source: &Source) -> (found: Option<CandidateTransaction>)
        ensures
            found == match *source {
                Source::Log(transaction) => transaction,
                Source::Block(transactions) => match first_involving(
                    transaction_views(transactions@),
                    self@,
                ) {
                    Some(position) => Some(transactions@[position]),
                    None => None,
                },
            },
    {
        match source {
            Source::Log(transaction) => *transaction,
            Source::Block(transactions) => self.contains_reward_transaction(transactions),
        }
    }

    /// What to do with the answer to the request number `attempts_made` for
    /// one block's content: take the content where there is one, ask again
    /// while fewer than `FETCH_ATTEMPTS` requests were made, and give the
    /// block up after that.
    pub fn tries_to_get_transaction(
        &self,
        attempts_made: u8,
        content: Option<Vec<CandidateTransaction>>,
    ) -> (step: FetchStep)
        ensures
            step == match content {
                Some(transactions) => FetchStep::Content(transactions),
                None => if attempts_made < FETCH_ATTEMPTS {
                    FetchStep::Retry
                } else {
                    FetchStep::GiveUp
                },
            },
    {
        match content {
            Some(transactions) => FetchStep::Content(transactions),
            None => if attempts_made < FETCH_ATTEMPTS {
                FetchStep::Retry
            } else {
                FetchStep::GiveUp
            },
        }
    }
}

/// Once a prefix of the transactions holds one that involves the address,
/// the whole list has the same first such transaction.
proof fn lemma_first_found_stays(transactions: Seq<TransactionView>, address: Seq<u8>, seen: int)
    requires
        0 <= seen <= transactions.len(),
        first_involving(transactions.take(seen), address) is Some,
    ensures
        first_involving(transactions, address) == first_involving(
            transactions.take(seen),
            address,
        ),
    decreases transactions.len() - seen,
{
    if seen == transactions.len() {
        assert(transactions.take(seen) =~= transactions);
    } else {
        assert(transactions.take(seen + 1).drop_last() =~= transactions.take(seen));
        lemma_first_found_stays(transactions, address, seen + 1);
    }
}

} // verus!
