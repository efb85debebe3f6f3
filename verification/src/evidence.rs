//! What a verification asks of its host, and what the host has answered.

use vstd::prelude::*;
use crate::error::Error;
use crate::kv::KVMap;
use crate::types::{digests, Account, AccountProof, CapacityChanges};

verus! {

/// A question to the host, with everything that the answer depends on.
pub enum Query<'a> {
    /// The capacity that the transaction takes in and gives out.
    Capacities,
    /// Whether an account with this balance of the native token may act as aggregator.
    Aggregator { account: &'a Account, balance: u64 },
    /// Whether the account, with its tokens, stands at `account_index` in the
    /// tree with this root.
    AccountRoot {
        account_index: u32,
        account: &'a Account,
        token_kv: &'a KVMap,
        account_proof: &'a AccountProof,
        root: [u8; 32],
    },
    /// Whether the signature on the message is by the key with this hash.
    Signature { signature: [u8; 65], message: [u8; 32], pubkey_hash: [u8; 20] },
    /// The merkle root over the hashes of the transactions.
    TxRoot { tx_hashes: Vec<[u8; 32]> },
    /// The block root that follows from one block, by its index, and a merkle proof.
    BlockRoot { block_index: u64, block_hash: [u8; 32], block_count: u64, proof: &'a Vec<[u8; 32]> },
    /// The block root after a further block, by the merkle proof of the last one. The last block
    /// is given by its number and hash; the first block has none before it.
    NewBlockRoot {
        last_block: Option<(u64, [u8; 32])>,
        block_hash: [u8; 32],
        block_number: u64,
        block_count: u64,
        proof: &'a Vec<[u8; 32]>,
    },
}

/// What a [`Query`] holds.
pub enum QueryView {
    Capacities,
    Aggregator { account: Account, balance: u64 },
    AccountRoot {
        account_index: u32,
        account: Account,
        token_kv: KVMap,
        account_proof: AccountProof,
        root: Seq<u8>,
    },
    Signature { signature: Seq<u8>, message: Seq<u8>, pubkey_hash: Seq<u8> },
    TxRoot { tx_hashes: Seq<Seq<u8>> },
    BlockRoot { block_index: u64, block_hash: Seq<u8>, block_count: u64, proof: Seq<Seq<u8>> },
    NewBlockRoot {
        last_block: Option<(u64, Seq<u8>)>,
        block_hash: Seq<u8>,
        block_number: u64,
        block_count: u64,
        proof: Seq<Seq<u8>>,
    },
}

impl QueryView {
    /// Whether two questions ask for the same thing, though perhaps on different grounds.
    pub open spec fn same_kind(self, other: QueryView) -> bool {
        ||| self is Capacities && other is Capacities
        ||| self is Aggregator && other is Aggregator
        ||| self is AccountRoot && other is AccountRoot
        ||| self is Signature && other is Signature
        ||| self is TxRoot && other is TxRoot
        ||| self is BlockRoot && other is BlockRoot
        ||| self is NewBlockRoot && other is NewBlockRoot
    }
}

impl<'a> View for Query<'a> {
    type V = QueryView;

    open spec fn view(&self) -> QueryView {
        match *self {
            Query::Capacities => QueryView::Capacities,
            Query::Aggregator { account, balance } => QueryView::Aggregator {
                account: *account,
                balance,
            },
            Query::AccountRoot { account_index, account, token_kv, account_proof, root } =>
                QueryView::AccountRoot {
                account_index,
                account: *account,
                token_kv: *token_kv,
                account_proof: *account_proof,
                root: root@,
            },
            Query::Signature { signature, message, pubkey_hash } => QueryView::Signature {
                signature: signature@,
                message: message@,
                pubkey_hash: pubkey_hash@,
            },
            Query::TxRoot { tx_hashes } => QueryView::TxRoot { tx_hashes: digests(tx_hashes@) },
            Query::BlockRoot { block_index, block_hash, block_count, proof } => QueryView::BlockRoot {
                block_index,
                block_hash: block_hash@,
                block_count,
                proof: digests(proof@),
            },
            Query::NewBlockRoot {
                last_block,
                block_hash,
                block_number,
                block_count,
                proof,
            } => QueryView::NewBlockRoot {
                last_block: match last_block {
                    Some((number, hash)) => Some((number, hash@)),
                    None => None,
                },
                block_hash: block_hash@,
                block_number,
                block_count,
                proof: digests(proof@),
            },
        }
    }
}

/// How far a verification has come.
pub enum Outcome<'a> {
    /// It is over: the submission is accepted, or refused for a reason.
    Decided(Result<(), Error>),
    /// It goes on once this question is answered.
    Needs(Query<'a>),
}

/// What an [`Outcome`] holds.
pub enum OutcomeView {
    Decided(Result<(), Error>),
    Needs(QueryView),
}

impl<'a> View for Outcome<'a> {
    type V = OutcomeView;

    open spec fn view(&self) -> OutcomeView {
        match *self {
            Outcome::Decided(result) => OutcomeView::Decided(result),
            Outcome::Needs(query) => OutcomeView::Needs(query@),
        }
    }
}

impl<'a> Outcome<'a> {
    /// Whether the checks so far are over and all passed.
    pub fn passed(&self) -> (yes: bool)
        ensures
            yes == self@.passed(),
            yes == (self matches Outcome::Decided(Ok(_))),
    {
        match self {
            Outcome::Decided(Ok(())) => true,
            Outcome::Decided(Err(_)) => false,
            Outcome::Needs(_) => false,
        }
    }
}

impl OutcomeView {
    /// Whether the checks are over and all passed.
    pub open spec fn passed(self) -> bool {
        self is Decided && self->Decided_0 is Ok
    }

    /// The outcome of two checks of which the second is made once the first has passed.
    pub open spec fn and_next(self, next: OutcomeView) -> OutcomeView {
        if self.passed() {
            next
        } else {
            self
        }
    }

    /// Passed if `holds`, and refused with `error` otherwise.
    pub open spec fn check(holds: bool, error: Error) -> OutcomeView {
        if holds {
            OutcomeView::Decided(Ok(()))
        } else {
            OutcomeView::Decided(Err(error))
        }
    }
}

/// The host's answers so far, one for each kind of [`Query`].
#[derive(Debug, Clone, Copy)]
pub struct Evidence {
    pub capacities: Option<CapacityChanges>,
    pub aggregator: Option<Result<(), Error>>,
    pub account_root: Option<Result<(), Error>>,
    /// Whether the signature is valid.
    pub signature: Option<bool>,
    pub tx_root: Option<[u8; 32]>,
    /// The computed root, or that the proof is unusable.
    pub block_root: Option<Result<[u8; 32], ()>>,
    /// The computed root, or that the proof is unusable.
    pub new_block_root: Option<Result<[u8; 32], ()>>,
}

impl Evidence {
    /// No answer at all.
    pub open spec fn none() -> Evidence {
        Evidence {
            capacities: None,
            aggregator: None,
            account_root: None,
            signature: None,
            tx_root: None,
            block_root: None,
            new_block_root: None,
        }
    }

    /// No answer at all.
    pub fn new() -> (known: Self)
        ensures
            known == Evidence::none(),
            known.capacities is None,
            known.aggregator is None,
            known.account_root is None,
            known.signature is None,
            known.tx_root is None,
            known.block_root is None,
            known.new_block_root is None,
    {
        Evidence {
            capacities: None,
            aggregator: None,
            account_root: None,
            signature: None,
            tx_root: None,
            block_root: None,
            new_block_root: None,
        }
    }

    /// Whether a question of this kind is answered.
    pub open spec fn answers(self, query: QueryView) -> bool {
        match query {
            QueryView::Capacities => self.capacities is Some,
            QueryView::Aggregator { .. } => self.aggregator is Some,
            QueryView::AccountRoot { .. } => self.account_root is Some,
            QueryView::Signature { .. } => self.signature is Some,
            QueryView::TxRoot { .. } => self.tx_root is Some,
            QueryView::BlockRoot { .. } => self.block_root is Some,
            QueryView::NewBlockRoot { .. } => self.new_block_root is Some,
        }
    }

    /// This evidence with the answer that `source` has to the question.
    pub open spec fn with_answer(self, query: QueryView, source: Evidence) -> Evidence {
        match query {
            QueryView::Capacities => Evidence { capacities: source.capacities, ..self },
            QueryView::Aggregator { .. } => Evidence { aggregator: source.aggregator, ..self },
            QueryView::AccountRoot { .. } => Evidence { account_root: source.account_root, ..self },
            QueryView::Signature { .. } => Evidence { signature: source.signature, ..self },
            QueryView::TxRoot { .. } => Evidence { tx_root: source.tx_root, ..self },
            QueryView::BlockRoot { .. } => Evidence { block_root: source.block_root, ..self },
            QueryView::NewBlockRoot { .. } => Evidence {
                new_block_root: source.new_block_root,
                ..self
            },
        }
    }

    /// Whether `other` has every answer that this evidence has.
    pub open spec fn extended_by(self, other: Evidence) -> bool {
        &&& self.capacities is Some ==> other.capacities == self.capacities
        &&& self.aggregator is Some ==> other.aggregator == self.aggregator
        &&& self.account_root is Some ==> other.account_root == self.account_root
        &&& self.signature is Some ==> other.signature == self.signature
        &&& self.tx_root is Some ==> other.tx_root == self.tx_root
        &&& self.block_root is Some ==> other.block_root == self.block_root
        &&& self.new_block_root is Some ==> other.new_block_root == self.new_block_root
    }

    /// Whether every question is answered.
    pub open spec fn complete(self) -> bool {
        &&& self.capacities is Some
        &&& self.aggregator is Some
        &&& self.account_root is Some
        &&& self.signature is Some
        &&& self.tx_root is Some
        &&& self.block_root is Some
        &&& self.new_block_root is Some
    }
}

} // verus!
