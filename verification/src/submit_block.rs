//! The checks that a block submission has to pass.

use vstd::prelude::*;
use crate::bytes::same_bytes;
use crate::error::Error;
use crate::evidence::{Evidence, Outcome, OutcomeView, Query, QueryView};
use crate::types::{digests, Account, AgBlock, GlobalState, SubmitBlock};

verus! {

/// A block submission and the two states that it is to lead between.
pub struct Submission {
    pub action: SubmitBlock,
    pub old_state: GlobalState,
    pub new_state: GlobalState,
    pub ckb_token_id: Seq<u8>,
}

/// How many blocks there are up to the one with this number, modulo the range of the type.
pub open spec fn count_up_to(number: u64) -> u64 {
    if number == u64::MAX {
        0
    } else {
        (number + 1) as u64
    }
}

/// The block root of a rollup without blocks.
pub open spec fn no_blocks() -> Seq<u8> {
    Seq::new(32, |i: int| 0u8)
}

impl Submission {
    /// The aggregator's balance of the native token: what is recorded, or else nothing.
    pub open spec fn native_balance(self) -> u64 {
        if self.action.token_kv@.dom().contains(self.ckb_token_id) {
            self.action.token_kv@[self.ckb_token_id]
        } else {
            0
        }
    }

    /// The question whether the account may act as aggregator.
    pub open spec fn eligibility_query(self, account: Account) -> QueryView {
        QueryView::Aggregator { account, balance: self.native_balance() }
    }

    /// The question whether the account exists under the old account root.
    pub open spec fn membership_query(self, account: Account) -> QueryView {
        QueryView::AccountRoot {
            account_index: account.index,
            account,
            token_kv: self.action.token_kv,
            account_proof: self.action.account_proof,
            root: self.old_state.account_root@,
        }
    }

    /// The question whether the account's key has signed the block without its signature.
    pub open spec fn signature_query(self, account: Account) -> QueryView {
        QueryView::Signature {
            signature: self.action.block.ag_sig@,
            message: self.action.block.sig_message_spec(),
            pubkey_hash: account.pubkey_hash@,
        }
    }

    /// The question for the root over the transactions.
    pub open spec fn tx_root_query(self) -> QueryView {
        QueryView::TxRoot { tx_hashes: self.action.tx_hashes_spec() }
    }

    /// The question for the old block root, put of every block but the first.
    pub open spec fn block_root_query(self, block: AgBlock) -> QueryView
        recommends
            block.number != 0,
    {
        QueryView::BlockRoot {
            block_index: (block.number - 1) as u64,
            block_hash: self.action.last_block_hash@,
            block_count: count_up_to(block.number),
            proof: digests(self.action.block_proof@),
        }
    }

    /// The question for the new block root.
    pub open spec fn new_block_root_query(self, block: AgBlock) -> QueryView {
        QueryView::NewBlockRoot {
            last_block: if block.number == 0 {
                None
            } else {
                Some(((block.number - 1) as u64, self.action.last_block_hash@))
            },
            block_hash: block.hash_spec(),
            block_number: block.number,
            block_count: count_up_to(block.number),
            proof: digests(self.action.block_proof@),
        }
    }

    /// The transaction must give out the capacity that it takes in.
    pub open spec fn balance_outcome(self, known: Evidence) -> OutcomeView {
        match known.capacities {
            None => OutcomeView::Needs(QueryView::Capacities),
            Some(changes) => OutcomeView::check(
                changes.input == changes.output,
                Error::IncorrectCapacity,
            ),
        }
    }

    /// The account must be a valid aggregator.
    pub open spec fn eligibility_outcome(self, account: Account, known: Evidence) -> OutcomeView {
        match known.aggregator {
            None => OutcomeView::Needs(self.eligibility_query(account)),
            Some(answer) => OutcomeView::Decided(answer),
        }
    }

    /// The account must exist under the old account root.
    pub open spec fn membership_outcome(self, account: Account, known: Evidence) -> OutcomeView {
        match known.account_root {
            None => OutcomeView::Needs(self.membership_query(account)),
            Some(answer) => OutcomeView::Decided(answer),
        }
    }

    /// The block's signature must be by the account's key, on the block without signature.
    pub open spec fn signature_outcome(self, account: Account, known: Evidence) -> OutcomeView {
        match known.signature {
            None => OutcomeView::Needs(self.signature_query(account)),
            Some(valid) => OutcomeView::check(valid, Error::InvalidSignature),
        }
    }

    /// The aggregator is valid, exists under the old account root, and has signed the block.
    pub open spec fn aggregator_outcome(self, account: Account, known: Evidence) -> OutcomeView {
        self.eligibility_outcome(account, known).and_next(
            self.membership_outcome(account, known),
        ).and_next(self.signature_outcome(account, known))
    }

    /// The block names its aggregator, follows on the old state, leads to the accounts of the
    /// new one, and commits to the transactions.
    pub open spec fn block_outcome(
        self,
        account: Account,
        block: AgBlock,
        known: Evidence,
    ) -> OutcomeView {
        OutcomeView::check(block.ag_index == account.index, Error::IncorrectAgIndex).and_next(
            OutcomeView::check(
                block.prev_account_count == self.old_state.account_count,
                Error::InvalidAccountCount,
            ),
        ).and_next(
            OutcomeView::check(
                block.prev_account_root@ == self.old_state.account_root@ && block.account_root@
                    == self.new_state.account_root@,
                Error::InvalidAccountRoot,
            ),
        ).and_next(
            match known.tx_root {
                None => OutcomeView::Needs(self.tx_root_query()),
                Some(root) => OutcomeView::check(
                    block.tx_root@ == root@ && self.action.txs@.len() == block.txs_count,
                    Error::InvalidTxRoot,
                ),
            },
        )
    }

    /// The old block root must be that of a rollup without blocks for the first block, and
    /// must follow from the last block and its merkle proof for every other.
    pub open spec fn old_block_root_outcome(self, block: AgBlock, known: Evidence) -> OutcomeView {
        if block.number == 0 {
            OutcomeView::check(
                self.old_state.block_root@ == no_blocks() && self.action.block_proof@.len() == 0,
                Error::InvalidBlockMerkleProof,
            )
        } else {
            match known.block_root {
                None => OutcomeView::Needs(self.block_root_query(block)),
                Some(answer) => OutcomeView::check(
                    answer is Ok && answer->Ok_0@ == self.old_state.block_root@,
                    Error::InvalidBlockMerkleProof,
                ),
            }
        }
    }

    /// The new block root must follow from adding the submitted block to the last one.
    pub open spec fn new_block_root_outcome(self, block: AgBlock, known: Evidence) -> OutcomeView {
        match known.new_block_root {
            None => OutcomeView::Needs(self.new_block_root_query(block)),
            Some(answer) => OutcomeView::check(
                answer is Ok && answer->Ok_0@ == self.new_state.block_root@,
                Error::InvalidBlockMerkleProof,
            ),
        }
    }

    /// The block roots of both states are right.
    pub open spec fn block_state_outcome(self, block: AgBlock, known: Evidence) -> OutcomeView {
        self.old_block_root_outcome(block, known).and_next(
            self.new_block_root_outcome(block, known),
        )
    }

    /// Nothing of the global state changes but the account root, block root and block count.
    pub open spec fn global_state_outcome(self) -> OutcomeView {
        OutcomeView::check(
            self.old_state@.advanced_to(self.new_state@) == self.new_state@,
            Error::InvalidGlobalState,
        )
    }

    /// The checks of a submission, each made once those before it have passed.
    pub open spec fn outcome(self, known: Evidence) -> OutcomeView {
        let account = self.action.ag_account;
        let block = self.action.block;
        self.balance_outcome(known).and_next(self.aggregator_outcome(account, known)).and_next(
            self.block_outcome(account, block, known),
        ).and_next(self.block_state_outcome(block, known)).and_next(self.global_state_outcome())
    }
}

/// Decides whether a submitted block may lead from one global state to another.
pub struct SubmitBlockVerifier<'a> {
    action: &'a SubmitBlock,
    old_state: &'a GlobalState,
    new_state: &'a GlobalState,
    ckb_token_id: &'a [u8; 32],
}

impl<'a> View for SubmitBlockVerifier<'a> {
    type V = Submission;

    closed spec fn view(&self) -> Submission {
        Submission {
            action: *self.action,
            old_state: *self.old_state,
            new_state: *self.new_state,
            ckb_token_id: self.ckb_token_id@,
        }
    }
}

impl<'a> SubmitBlockVerifier<'a> {
    /// A verifier for one submission. `ckb_token_id` is the key under which balances of the
    /// native token are recorded.
    pub fn new(
        old_state: &'a GlobalState,
        new_state: &'a GlobalState,
        submit_block: &'a SubmitBlock,
        ckb_token_id: &'a [u8; 32],
    ) -> (checker: SubmitBlockVerifier<'a>)
        ensures
            checker@ == (Submission {
                action: *submit_block,
                old_state: *old_state,
                new_state: *new_state,
                ckb_token_id: ckb_token_id@,
            }),
    {
        SubmitBlockVerifier { action: submit_block, old_state, new_state, ckb_token_id }
    }

    /// Checks that the transaction gives out the capacity that it takes in.
    pub fn verify_balance(&self, known: &Evidence) -> (outcome: Outcome<'a>)
        ensures
            outcome@ == self@.balance_outcome(*known),
    {
        match known.capacities {
            None => Outcome::Needs(Query::Capacities),
            Some(changes) => {
                if changes.input != changes.output {
                    Outcome::Decided(Err(Error::IncorrectCapacity))
                } else {
                    Outcome::Decided(Ok(()))
                }
            },
        }
    }

    /// Checks the aggregator:
    /// 1. the aggregator is valid,
    /// 2. the aggregator exists under the old account root,
    /// 3. the block's signature is by the key with the aggregator's pubkey hash.
    pub fn verify_aggregator(&self, ag_account: &'a Account, known: &Evidence) -> (outcome: Outcome<
        'a,
    >)
        ensures
            outcome@ == self@.aggregator_outcome(*ag_account, *known),
    {
        match known.aggregator {
            None => {
                let balance: u64 = match self.action.token_kv.get(self.ckb_token_id) {
                    Some(recorded) => recorded,
                    None => 0,
                };
                return Outcome::Needs(Query::Aggregator { account: ag_account, balance });
            },
            Some(Err(error)) => {
                return Outcome::Decided(Err(error));
            },
            Some(Ok(())) => {},
        }
        match known.account_root {
            None => {
                return Outcome::Needs(
                    Query::AccountRoot {
                        account_index: ag_account.index,
                        account: ag_account,
                        token_kv: &self.action.token_kv,
                        account_proof: &self.action.account_proof,
                        root: self.old_state.account_root,
                    },
                );
            },
            Some(Err(error)) => {
                return Outcome::Decided(Err(error));
            },
            Some(Ok(())) => {},
        }
        match known.signature {
            None => {
                let block = &self.action.block;
                Outcome::Needs(
                    Query::Signature {
                        signature: block.ag_sig,
                        message: block.sig_message(),
                        pubkey_hash: ag_account.pubkey_hash,
                    },
                )
            },
            Some(valid) => {
                if valid {
                    Outcome::Decided(Ok(()))
                } else {
                    Outcome::Decided(Err(Error::InvalidSignature))
                }
            },
        }
    }

    /// Checks that the block names its aggregator, follows on the old state, leads to the
    /// accounts of the new one, and commits to the transactions.
    pub fn verify_block(
        &self,
        ag_account: &'a Account,
        block: &'a AgBlock,
        known: &Evidence,
    ) -> (outcome: Outcome<'a>)
        ensures
            outcome@ == self@.block_outcome(*ag_account, *block, *known),
    {
        if block.ag_index != ag_account.index {
            return Outcome::Decided(Err(Error::IncorrectAgIndex));
        }
        if block.prev_account_count != self.old_state.account_count {
            return Outcome::Decided(Err(Error::InvalidAccountCount));
        }
        if !same_bytes(
            block.prev_account_root.as_slice(),
            self.old_state.account_root.as_slice(),
        ) {
            return Outcome::Decided(Err(Error::InvalidAccountRoot));
        }
        if !same_bytes(block.account_root.as_slice(), self.new_state.account_root.as_slice()) {
            return Outcome::Decided(Err(Error::InvalidAccountRoot));
        }
        match known.tx_root {
            None => Outcome::Needs(Query::TxRoot { tx_hashes: self.action.tx_hashes() }),
            Some(calculated_tx_root) => {
                if !same_bytes(block.tx_root.as_slice(), calculated_tx_root.as_slice()) {
                    return Outcome::Decided(Err(Error::InvalidTxRoot));
                }
                if self.action.txs.len() != block.txs_count as usize {
                    return Outcome::Decided(Err(Error::InvalidTxRoot));
                }
                Outcome::Decided(Ok(()))
            },
        }
    }

    /// Checks the block roots of both states.
    pub fn verify_block_state(&self, block: &'a AgBlock, known: &Evidence) -> (outcome: Outcome<'a>)
        ensures
            outcome@ == self@.block_state_outcome(*block, *known),
    {
        let block_proof = &self.action.block_proof;
        if block.number == 0 {
            let zero: [u8; 32] = [0u8; 32];
            assert(zero@ =~= no_blocks());
            if !same_bytes(self.old_state.block_root.as_slice(), zero.as_slice())
                || block_proof.len() != 0 {
                return Outcome::Decided(Err(Error::InvalidBlockMerkleProof));
            }
        } else {
            match known.block_root {
                None => {
                    return Outcome::Needs(
                        Query::BlockRoot {
                            block_index: block.number - 1,
                            block_hash: self.action.last_block_hash,
                            block_count: block.number.wrapping_add(1),
                            proof: block_proof,
                        },
                    );
                },
                Some(Err(_)) => {
                    return Outcome::Decided(Err(Error::InvalidBlockMerkleProof));
                },
                Some(Ok(calculated_root)) => {
                    if !same_bytes(
                        self.old_state.block_root.as_slice(),
                        calculated_root.as_slice(),
                    ) {
                        return Outcome::Decided(Err(Error::InvalidBlockMerkleProof));
                    }
                },
            }
        }
        match known.new_block_root {
            None => Outcome::Needs(
                Query::NewBlockRoot {
                    last_block: if block.number == 0 {
                        None
                    } else {
                        Some((block.number - 1, self.action.last_block_hash))
                    },
                    block_hash: block.hash(),
                    block_number: block.number,
                    block_count: block.number.wrapping_add(1),
                    proof: block_proof,
                },
            ),
            Some(Err(_)) => Outcome::Decided(Err(Error::InvalidBlockMerkleProof)),
            Some(Ok(calculated_root)) => {
                if !same_bytes(self.new_state.block_root.as_slice(), calculated_root.as_slice()) {
                    return Outcome::Decided(Err(Error::InvalidBlockMerkleProof));
                }
                Outcome::Decided(Ok(()))
            },
        }
    }

    /// Checks that nothing of the global state changes but the account root, block root and
    /// block count.
    fn verify_global_state(&self) -> (outcome: Outcome<'a>)
        ensures
            outcome@ == self@.global_state_outcome(),
    {
        let same_others = same_bytes(
            self.old_state.other_fields.as_slice(),
            self.new_state.other_fields.as_slice(),
        );
        if self.old_state.account_count != self.new_state.account_count || !same_others {
            return Outcome::Decided(Err(Error::InvalidGlobalState));
        }
        assert(self@.old_state@.advanced_to(self@.new_state@) =~= self@.new_state@);
        Outcome::Decided(Ok(()))
    }

    /// Decides the submission as far as the answers known so far allow: the verdict, or the
    /// next question to the host.
    pub fn verify(&self, known: &Evidence) -> (outcome: Outcome<'a>)
        ensures
            outcome@ == self@.outcome(*known),
    {
        let ag_account = &self.action.ag_account;
        let block = &self.action.block;
        let balance = self.verify_balance(known);
        if !balance.passed() {
            return balance;
        }
        let aggregator = self.verify_aggregator(ag_account, known);
        if !aggregator.passed() {
            return aggregator;
        }
        let committed = self.verify_block(ag_account, block, known);
        if !committed.passed() {
            return committed;
        }
        let block_state = self.verify_block_state(block, known);
        if !block_state.passed() {
            return block_state;
        }
        self.verify_global_state()
    }
}

} // verus!
