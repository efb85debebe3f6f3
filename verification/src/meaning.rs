//! What each operation is for, said of the values that go into it.
//!
//! The statements here are written out over the fields of a submission, so that each can be read
//! by itself.

use vstd::prelude::*;
use crate::error::Error;
use crate::evidence::{Evidence, Outcome, OutcomeView, Query, QueryView};
use crate::hash::blake2b_256;
use crate::kv::{distinct_tokens, entry_for, map_of};
use crate::laws::{answered, run, run_comes_to_answers};
use crate::layout::{in_named, unnamed};
use crate::submit_block::{no_blocks, Submission};
use crate::types::{blank_sig, digests, Account, AgBlock, GlobalState, SubmitBlock};

verus! {

/// The aggregator signs the hash of the whole block with zeros in its signature field, and the
/// block is known by the hash of the whole block with its signature. In both, every byte before
/// the signature and every byte behind it is hashed.
pub proof fn whole_block_is_hashed(block: AgBlock)
    ensures
        ({
            let before = block.before_sig@;
            let after = block.after_sig@;
            let blank = before + Seq::new(65, |i: int| 0u8) + after;
            let signed = before + block.ag_sig@ + after;
            &&& block.sig_message_spec() == blake2b_256(blank)
            &&& block.hash_spec() == blake2b_256(signed)
            &&& blank.len() == signed.len() == before.len() + 65 + after.len()
            &&& before.is_prefix_of(blank) && before.is_prefix_of(signed)
            &&& after.is_suffix_of(blank) && after.is_suffix_of(signed)
        }),
{
    let before = block.before_sig@;
    let after = block.after_sig@;
    let blank = before + Seq::new(65, |i: int| 0u8) + after;
    let signed = before + block.ag_sig@ + after;
    assert(block.bytes_with_sig(blank_sig()) =~= blank);
    assert(block.bytes_with_sig(block.ag_sig@) =~= signed);
    assert(blank.subrange(0, before.len() as int) =~= before);
    assert(signed.subrange(0, before.len() as int) =~= before);
    assert(blank.subrange(blank.len() - after.len(), blank.len() as int) =~= after);
    assert(signed.subrange(signed.len() - after.len(), signed.len() as int) =~= after);
}

/// No two blocks of one layout have the same bytes to hash unless all their parts are the same.
pub proof fn different_blocks_differ_in_bytes(
    a: AgBlock,
    sig_a: Seq<u8>,
    b: AgBlock,
    sig_b: Seq<u8>,
)
    requires
        sig_a.len() == sig_b.len(),
        a.before_sig@.len() == b.before_sig@.len(),
    ensures
        a.bytes_with_sig(sig_a) == b.bytes_with_sig(sig_b) <==> {
            &&& a.before_sig@ == b.before_sig@
            &&& sig_a == sig_b
            &&& a.after_sig@ == b.after_sig@
        },
{
    let x = a.bytes_with_sig(sig_a);
    let y = b.bytes_with_sig(sig_b);
    let n = a.before_sig@.len() as int;
    let m = n + sig_a.len();
    assert(x.subrange(0, n) =~= a.before_sig@);
    assert(y.subrange(0, n) =~= b.before_sig@);
    assert(x.subrange(n, m) =~= sig_a);
    assert(y.subrange(n, m) =~= sig_b);
    assert(x.subrange(m, x.len() as int) =~= a.after_sig@);
    assert(y.subrange(m, y.len() as int) =~= b.after_sig@);
}

/// Every transaction is hashed, once and in its place.
pub proof fn each_tx_is_hashed(action: SubmitBlock)
    ensures
        action.tx_hashes_spec().len() == action.txs@.len(),
        forall|i: int|
            0 <= i < action.txs@.len() ==> #[trigger] action.tx_hashes_spec()[i] == blake2b_256(
                action.txs@[i]@,
            ),
{
}

/// A list of digests stands for the bytes of each of them, in order.
pub proof fn digests_keep_each(list: Seq<[u8; 32]>)
    ensures
        digests(list).len() == list.len(),
        forall|i: int| 0 <= i < list.len() ==> #[trigger] digests(list)[i] == list[i]@,
{
}

/// What a question holds is what it shows.
pub proof fn question_shows_what_it_holds(query: Query<'_>)
    ensures
        match query {
            Query::Capacities => query@ is Capacities,
            Query::Aggregator { account, balance } => query@ == (QueryView::Aggregator {
                account: *account,
                balance,
            }),
            Query::AccountRoot { account_index, account, token_kv, account_proof, root } => query@
                == (QueryView::AccountRoot {
                account_index,
                account: *account,
                token_kv: *token_kv,
                account_proof: *account_proof,
                root: root@,
            }),
            Query::Signature { signature, message, pubkey_hash } => query@
                == (QueryView::Signature {
                signature: signature@,
                message: message@,
                pubkey_hash: pubkey_hash@,
            }),
            Query::TxRoot { tx_hashes } => query@ == (QueryView::TxRoot {
                tx_hashes: Seq::new(tx_hashes@.len(), |i: int| tx_hashes@[i]@),
            }),
            Query::BlockRoot { block_index, block_hash, block_count, proof } => query@
                == (QueryView::BlockRoot {
                block_index,
                block_hash: block_hash@,
                block_count,
                proof: Seq::new(proof@.len(), |i: int| proof@[i]@),
            }),
            Query::NewBlockRoot { last_block, block_hash, block_number, block_count, proof } =>
                query@ == (QueryView::NewBlockRoot {
                last_block: match last_block {
                    Some((number, hash)) => Some((number, hash@)),
                    None => None,
                },
                block_hash: block_hash@,
                block_number,
                block_count,
                proof: Seq::new(proof@.len(), |i: int| proof@[i]@),
            }),
        },
{
    match query {
        Query::TxRoot { tx_hashes } => {
            assert(digests(tx_hashes@) =~= Seq::new(tx_hashes@.len(), |i: int| tx_hashes@[i]@));
        },
        Query::BlockRoot { proof, .. } => {
            assert(digests(proof@) =~= Seq::new(proof@.len(), |i: int| proof@[i]@));
        },
        Query::NewBlockRoot { proof, .. } => {
            assert(digests(proof@) =~= Seq::new(proof@.len(), |i: int| proof@[i]@));
        },
        _ => {},
    }
}

/// What an outcome holds is what it shows.
pub proof fn outcome_shows_what_it_holds(outcome: Outcome<'_>)
    ensures
        match outcome {
            Outcome::Decided(result) => outcome@ == OutcomeView::Decided(result),
            Outcome::Needs(query) => outcome@ == OutcomeView::Needs(query@),
        },
        outcome@.passed() <==> (outcome matches Outcome::Decided(Ok(_))),
{
}

/// What a global state holds is what it shows.
pub proof fn state_shows_what_it_holds(state: GlobalState)
    ensures
        state@.account_root == state.account_root@,
        state@.account_count == state.account_count,
        state@.block_root == state.block_root@,
        state@.block_count == state.block_count,
        state@.other_fields == state.other_fields@,
{
}

/// A map of balances has exactly the tokens of its entries, each with its own balance.
pub proof fn balances_are_those_of_the_entries(entries: Seq<([u8; 32], u64)>)
    requires
        forall|i: int, j: int|
            0 <= i < j < entries.len() ==> (#[trigger] entries[i]).0@ != (#[trigger] entries[j]).0@,
    ensures
        distinct_tokens(entries),
        forall|token: Seq<u8>| #[trigger]
            map_of(entries).dom().contains(token) <==> exists|i: int|
                0 <= i < entries.len() && (#[trigger] entries[i]).0@ == token,
        forall|i: int|
            0 <= i < entries.len() ==> map_of(entries)[(#[trigger] entries[i]).0@] == entries[i].1,
{
    assert forall|i: int, j: int|
        0 <= i < entries.len() && 0 <= j < entries.len() && #[trigger] entries[i].0@
            == #[trigger] entries[j].0@ implies i == j by {
        if i < j {
            assert(entries[i].0@ != entries[j].0@);
        } else if j < i {
            assert(entries[j].0@ != entries[i].0@);
        }
    }
    assert forall|token: Seq<u8>| #[trigger]
        map_of(entries).dom().contains(token) <==> exists|i: int|
            0 <= i < entries.len() && (#[trigger] entries[i]).0@ == token by {
        if exists|i: int| 0 <= i < entries.len() && (#[trigger] entries[i]).0@ == token {
            let i = choose|i: int| 0 <= i < entries.len() && (#[trigger] entries[i]).0@ == token;
            assert(entry_for(entries, token, i));
        }
        if exists|i: int| entry_for(entries, token, i) {
            let i = choose|i: int| entry_for(entries, token, i);
            assert(entries[i].0@ == token);
        }
    }
    assert forall|i: int| 0 <= i < entries.len() implies map_of(entries)[(
    #[trigger] entries[i]).0@] == entries[i].1 by {
        assert(entry_for(entries, entries[i].0@, i));
    }
}

/// The capacity check asks for the capacities, refuses if they differ, and passes otherwise.
pub proof fn meaning_of_balance_check(submission: Submission, known: Evidence)
    ensures
        match known.capacities {
            None => submission.balance_outcome(known) == OutcomeView::Needs(QueryView::Capacities),
            Some(changes) => if changes.input == changes.output {
                submission.balance_outcome(known) matches OutcomeView::Decided(Ok(_))
            } else {
                submission.balance_outcome(known) == OutcomeView::Decided(
                    Err(Error::IncorrectCapacity),
                )
            },
        },
{
}

/// The aggregator check asks first whether the account may act as aggregator, with the balance
/// recorded for the native token, or none; then whether the account exists under the old account
/// root; then whether its key has signed the block. The first two refusals are the host's own,
/// the third is an invalid signature.
pub proof fn meaning_of_aggregator_check(
    submission: Submission,
    account: Account,
    known: Evidence,
)
    ensures
        ({
            let outcome = submission.aggregator_outcome(account, known);
            let balances = submission.action.token_kv@;
            let block = submission.action.block;
            let token = submission.ckb_token_id;
            match known.aggregator {
                None => outcome == OutcomeView::Needs(
                    QueryView::Aggregator {
                        account,
                        balance: if balances.dom().contains(token) {
                            balances[token]
                        } else {
                            0
                        },
                    },
                ),
                Some(Err(error)) => outcome == OutcomeView::Decided(Err(error)),
                Some(Ok(_)) => match known.account_root {
                    None => outcome == OutcomeView::Needs(
                        QueryView::AccountRoot {
                            account_index: account.index,
                            account,
                            token_kv: submission.action.token_kv,
                            account_proof: submission.action.account_proof,
                            root: submission.old_state.account_root@,
                        },
                    ),
                    Some(Err(error)) => outcome == OutcomeView::Decided(Err(error)),
                    Some(Ok(_)) => match known.signature {
                        None => outcome == OutcomeView::Needs(
                            QueryView::Signature {
                                signature: block.ag_sig@,
                                message: blake2b_256(
                                    block.before_sig@ + Seq::new(65, |i: int| 0u8)
                                        + block.after_sig@,
                                ),
                                pubkey_hash: account.pubkey_hash@,
                            },
                        ),
                        Some(true) => outcome matches OutcomeView::Decided(Ok(_)),
                        Some(false) => outcome == OutcomeView::Decided(
                            Err(Error::InvalidSignature),
                        ),
                    },
                },
            }
        }),
{
    whole_block_is_hashed(submission.action.block);
}

/// The block check refuses a block that names another aggregator, then one that starts from
/// another account count, then one whose account roots are not those of the two states. Of the
/// others it asks for the root over the hashes of all transactions, and refuses a block with
/// another root or another number of transactions.
pub proof fn meaning_of_block_check(
    submission: Submission,
    account: Account,
    block: AgBlock,
    known: Evidence,
)
    ensures
        ({
            let outcome = submission.block_outcome(account, block, known);
            let txs = submission.action.txs@;
            if block.ag_index != account.index {
                outcome == OutcomeView::Decided(Err(Error::IncorrectAgIndex))
            } else if block.prev_account_count != submission.old_state.account_count {
                outcome == OutcomeView::Decided(Err(Error::InvalidAccountCount))
            } else if block.prev_account_root@ != submission.old_state.account_root@ {
                outcome == OutcomeView::Decided(Err(Error::InvalidAccountRoot))
            } else if block.account_root@ != submission.new_state.account_root@ {
                outcome == OutcomeView::Decided(Err(Error::InvalidAccountRoot))
            } else {
                match known.tx_root {
                    None => outcome == OutcomeView::Needs(
                        QueryView::TxRoot {
                            tx_hashes: Seq::new(txs.len(), |i: int| blake2b_256(txs[i]@)),
                        },
                    ),
                    Some(root) => if root@ == block.tx_root@ && txs.len() == block.txs_count {
                        outcome matches OutcomeView::Decided(Ok(_))
                    } else {
                        outcome == OutcomeView::Decided(Err(Error::InvalidTxRoot))
                    },
                }
            }
        }),
{
    let txs = submission.action.txs@;
    assert(submission.action.tx_hashes_spec() =~= Seq::new(
        txs.len(),
        |i: int| blake2b_256(txs[i]@),
    ));
}

/// The check of the block roots refuses a first block on a rollup that has blocks, or with a
/// merkle proof. Of every other block it asks for the old block root, by the last block, which
/// stands one before the submitted one, and the submitted proof. Then it asks for the new block
/// root, by the last block, the submitted one with its own number and the hash over all of it,
/// and the same proof. A root that the host cannot compute, or that is not the state's, is
/// refused.
pub proof fn meaning_of_block_state_check(submission: Submission, block: AgBlock, known: Evidence)
    ensures
        ({
            let outcome = submission.block_state_outcome(block, known);
            let refused = OutcomeView::Decided(Err(Error::InvalidBlockMerkleProof));
            let old_root = submission.old_state.block_root@;
            let new_root = submission.new_state.block_root@;
            let last_hash = submission.action.last_block_hash@;
            let items = submission.action.block_proof@;
            let proof_items = Seq::new(items.len(), |i: int| items[i]@);
            let number = block.number;
            let count = if number == u64::MAX {
                0u64
            } else {
                (number + 1) as u64
            };
            let old_root_right = if number == 0 {
                items.len() == 0 && forall|i: int| 0 <= i < 32 ==> #[trigger] old_root[i] == 0
            } else {
                known.block_root matches Some(Ok(root)) && root@ == old_root
            };
            if number != 0 && known.block_root is None {
                outcome == OutcomeView::Needs(
                    QueryView::BlockRoot {
                        block_index: (number - 1) as u64,
                        block_hash: last_hash,
                        block_count: count,
                        proof: proof_items,
                    },
                )
            } else if !old_root_right {
                outcome == refused
            } else {
                match known.new_block_root {
                    None => outcome == OutcomeView::Needs(
                        QueryView::NewBlockRoot {
                            last_block: if number == 0 {
                                None
                            } else {
                                Some(((number - 1) as u64, last_hash))
                            },
                            block_hash: blake2b_256(
                                block.before_sig@ + block.ag_sig@ + block.after_sig@,
                            ),
                            block_number: number,
                            block_count: count,
                            proof: proof_items,
                        },
                    ),
                    Some(Err(_)) => outcome == refused,
                    Some(Ok(root)) => if root@ == new_root {
                        outcome matches OutcomeView::Decided(Ok(_))
                    } else {
                        outcome == refused
                    },
                }
            }
        }),
{
    let items = submission.action.block_proof@;
    let old_root = submission.old_state.block_root@;
    assert(digests(items) =~= Seq::new(items.len(), |i: int| items[i]@));
    if forall|i: int| 0 <= i < 32 ==> #[trigger] old_root[i] == 0 {
        assert(old_root =~= no_blocks());
    }
    whole_block_is_hashed(block);
}

/// The check of the global state refuses a submission if and only if anything changes but the
/// account root, the block root and the block count.
pub proof fn meaning_of_global_state_check(submission: Submission)
    ensures
        if submission.old_state.account_count == submission.new_state.account_count
            && submission.old_state.other_fields@ == submission.new_state.other_fields@ {
            submission.global_state_outcome() matches OutcomeView::Decided(Ok(_))
        } else {
            submission.global_state_outcome() == OutcomeView::Decided(
                Err(Error::InvalidGlobalState),
            )
        },
{
    let old_state = submission.old_state@;
    let new_state = submission.new_state@;
    if old_state.account_count == new_state.account_count && old_state.other_fields
        == new_state.other_fields {
        assert(old_state.advanced_to(new_state) =~= new_state);
    }
}

/// A verification comes to what its first check comes to that has not passed, and to what the
/// last one comes to if all others have. The checks are those on the capacity, on the submitting
/// account, on the submitted block, on its block roots, and on the global state.
pub proof fn checks_are_made_in_order(submission: Submission, known: Evidence)
    ensures
        ({
            let account = submission.action.ag_account;
            let block = submission.action.block;
            let balance = submission.balance_outcome(known);
            let aggregator = submission.aggregator_outcome(account, known);
            let committed = submission.block_outcome(account, block, known);
            let block_state = submission.block_state_outcome(block, known);
            submission.outcome(known) == (if !(balance matches OutcomeView::Decided(Ok(_))) {
                balance
            } else if !(aggregator matches OutcomeView::Decided(Ok(_))) {
                aggregator
            } else if !(committed matches OutcomeView::Decided(Ok(_))) {
                committed
            } else if !(block_state matches OutcomeView::Decided(Ok(_))) {
                block_state
            } else {
                submission.global_state_outcome()
            })
        }),
{
}

/// The numbers in a question line up: the old block root is asked for by the block before the
/// submitted one, the new block root by the submitted one after it, and the block count is that
/// of a rollup that ends with the submitted block.
pub proof fn numbers_line_up(submission: Submission, known: Evidence, query: QueryView)
    requires
        submission.outcome(known) == OutcomeView::Needs(query),
        submission.action.block.number < u64::MAX,
    ensures
        query matches QueryView::BlockRoot { block_index, block_count, .. } ==> {
            &&& block_index + 1 == submission.action.block.number
            &&& block_count == block_index + 2
        },
        query matches QueryView::NewBlockRoot { last_block, block_number, block_count, .. } ==> {
            &&& block_number == submission.action.block.number
            &&& block_count == block_number + 1
            &&& last_block is None <==> block_number == 0
            &&& last_block matches Some((last_number, _)) ==> block_number == last_number + 1
        },
{
}

/// A run that ends in acceptance had the host's yes to the account as aggregator with the balance
/// that its tokens record for the native one, or none; to its existence, with its tokens, under
/// the old account root; and to the block's signature, by the account's key, on the hash of the
/// whole block with zeros for the signature.
pub proof fn accepted_run_has_valid_aggregator(
    submission: Submission,
    host: spec_fn(QueryView) -> Evidence,
)
    requires
        run(submission, Evidence::none(), host, 7) matches OutcomeView::Decided(Ok(_)),
    ensures
        ({
            let account = submission.action.ag_account;
            let block = submission.action.block;
            let balances = submission.action.token_kv@;
            let token = submission.ckb_token_id;
            &&& balances.dom().contains(token) ==> (host(
                QueryView::Aggregator { account, balance: balances[token] },
            ).aggregator matches Some(Ok(_)))
            &&& !balances.dom().contains(token) ==> (host(
                QueryView::Aggregator { account, balance: 0 },
            ).aggregator matches Some(Ok(_)))
            &&& host(
                QueryView::AccountRoot {
                    account_index: account.index,
                    account,
                    token_kv: submission.action.token_kv,
                    account_proof: submission.action.account_proof,
                    root: submission.old_state.account_root@,
                },
            ).account_root matches Some(Ok(_))
            &&& host(
                QueryView::Signature {
                    signature: block.ag_sig@,
                    message: blake2b_256(
                        block.before_sig@ + Seq::new(65, |i: int| 0u8) + block.after_sig@,
                    ),
                    pubkey_hash: account.pubkey_hash@,
                },
            ).signature == Some(true)
            &&& block.ag_index == account.index
        }),
{
    run_comes_to_answers(submission, host);
    whole_block_is_hashed(submission.action.block);
}

/// A run that ends in acceptance had the host's root over one hash for each transaction, in
/// order, equal to the block's, and the block counts exactly these transactions.
pub proof fn accepted_run_commits_to_every_tx(
    submission: Submission,
    host: spec_fn(QueryView) -> Evidence,
    tx_hashes: Seq<Seq<u8>>,
)
    requires
        run(submission, Evidence::none(), host, 7) matches OutcomeView::Decided(Ok(_)),
        tx_hashes.len() == submission.action.txs@.len(),
        forall|i: int|
            0 <= i < tx_hashes.len() ==> #[trigger] tx_hashes[i] == blake2b_256(
                submission.action.txs@[i]@,
            ),
    ensures
        host(QueryView::TxRoot { tx_hashes }).tx_root matches Some(root) && root@
            == submission.action.block.tx_root@,
        tx_hashes.len() == submission.action.block.txs_count,
{
    run_comes_to_answers(submission, host);
    assert(submission.action.tx_hashes_spec() =~= tx_hashes);
}

/// A run that ends in acceptance leads from the account root and count of the old state to the
/// account root of the new one, and changes nothing of the global state but the account root, the
/// block root and the block count, under kept capacity.
pub proof fn accepted_run_leads_between_states(
    submission: Submission,
    host: spec_fn(QueryView) -> Evidence,
)
    requires
        run(submission, Evidence::none(), host, 7) matches OutcomeView::Decided(Ok(_)),
    ensures
        host(QueryView::Capacities).capacities matches Some(changes) && changes.input
            == changes.output,
        submission.action.block.prev_account_root@ == submission.old_state.account_root@,
        submission.action.block.prev_account_count == submission.old_state.account_count,
        submission.action.block.account_root@ == submission.new_state.account_root@,
        submission.new_state.account_count == submission.old_state.account_count,
        submission.new_state.other_fields@ == submission.old_state.other_fields@,
{
    run_comes_to_answers(submission, host);
}

/// A run that ends in acceptance of any block but the first had the host's block root for the
/// last block, at the number before the submitted one, with the submitted proof, equal to the
/// old block root.
pub proof fn accepted_run_follows_on_last_block(
    submission: Submission,
    host: spec_fn(QueryView) -> Evidence,
    last_number: u64,
    count: u64,
    proof_items: Seq<Seq<u8>>,
)
    requires
        run(submission, Evidence::none(), host, 7) matches OutcomeView::Decided(Ok(_)),
        submission.action.block.number == last_number + 1,
        count == submission.action.block.number + 1,
        proof_items.len() == submission.action.block_proof@.len(),
        forall|i: int|
            0 <= i < proof_items.len() ==> #[trigger] proof_items[i]
                == submission.action.block_proof@[i]@,
    ensures
        host(
            QueryView::BlockRoot {
                block_index: last_number,
                block_hash: submission.action.last_block_hash@,
                block_count: count,
                proof: proof_items,
            },
        ).block_root matches Some(Ok(root)) && root@ == submission.old_state.block_root@,
{
    run_comes_to_answers(submission, host);
    assert(digests(submission.action.block_proof@) =~= proof_items);
}

/// A run that ends in acceptance had the host's block root for the submitted block, by its own
/// number and the hash over all of it, after the last block, with the submitted proof, equal to
/// the new block root. Before the first block there is none, and the rollup had no blocks.
pub proof fn accepted_run_appends_block(
    submission: Submission,
    host: spec_fn(QueryView) -> Evidence,
    last_block: Option<(u64, Seq<u8>)>,
    count: u64,
    proof_items: Seq<Seq<u8>>,
)
    requires
        run(submission, Evidence::none(), host, 7) matches OutcomeView::Decided(Ok(_)),
        match last_block {
            None => submission.action.block.number == 0,
            Some((last_number, last_hash)) => submission.action.block.number == last_number + 1
                && last_hash == submission.action.last_block_hash@,
        },
        count == submission.action.block.number + 1,
        proof_items.len() == submission.action.block_proof@.len(),
        forall|i: int|
            0 <= i < proof_items.len() ==> #[trigger] proof_items[i]
                == submission.action.block_proof@[i]@,
    ensures
        ({
            let block = submission.action.block;
            &&& host(
                QueryView::NewBlockRoot {
                    last_block,
                    block_hash: blake2b_256(block.before_sig@ + block.ag_sig@ + block.after_sig@),
                    block_number: block.number,
                    block_count: count,
                    proof: proof_items,
                },
            ).new_block_root matches Some(Ok(root)) && root@ == submission.new_state.block_root@
            &&& last_block is None ==> proof_items.len() == 0 && forall|i: int|
                0 <= i < 32 ==> #[trigger] submission.old_state.block_root@[i] == 0
        }),
{
    run_comes_to_answers(submission, host);
    whole_block_is_hashed(submission.action.block);
    assert(digests(submission.action.block_proof@) =~= proof_items);
}

/// The bytes without a name of a value grow with the value: a further byte is among them, as the
/// last one, if and only if its position lies in no named range.
pub proof fn unnamed_bytes_keep_order(whole: Seq<u8>, byte: u8, named: Seq<(usize, usize)>)
    ensures
        unnamed(Seq::empty(), named) == Seq::<u8>::empty(),
        unnamed(whole.push(byte), named) == (if exists|k: int|
            0 <= k < named.len() && (#[trigger] named[k]).0 <= whole.len() < named[k].1 {
            unnamed(whole, named)
        } else {
            unnamed(whole, named).push(byte)
        }),
{
    assert(whole.push(byte).drop_last() =~= whole);
}

/// Two values of one length have the same bytes without a name if and only if they agree at every
/// position that lies in no named range.
pub proof fn unnamed_bytes_tell_values_apart(
    a: Seq<u8>,
    b: Seq<u8>,
    named: Seq<(usize, usize)>,
)
    requires
        a.len() == b.len(),
    ensures
        unnamed(a, named).len() == unnamed(b, named).len() <= a.len(),
        unnamed(a, named) == unnamed(b, named) <==> forall|i: int|
            0 <= i < a.len() && !(exists|k: int|
                0 <= k < named.len() && (#[trigger] named[k]).0 <= i < named[k].1) ==> #[trigger] a[i]
                == b[i],
    decreases a.len(),
{
    if a.len() > 0 {
        let x = a.drop_last();
        let y = b.drop_last();
        let last = a.len() - 1;
        unnamed_bytes_tell_values_apart(x, y, named);
        assert forall|i: int| 0 <= i < last implies x[i] == a[i] && y[i] == b[i] by {}
        let is_named = exists|k: int|
            0 <= k < named.len() && (#[trigger] named[k]).0 <= last < named[k].1;
        assert(is_named == in_named(named, last));
        if !is_named {
            let p = unnamed(x, named);
            let q = unnamed(y, named);
            if p.push(a[last]) == q.push(b[last]) {
                assert(p.push(a[last]).drop_last() =~= p);
                assert(q.push(b[last]).drop_last() =~= q);
                assert(p.push(a[last]).last() == q.push(b[last]).last());
            }
        }
    } else {
        assert(a =~= b);
    }
}

} // verus!
