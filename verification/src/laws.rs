//! What holds of every submission.

use vstd::prelude::*;
use crate::error::Error;
use crate::evidence::{Evidence, OutcomeView, QueryView};
use crate::hash::blake2b_256;
use crate::submit_block::{no_blocks, Submission};
use crate::types::{blank_sig, AgBlock};

verus! {

/// Everything that an acceptable submission has to meet.
pub open spec fn acceptable(submission: Submission, known: Evidence) -> bool {
    let block = submission.action.block;
    let old_state = submission.old_state;
    let new_state = submission.new_state;
    // the capacity is kept
    &&& known.capacities matches Some(changes)
    &&& changes.input == changes.output
    // the aggregator is valid, exists, and has signed
    &&& known.aggregator matches Some(Ok(_))
    &&& known.account_root matches Some(Ok(_))
    &&& known.signature == Some(true)
    &&& block.ag_index == submission.action.ag_account.index
    // the block leads from the old accounts to the new ones
    &&& block.prev_account_count == old_state.account_count
    &&& block.prev_account_root@ == old_state.account_root@
    &&& block.account_root@ == new_state.account_root@
    // the block commits to the transactions
    &&& known.tx_root matches Some(tx_root)
    &&& tx_root@ == block.tx_root@
    &&& submission.action.txs@.len() == block.txs_count
    // the block is the first one, or follows on the last one
    &&& block.number == 0 ==> old_state.block_root@ == no_blocks()
        && submission.action.block_proof@.len() == 0
    &&& block.number != 0 ==> (known.block_root matches Some(Ok(root)) && root@
        == old_state.block_root@)
    &&& known.new_block_root matches Some(Ok(new_root))
    &&& new_root@ == new_state.block_root@
    // the rest of the global state is kept
    &&& new_state.account_count == old_state.account_count
    &&& new_state.other_fields@ == old_state.other_fields@
}

/// A submission is accepted if and only if it meets every condition.
pub proof fn accepted_iff_acceptable(submission: Submission, known: Evidence)
    ensures
        submission.outcome(known).passed() <==> acceptable(submission, known),
{
    let old_state = submission.old_state@;
    let new_state = submission.new_state@;
    if new_state.account_count == old_state.account_count && new_state.other_fields
        == old_state.other_fields {
        assert(old_state.advanced_to(new_state) =~= new_state);
    }
}

/// A refusal gives the reason of the first group of checks that fails: those on the capacity,
/// the aggregator, the block, the block roots, and the rest of the global state, in this order.
pub proof fn refusal_names_first_failure(submission: Submission, known: Evidence, error: Error)
    ensures
        ({
            let account = submission.action.ag_account;
            let block = submission.action.block;
            let refused = OutcomeView::Decided(Err(error));
            let balance = submission.balance_outcome(known);
            let aggregator = submission.aggregator_outcome(account, known);
            let committed = submission.block_outcome(account, block, known);
            let block_state = submission.block_state_outcome(block, known);
            let global_state = submission.global_state_outcome();
            submission.outcome(known) == refused <==> {
                ||| balance == refused
                ||| balance.passed() && aggregator == refused
                ||| balance.passed() && aggregator.passed() && committed == refused
                ||| balance.passed() && aggregator.passed() && committed.passed() && block_state
                    == refused
                ||| balance.passed() && aggregator.passed() && committed.passed()
                    && block_state.passed() && global_state == refused
            }
        }),
{
}

/// A verdict stands: no further answer changes it.
pub proof fn verdict_is_stable(submission: Submission, known: Evidence, more: Evidence)
    requires
        known.extended_by(more),
        submission.outcome(known) is Decided,
    ensures
        submission.outcome(more) == submission.outcome(known),
{
}

/// Only open questions are asked.
pub proof fn question_is_open(submission: Submission, known: Evidence, query: QueryView)
    requires
        submission.outcome(known) == OutcomeView::Needs(query),
    ensures
        !known.answers(query),
{
}

/// A question does not depend on the answers to others: whenever one of its kind is asked of a
/// submission, it is the same question.
pub proof fn question_is_fixed(
    submission: Submission,
    known1: Evidence,
    query1: QueryView,
    known2: Evidence,
    query2: QueryView,
)
    requires
        submission.outcome(known1) == OutcomeView::Needs(query1),
        submission.outcome(known2) == OutcomeView::Needs(query2),
        query1.same_kind(query2),
    ensures
        query1 == query2,
{
}

/// Once every question is answered, the submission is decided.
pub proof fn complete_evidence_decides(submission: Submission, known: Evidence)
    requires
        known.complete(),
    ensures
        submission.outcome(known) is Decided,
{
}

/// What a verification comes to that starts from `known` and puts up to `rounds` questions to
/// `host`, each after the answer to the one before.
pub open spec fn run(
    submission: Submission,
    known: Evidence,
    host: spec_fn(QueryView) -> Evidence,
    rounds: nat,
) -> OutcomeView
    decreases rounds,
{
    match submission.outcome(known) {
        OutcomeView::Decided(result) => OutcomeView::Decided(result),
        OutcomeView::Needs(query) => if rounds == 0 {
            OutcomeView::Needs(query)
        } else {
            run(submission, known.with_answer(query, host(query)), host, (rounds - 1) as nat)
        },
    }
}

/// The answers of `host` to the questions that belong to a submission. The old block root is no
/// question for the first block.
pub open spec fn answered(
    submission: Submission,
    host: spec_fn(QueryView) -> Evidence,
) -> Evidence {
    let account = submission.action.ag_account;
    let block = submission.action.block;
    Evidence {
        capacities: host(QueryView::Capacities).capacities,
        aggregator: host(submission.eligibility_query(account)).aggregator,
        account_root: host(submission.membership_query(account)).account_root,
        signature: host(submission.signature_query(account)).signature,
        tx_root: host(submission.tx_root_query()).tx_root,
        block_root: if block.number == 0 {
            None
        } else {
            host(submission.block_root_query(block)).block_root
        },
        new_block_root: host(submission.new_block_root_query(block)).new_block_root,
    }
}

/// How many answers of `source` are not known yet.
spec fn missing(known: Evidence, source: Evidence) -> nat {
    let count = |open: bool| if open { 1nat } else { 0nat };
    count(known.capacities is None && source.capacities is Some) + count(
        known.aggregator is None && source.aggregator is Some,
    ) + count(known.account_root is None && source.account_root is Some) + count(
        known.signature is None && source.signature is Some,
    ) + count(known.tx_root is None && source.tx_root is Some) + count(
        known.block_root is None && source.block_root is Some,
    ) + count(known.new_block_root is None && source.new_block_root is Some)
}

/// A run stops at a question to which the host has no answer.
proof fn run_stops(
    submission: Submission,
    known: Evidence,
    host: spec_fn(QueryView) -> Evidence,
    rounds: nat,
    query: QueryView,
)
    requires
        submission.outcome(known) == OutcomeView::Needs(query),
        known.with_answer(query, host(query)) == known,
    ensures
        run(submission, known, host, rounds) == OutcomeView::Needs(query),
    decreases rounds,
{
    if rounds > 0 {
        run_stops(submission, known, host, (rounds - 1) as nat, query);
    }
}

proof fn run_from(
    submission: Submission,
    known: Evidence,
    host: spec_fn(QueryView) -> Evidence,
    rounds: nat,
)
    requires
        known.extended_by(answered(submission, host)),
        rounds >= missing(known, answered(submission, host)),
    ensures
        run(submission, known, host, rounds) == submission.outcome(answered(submission, host)),
    decreases rounds,
{
    let source = answered(submission, host);
    match submission.outcome(known) {
        OutcomeView::Decided(_) => {
            verdict_is_stable(submission, known, source);
        },
        OutcomeView::Needs(query) => {
            question_is_open(submission, known, query);
            let next = known.with_answer(query, host(query));
            assert(next == known.with_answer(query, source));
            if source.answers(query) {
                run_from(submission, next, host, (rounds - 1) as nat);
            } else {
                assert(next == known);
                run_stops(submission, known, host, rounds, query);
            }
        },
    }
}

/// Asking the host one question at a time comes to the outcome that its answers to the
/// submission's own questions give together, after at most one question of each kind. So a run
/// ends in acceptance if and only if those answers make the submission acceptable.
pub proof fn run_comes_to_answers(submission: Submission, host: spec_fn(QueryView) -> Evidence)
    ensures
        run(submission, Evidence::none(), host, 7) == submission.outcome(
            answered(submission, host),
        ),
        run(submission, Evidence::none(), host, 7).passed() <==> acceptable(
            submission,
            answered(submission, host),
        ),
{
    run_from(submission, Evidence::none(), host, 7);
    accepted_iff_acceptable(submission, answered(submission, host));
}

/// A run that ends in acceptance had the host's yes to exactly these questions: whether the
/// account with its native balance may act as aggregator, whether it exists with its tokens
/// under the old account root, and whether the block's signature, on the hash of the block
/// with a blank signature, is by the account's key.
pub proof fn accepted_run_vouches_for_aggregator(
    submission: Submission,
    host: spec_fn(QueryView) -> Evidence,
)
    requires
        run(submission, Evidence::none(), host, 7).passed(),
    ensures
        ({
            let account = submission.action.ag_account;
            let block = submission.action.block;
            &&& host(
                QueryView::Aggregator { account, balance: submission.native_balance() },
            ).aggregator matches Some(Ok(_))
            &&& host(
                QueryView::AccountRoot {
                    account_index: account.index,
                    account,
                    token_kv: submission.action.token_kv,
                    account_proof: submission.action.account_proof,
                    root: submission.old_state.account_root@,
                },
            ).account_root matches Some(Ok(_))
            &&& host(
                QueryView::Signature {
                    signature: block.ag_sig@,
                    message: blake2b_256(block.bytes_with_sig(blank_sig())),
                    pubkey_hash: account.pubkey_hash@,
                },
            ).signature == Some(true)
        }),
{
    run_comes_to_answers(submission, host);
}

/// A host that answers every question it is asked brings each run to a verdict.
pub proof fn answering_host_decides(submission: Submission, host: spec_fn(QueryView) -> Evidence)
    requires
        forall|query: QueryView| #[trigger] host(query).answers(query),
    ensures
        run(submission, Evidence::none(), host, 7) is Decided,
{
    let account = submission.action.ag_account;
    let block = submission.action.block;
    run_comes_to_answers(submission, host);
    assert(host(QueryView::Capacities).answers(QueryView::Capacities));
    assert(host(submission.eligibility_query(account)).answers(
        submission.eligibility_query(account),
    ));
    assert(host(submission.membership_query(account)).answers(
        submission.membership_query(account),
    ));
    assert(host(submission.signature_query(account)).answers(submission.signature_query(account)));
    assert(host(submission.tx_root_query()).answers(submission.tx_root_query()));
    assert(host(submission.block_root_query(block)).answers(submission.block_root_query(block)));
    assert(host(submission.new_block_root_query(block)).answers(
        submission.new_block_root_query(block),
    ));
}

/// A submission whose transaction does not keep the capacity is refused for that, whatever else
/// is known.
pub proof fn capacity_comes_first(submission: Submission, known: Evidence)
    requires
        known.capacities matches Some(changes) && changes.input != changes.output,
    ensures
        submission.outcome(known) == OutcomeView::Decided(Err(Error::IncorrectCapacity)),
{
}

/// A block is never accepted with an invalid signature: where the aggregator is valid and
/// exists, and the capacity is kept, the signature is the reason given.
pub proof fn invalid_signature_is_refused(submission: Submission, known: Evidence)
    requires
        known.signature == Some(false),
    ensures
        !submission.outcome(known).passed(),
        (known.capacities matches Some(changes) && changes.input == changes.output && (
        known.aggregator matches Some(Ok(_)) && (known.account_root matches Some(Ok(_)))))
            ==> submission.outcome(known) == OutcomeView::Decided(Err(Error::InvalidSignature)),
{
}

/// An accepted submission changes the account root, block root and block count of the global
/// state, and nothing else.
pub proof fn accepted_keeps_other_state(submission: Submission, known: Evidence)
    requires
        submission.outcome(known).passed(),
    ensures
        submission.new_state@ == submission.old_state@.advanced_to(submission.new_state@),
        submission.new_state.account_count == submission.old_state.account_count,
        submission.new_state.other_fields@ == submission.old_state.other_fields@,
{
    accepted_iff_acceptable(submission, known);
    assert(submission.new_state@ =~= submission.old_state@.advanced_to(submission.new_state@));
}

/// Accepted blocks form a chain: a block accepted on the state that another one led to starts
/// from the account root that the other one ended with, and from the same account count.
pub proof fn accepted_blocks_link(
    first: Submission,
    first_known: Evidence,
    second: Submission,
    second_known: Evidence,
)
    requires
        first.outcome(first_known).passed(),
        second.outcome(second_known).passed(),
        second.old_state@ == first.new_state@,
    ensures
        second.action.block.prev_account_root@ == first.action.block.account_root@,
        second.action.block.prev_account_count == first.action.block.prev_account_count,
{
    accepted_iff_acceptable(first, first_known);
    accepted_iff_acceptable(second, second_known);
    assert(second.old_state@.account_root == first.new_state@.account_root);
    assert(second.old_state@.account_count == first.new_state@.account_count);
}

/// The first block is accepted on a rollup without blocks only, and without a merkle proof. The
/// old block root is never asked for.
pub proof fn first_block_starts_from_nothing(submission: Submission, known: Evidence)
    requires
        submission.action.block.number == 0,
    ensures
        submission.outcome(known).passed() ==> submission.old_state.block_root@ == no_blocks()
            && submission.action.block_proof@.len() == 0,
        submission.outcome(known) matches OutcomeView::Needs(query) ==> query !is BlockRoot,
{
    accepted_iff_acceptable(submission, known);
}

/// What the aggregator signs does not depend on the signature that the block carries.
pub proof fn signature_is_not_signed(signed: AgBlock, resigned: AgBlock)
    requires
        signed.before_sig@ == resigned.before_sig@,
        signed.after_sig@ == resigned.after_sig@,
    ensures
        signed.sig_message_spec() == resigned.sig_message_spec(),
{
}

/// Exit codes are negative and tell the errors apart.
pub proof fn codes_are_distinct(a: Error, b: Error)
    ensures
        a.spec_code() < 0,
        a.spec_code() == b.spec_code() ==> a == b,
{
}

} // verus!
