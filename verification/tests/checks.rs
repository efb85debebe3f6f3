//! Each check by itself, with the host's answers given.

use submit_block::{
    other_bytes, same_bytes, split_at_sig, Account, AccountProof, AgBlock, CapacityChanges, Error, Evidence, GlobalState,
    KVMap, Outcome, Query, SubmitBlock, SubmitBlockVerifier,
};

const TOKEN: [u8; 32] = [5u8; 32];

/// The hash of the empty byte string.
const BLANK_HASH: [u8; 32] = [
    68, 244, 198, 151, 68, 213, 248, 197, 93, 100, 32, 98, 148, 157, 202, 228, 155, 196, 231, 239,
    67, 211, 136, 197, 161, 47, 66, 181, 99, 61, 22, 62,
];

fn old_state() -> GlobalState {
    GlobalState {
        account_root: [1u8; 32],
        account_count: 3,
        block_root: [2u8; 32],
        block_count: 4,
        other_fields: vec![1, 2, 3],
    }
}

fn new_state() -> GlobalState {
    GlobalState {
        account_root: [11u8; 32],
        account_count: 3,
        block_root: [12u8; 32],
        block_count: 5,
        other_fields: vec![1, 2, 3],
    }
}

fn action() -> SubmitBlock {
    let mut token_kv = KVMap::new();
    token_kv.insert(TOKEN, 2000);
    token_kv.insert([6u8; 32], 1);
    SubmitBlock {
        txs: vec![vec![], vec![1, 2, 3]],
        block: AgBlock {
            number: 4,
            tx_root: [20u8; 32],
            txs_count: 2,
            prev_account_root: [1u8; 32],
            prev_account_count: 3,
            account_root: [11u8; 32],
            ag_index: 2,
            ag_sig: [33u8; 65],
            before_sig: vec![40, 41],
            after_sig: vec![50],
        },
        block_proof: vec![[60u8; 32], [61u8; 32]],
        last_block_hash: [70u8; 32],
        ag_account: Account { index: 2, pubkey_hash: [80u8; 20], bytes: vec![90] },
        token_kv,
        account_proof: AccountProof {
            leaves_path: vec![vec![1]],
            branches: vec![([91u8; 32], 3)],
        },
    }
}

fn favourable() -> Evidence {
    Evidence {
        capacities: Some(CapacityChanges { input: 100, output: 100 }),
        aggregator: Some(Ok(())),
        account_root: Some(Ok(())),
        signature: Some(true),
        tx_root: Some([20u8; 32]),
        block_root: Some(Ok([2u8; 32])),
        new_block_root: Some(Ok([12u8; 32])),
    }
}

fn verdict(
    old_state: &GlobalState,
    new_state: &GlobalState,
    action: &SubmitBlock,
    known: &Evidence,
) -> Option<Result<(), Error>> {
    match SubmitBlockVerifier::new(old_state, new_state, action, &TOKEN).verify(known) {
        Outcome::Decided(result) => Some(result),
        Outcome::Needs(_) => None,
    }
}

fn verdict_on(known: &Evidence) -> Option<Result<(), Error>> {
    verdict(&old_state(), &new_state(), &action(), known)
}

fn verdict_of(action: &SubmitBlock) -> Option<Result<(), Error>> {
    verdict(&old_state(), &new_state(), action, &favourable())
}

#[test]
fn favourable_submission_is_accepted() {
    assert_eq!(verdict_on(&favourable()), Some(Ok(())));
}

#[test]
fn capacity_must_be_kept() {
    let mut known = Evidence::new();
    known.capacities = Some(CapacityChanges { input: 100, output: 99 });
    assert_eq!(verdict_on(&known), Some(Err(Error::IncorrectCapacity)));
    // it comes before every other reason
    let mut known = favourable();
    known.capacities = Some(CapacityChanges { input: 0, output: u64::MAX });
    known.signature = Some(false);
    known.aggregator = Some(Err(Error::InvalidAggregator));
    assert_eq!(verdict_on(&known), Some(Err(Error::IncorrectCapacity)));
}

#[test]
fn host_reasons_are_passed_on() {
    let mut known = favourable();
    known.aggregator = Some(Err(Error::InvalidAggregator));
    known.account_root = Some(Err(Error::InvalidAccountMerkleProof));
    assert_eq!(verdict_on(&known), Some(Err(Error::InvalidAggregator)));
    known.aggregator = Some(Ok(()));
    assert_eq!(verdict_on(&known), Some(Err(Error::InvalidAccountMerkleProof)));
}

#[test]
fn signature_must_be_valid() {
    let mut known = favourable();
    known.signature = Some(false);
    assert_eq!(verdict_on(&known), Some(Err(Error::InvalidSignature)));
}

#[test]
fn block_must_name_its_aggregator() {
    let mut other = action();
    other.block.ag_index = 1;
    // the index is looked at first
    other.block.prev_account_count = 4;
    assert_eq!(verdict_of(&other), Some(Err(Error::IncorrectAgIndex)));
}

#[test]
fn block_must_start_from_the_old_accounts() {
    let mut other = action();
    other.block.prev_account_count = 4;
    other.block.prev_account_root = [0u8; 32];
    assert_eq!(verdict_of(&other), Some(Err(Error::InvalidAccountCount)));
    other.block.prev_account_count = 3;
    assert_eq!(verdict_of(&other), Some(Err(Error::InvalidAccountRoot)));
}

#[test]
fn block_must_end_with_the_new_accounts() {
    let mut other = action();
    other.block.account_root[31] = 0;
    assert_eq!(verdict_of(&other), Some(Err(Error::InvalidAccountRoot)));
}

#[test]
fn block_must_commit_to_the_transactions() {
    let mut known = favourable();
    known.tx_root = Some([21u8; 32]);
    assert_eq!(verdict_on(&known), Some(Err(Error::InvalidTxRoot)));
    let mut other = action();
    other.block.txs_count = 3;
    assert_eq!(verdict_of(&other), Some(Err(Error::InvalidTxRoot)));
}

#[test]
fn old_block_root_must_follow_from_the_proof() {
    let mut known = favourable();
    known.block_root = Some(Err(()));
    assert_eq!(verdict_on(&known), Some(Err(Error::InvalidBlockMerkleProof)));
    known.block_root = Some(Ok([3u8; 32]));
    assert_eq!(verdict_on(&known), Some(Err(Error::InvalidBlockMerkleProof)));
}

#[test]
fn new_block_root_must_follow_from_the_proof() {
    let mut known = favourable();
    known.new_block_root = Some(Err(()));
    assert_eq!(verdict_on(&known), Some(Err(Error::InvalidBlockMerkleProof)));
    known.new_block_root = Some(Ok([2u8; 32]));
    assert_eq!(verdict_on(&known), Some(Err(Error::InvalidBlockMerkleProof)));
}

#[test]
fn first_block_needs_an_empty_rollup() {
    let mut first = action();
    first.block.number = 0;
    first.block_proof = vec![];
    let mut empty = old_state();
    empty.block_root = [0u8; 32];
    // the old block root does not have to be known
    let mut known = favourable();
    known.block_root = None;
    assert_eq!(verdict(&empty, &new_state(), &first, &known), Some(Ok(())));
    assert_eq!(
        verdict(&old_state(), &new_state(), &first, &known),
        Some(Err(Error::InvalidBlockMerkleProof))
    );
    first.block_proof = vec![[0u8; 32]];
    assert_eq!(
        verdict(&empty, &new_state(), &first, &known),
        Some(Err(Error::InvalidBlockMerkleProof))
    );
}

#[test]
fn only_roots_and_block_count_may_change() {
    let mut other = new_state();
    other.account_count = 4;
    assert_eq!(
        verdict(&old_state(), &other, &action(), &favourable()),
        Some(Err(Error::InvalidGlobalState))
    );
    let mut other = new_state();
    other.other_fields = vec![1, 2, 4];
    assert_eq!(
        verdict(&old_state(), &other, &action(), &favourable()),
        Some(Err(Error::InvalidGlobalState))
    );
    let mut other = new_state();
    other.block_count = 77;
    assert_eq!(verdict(&old_state(), &other, &action(), &favourable()), Some(Ok(())));
}

#[test]
fn questions_come_in_order_and_carry_their_grounds() {
    let old_state = old_state();
    let new_state = new_state();
    let action = action();
    let checker = SubmitBlockVerifier::new(&old_state, &new_state, &action, &TOKEN);
    let full = favourable();
    let mut known = Evidence::new();
    assert!(matches!(checker.verify(&known), Outcome::Needs(Query::Capacities)));
    known.capacities = full.capacities;
    match checker.verify(&known) {
        Outcome::Needs(Query::Aggregator { account, balance }) => {
            assert_eq!(account.bytes, vec![90]);
            assert_eq!(balance, 2000);
        }
        _ => panic!("aggregator"),
    }
    known.aggregator = full.aggregator;
    match checker.verify(&known) {
        Outcome::Needs(Query::AccountRoot {
            account_index,
            account,
            token_kv,
            account_proof,
            root,
        }) => {
            assert_eq!(account_index, 2);
            assert_eq!(account.bytes, vec![90]);
            assert_eq!(token_kv.get(&TOKEN), Some(2000));
            assert_eq!(account_proof.branches, vec![([91u8; 32], 3)]);
            assert_eq!(root, [1u8; 32]);
        }
        _ => panic!("account root"),
    }
    known.account_root = full.account_root;
    match checker.verify(&known) {
        Outcome::Needs(Query::Signature { signature, message, pubkey_hash }) => {
            assert_eq!(signature, [33u8; 65]);
            let mut blank = vec![40u8, 41];
            blank.extend_from_slice(&[0u8; 65]);
            blank.push(50);
            assert_eq!(message, ckb_hash::blake2b_256(&blank));
            assert_eq!(pubkey_hash, [80u8; 20]);
        }
        _ => panic!("signature"),
    }
    known.signature = full.signature;
    match checker.verify(&known) {
        Outcome::Needs(Query::TxRoot { tx_hashes }) => {
            assert_eq!(tx_hashes, vec![BLANK_HASH, ckb_hash::blake2b_256([1u8, 2, 3])]);
        }
        _ => panic!("tx root"),
    }
    known.tx_root = full.tx_root;
    match checker.verify(&known) {
        Outcome::Needs(Query::BlockRoot { block_index, block_hash, block_count, proof }) => {
            assert_eq!(block_index, 3);
            assert_eq!(block_hash, [70u8; 32]);
            assert_eq!(block_count, 5);
            assert_eq!(*proof, vec![[60u8; 32], [61u8; 32]]);
        }
        _ => panic!("block root"),
    }
    known.block_root = full.block_root;
    match checker.verify(&known) {
        Outcome::Needs(Query::NewBlockRoot {
            last_block,
            block_hash,
            block_number,
            block_count,
            proof,
        }) => {
            assert_eq!(last_block, Some((3, [70u8; 32])));
            let mut bytes = vec![40u8, 41];
            bytes.extend_from_slice(&[33u8; 65]);
            bytes.push(50);
            assert_eq!(block_hash, ckb_hash::blake2b_256(&bytes));
            assert_eq!(block_number, 4);
            assert_eq!(block_count, 5);
            assert_eq!(*proof, vec![[60u8; 32], [61u8; 32]]);
        }
        _ => panic!("new block root"),
    }
    known.new_block_root = full.new_block_root;
    assert!(matches!(checker.verify(&known), Outcome::Decided(Ok(()))));
}

#[test]
fn verdict_stands_when_more_is_known() {
    let mut known = Evidence::new();
    known.capacities = Some(CapacityChanges { input: 1, output: 1 });
    known.aggregator = Some(Err(Error::InvalidAggregator));
    let early = verdict_on(&known);
    let mut more = favourable();
    more.capacities = known.capacities;
    more.aggregator = known.aggregator;
    assert_eq!(early, Some(Err(Error::InvalidAggregator)));
    assert_eq!(verdict_on(&more), early);
}

#[test]
fn first_block_has_no_last_block() {
    let mut empty = old_state();
    empty.block_root = [0u8; 32];
    let new_state = new_state();
    let mut first = action();
    first.block.number = 0;
    first.block_proof = vec![];
    let mut known = favourable();
    known.block_root = None;
    known.new_block_root = None;
    match SubmitBlockVerifier::new(&empty, &new_state, &first, &TOKEN).verify(&known) {
        Outcome::Needs(Query::NewBlockRoot { last_block, block_number, block_count, .. }) => {
            assert_eq!(last_block, None);
            assert_eq!(block_number, 0);
            assert_eq!(block_count, 1);
        }
        _ => panic!("new block root"),
    }
}

#[test]
fn host_that_refuses_the_signing_key_stops_the_run() {
    let old_state = old_state();
    let new_state = new_state();
    let action = action();
    let checker = SubmitBlockVerifier::new(&old_state, &new_state, &action, &TOKEN);
    // the host knows one valid signature: on this block's message, by this account's key
    for (key, expected) in
        [([80u8; 20], Ok(())), ([81u8; 20], Err(Error::InvalidSignature))]
    {
        let mut known = favourable();
        known.signature = None;
        match checker.verify(&known) {
            Outcome::Needs(Query::Signature { message, pubkey_hash, .. }) => {
                known.signature =
                    Some(message == action.block.sig_message() && pubkey_hash == key);
            }
            _ => panic!("signature"),
        }
        match checker.verify(&known) {
            Outcome::Decided(result) => assert_eq!(result, expected),
            Outcome::Needs(_) => panic!("undecided"),
        }
    }
}

#[test]
fn sig_is_split_out_of_a_block() {
    let mut whole = vec![40u8, 41];
    whole.extend_from_slice(&[33u8; 65]);
    whole.push(50);
    assert_eq!(split_at_sig(&whole, 2), Some((vec![40, 41], [33u8; 65], vec![50])));
    assert_eq!(split_at_sig(&[33u8; 65], 0), Some((vec![], [33u8; 65], vec![])));
    assert_eq!(split_at_sig(&whole, 4), None);
    assert_eq!(split_at_sig(&whole, usize::MAX), None);
    assert_eq!(split_at_sig(&[], 0), None);
}

#[test]
fn other_bytes_are_those_without_a_name() {
    let whole = [0u8, 1, 2, 3, 4, 5, 6];
    assert_eq!(other_bytes(&whole, &vec![(1, 3), (5, 6)]), vec![0, 3, 4, 6]);
    // ranges may overlap, be empty, or reach too far
    assert_eq!(other_bytes(&whole, &vec![(4, 9), (4, 5), (2, 2)]), vec![0, 1, 2, 3]);
    assert_eq!(other_bytes(&whole, &vec![]), whole.to_vec());
}

#[test]
fn block_count_wraps_around() {
    let old_state = old_state();
    let new_state = new_state();
    let mut last = action();
    last.block.number = u64::MAX;
    let mut known = favourable();
    known.block_root = None;
    match SubmitBlockVerifier::new(&old_state, &new_state, &last, &TOKEN).verify(&known) {
        Outcome::Needs(Query::BlockRoot { block_index, block_count, .. }) => {
            assert_eq!(block_index, u64::MAX - 1);
            assert_eq!(block_count, 0);
        }
        _ => panic!("block root"),
    }
}

#[test]
fn missing_balance_counts_as_nothing() {
    let old_state = old_state();
    let new_state = new_state();
    let mut poor = action();
    poor.token_kv = KVMap::new();
    let mut known = Evidence::new();
    known.capacities = Some(CapacityChanges { input: 1, output: 1 });
    match SubmitBlockVerifier::new(&old_state, &new_state, &poor, &TOKEN).verify(&known) {
        Outcome::Needs(Query::Aggregator { balance, .. }) => assert_eq!(balance, 0),
        _ => panic!("aggregator"),
    }
}

#[test]
fn signing_leaves_the_message_alone() {
    let unsigned = action().block;
    let mut signed = action().block;
    signed.ag_sig = [44u8; 65];
    assert_eq!(unsigned.sig_message(), signed.sig_message());
    assert_ne!(unsigned.hash(), signed.hash());
    let mut blank = action().block;
    blank.ag_sig = [0u8; 65];
    assert_eq!(blank.hash(), blank.sig_message());
}

#[test]
fn stages_can_be_asked_for_separately() {
    let old_state = old_state();
    let new_state = new_state();
    let action = action();
    let checker = SubmitBlockVerifier::new(&old_state, &new_state, &action, &TOKEN);
    let known = favourable();
    let account = &action.ag_account;
    let block = &action.block;
    assert!(checker.verify_balance(&known).passed());
    assert!(checker.verify_aggregator(account, &known).passed());
    assert!(checker.verify_block(account, block, &known).passed());
    assert!(checker.verify_block_state(block, &known).passed());
    let none = Evidence::new();
    assert!(!checker.verify_balance(&none).passed());
    assert!(matches!(
        checker.verify_block(account, block, &none),
        Outcome::Needs(Query::TxRoot { .. })
    ));
}

#[test]
fn kv_map_keeps_one_balance_for_each_token() {
    let mut kv = KVMap::new();
    assert_eq!(kv.get(&[1u8; 32]), None);
    kv.insert([1u8; 32], 10);
    kv.insert([2u8; 32], 20);
    kv.insert([1u8; 32], 11);
    assert_eq!(kv.get(&[1u8; 32]), Some(11));
    assert_eq!(kv.get(&[2u8; 32]), Some(20));
    assert_eq!(kv.get(&[3u8; 32]), None);
    assert_eq!(*kv.entries(), vec![([1u8; 32], 11), ([2u8; 32], 20)]);
}

#[test]
fn same_bytes_compares_length_and_content() {
    assert!(same_bytes(&[], &[]));
    assert!(same_bytes(&[1, 2], &[1, 2]));
    assert!(!same_bytes(&[1, 2], &[1, 3]));
    assert!(!same_bytes(&[1, 2], &[1, 2, 3]));
}

#[test]
fn exit_codes() {
    let codes = [
        (Error::InvalidSince, -5i8),
        (Error::InvalidOutputTypeHash, -6),
        (Error::InvalidOutputLockHash, -7),
        (Error::InvalidAggregatorIndex, -8),
        (Error::InvalidChallengerIndex, -9),
        (Error::InvalidChallengeContext, -10),
        (Error::InvalidWitness, -11),
        (Error::IncorrectCapacity, -12),
        (Error::InvalidAccountCount, -110),
        (Error::InvalidAccountIndex, -13),
        (Error::InvalidAccountScript, -14),
        (Error::InvalidAccountNonce, -15),
        (Error::InvalidDepositAmount, -16),
        (Error::InvalidGlobalState, -17),
        (Error::InvalidAccountMerkleProof, -18),
        (Error::InvalidBlockMerkleProof, -19),
        (Error::InvalidAggregator, -20),
        (Error::InvalidTxRoot, -21),
        (Error::InvalidAccountRoot, -22),
        (Error::InvalidSignature, -23),
        (Error::IncorrectAgIndex, -27),
        (Error::TryRevertRevertedBlock, -33),
        (Error::InvalidNewAccountRoot, -36),
        (Error::InvalidScript, -38),
        (Error::InvalidChallengeCell, -39),
    ];
    for (error, code) in codes {
        assert_eq!(error.code(), code);
    }
}
