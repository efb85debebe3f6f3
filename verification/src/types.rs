//! What a submission consists of, as plain values.

use vstd::prelude::*;
use crate::hash::{blake2b_256, hash_bytes};
use crate::kv::KVMap;

verus! {

/// The capacity that a transaction takes in and gives out in the rollup's own cells.
#[derive(Debug, Clone, Copy, PartialEq, Eq, Structural)]
pub struct CapacityChanges {
    pub input: u64,
    pub output: u64,
}

/// An account of the rollup.
///
/// `bytes` must encode the fields beside it; whoever makes an account answers for that.
pub struct Account {
    pub index: u32,
    pub pubkey_hash: [u8; 20],
    /// The whole account in serialized form.
    pub bytes: Vec<u8>,
}

/// A proof that an account belongs to an account tree.
pub struct AccountProof {
    pub leaves_path: Vec<Vec<u8>>,
    /// The nodes beside the path, each with its height.
    pub branches: Vec<([u8; 32], u8)>,
}

/// A block of the rollup, signed by the aggregator who submits it.
///
/// Its serialized form is `before_sig`, then `ag_sig`, then `after_sig`. What is hashed and
/// signed are these bytes, and what is checked are the named fields: the bytes must encode the
/// fields, and whoever makes a block answers for that.
pub struct AgBlock {
    pub number: u64,
    pub tx_root: [u8; 32],
    pub txs_count: u32,
    pub prev_account_root: [u8; 32],
    pub prev_account_count: u32,
    pub account_root: [u8; 32],
    pub ag_index: u32,
    pub ag_sig: [u8; 65],
    /// The serialized fields that stand before the signature.
    pub before_sig: Vec<u8>,
    /// The serialized fields that stand behind the signature.
    pub after_sig: Vec<u8>,
}

/// The signature field of a block that is not signed yet.
pub open spec fn blank_sig() -> Seq<u8> {
    Seq::new(65, |i: int| 0u8)
}

impl AgBlock {
    /// The serialized block, with `sig` in its signature field.
    pub open spec fn bytes_with_sig(&self, sig: Seq<u8>) -> Seq<u8> {
        self.before_sig@ + sig + self.after_sig@
    }

    /// The hash of the block as submitted, signature included.
    pub open spec fn hash_spec(&self) -> Seq<u8> {
        blake2b_256(self.bytes_with_sig(self.ag_sig@))
    }

    /// The hash that the aggregator signs: that of the block with a blank signature.
    pub open spec fn sig_message_spec(&self) -> Seq<u8> {
        blake2b_256(self.bytes_with_sig(blank_sig()))
    }

    fn serialize_with(&self, sig: &[u8; 65]) -> (bytes: Vec<u8>)
        ensures
            bytes@ == self.bytes_with_sig(sig@),
    {
        let mut bytes: Vec<u8> = Vec::new();
        bytes.extend_from_slice(self.before_sig.as_slice());
        bytes.extend_from_slice(sig.as_slice());
        bytes.extend_from_slice(self.after_sig.as_slice());
        assert(bytes@ =~= self.bytes_with_sig(sig@));
        bytes
    }

    /// The hash of the block as submitted, signature included.
    pub fn hash(&self) -> (digest: [u8; 32])
        ensures
            digest@ == self.hash_spec(),
            digest@ == blake2b_256(self.before_sig@ + self.ag_sig@ + self.after_sig@),
    {
        let bytes = self.serialize_with(&self.ag_sig);
        hash_bytes(bytes.as_slice())
    }

    /// The hash that the aggregator signs: that of the block with a blank signature.
    pub fn sig_message(&self) -> (digest: [u8; 32])
        ensures
            digest@ == self.sig_message_spec(),
            digest@ == blake2b_256(
                self.before_sig@ + Seq::new(65, |i: int| 0u8) + self.after_sig@,
            ),
    {
        let blank: [u8; 65] = [0u8; 65];
        assert(blank@ =~= blank_sig());
        let bytes = self.serialize_with(&blank);
        hash_bytes(bytes.as_slice())
    }
}

/// The state of the whole rollup, as the chain keeps it.
///
/// `other_fields` must hold every field that has no name here; whoever makes a state answers for
/// that.
pub struct GlobalState {
    pub account_root: [u8; 32],
    pub account_count: u32,
    pub block_root: [u8; 32],
    pub block_count: u64,
    /// The remaining fields in serialized form.
    pub other_fields: Vec<u8>,
}

/// What a [`GlobalState`] holds.
#[verifier::ext_equal]
pub struct GlobalStateView {
    pub account_root: Seq<u8>,
    pub account_count: u32,
    pub block_root: Seq<u8>,
    pub block_count: u64,
    pub other_fields: Seq<u8>,
}

impl View for GlobalState {
    type V = GlobalStateView;

    open spec fn view(&self) -> GlobalStateView {
        GlobalStateView {
            account_root: self.account_root@,
            account_count: self.account_count,
            block_root: self.block_root@,
            block_count: self.block_count,
            other_fields: self.other_fields@,
        }
    }
}

impl GlobalStateView {
    /// This state with the account root, block root and block count of `new`.
    pub open spec fn advanced_to(self, new: GlobalStateView) -> GlobalStateView {
        GlobalStateView {
            account_root: new.account_root,
            block_root: new.block_root,
            block_count: new.block_count,
            ..self
        }
    }
}

/// The submission of a block.
pub struct SubmitBlock {
    /// The block's transactions in serialized form.
    pub txs: Vec<Vec<u8>>,
    pub block: AgBlock,
    /// The merkle proof of the last block, from which the new block root is computed too.
    pub block_proof: Vec<[u8; 32]>,
    pub last_block_hash: [u8; 32],
    /// The account of the aggregator who submits the block.
    pub ag_account: Account,
    /// The token balances of that account.
    pub token_kv: KVMap,
    pub account_proof: AccountProof,
}

impl SubmitBlock {
    /// The hashes of the transactions, in their order.
    pub open spec fn tx_hashes_spec(&self) -> Seq<Seq<u8>> {
        Seq::new(self.txs@.len(), |i: int| blake2b_256(self.txs@[i]@))
    }

    /// The hashes of the transactions, in their order.
    pub fn tx_hashes(&self) -> (hashes: Vec<[u8; 32]>)
        ensures
            digests(hashes@) == self.tx_hashes_spec(),
            hashes@.len() == self.txs@.len(),
            forall|i: int|
                0 <= i < self.txs@.len() ==> #[trigger] hashes@[i]@ == blake2b_256(self.txs@[i]@),
    {
        let mut hashes: Vec<[u8; 32]> = Vec::new();
        let mut i: usize = 0;
        while i < self.txs.len()
            invariant
                i <= self.txs@.len(),
                hashes@.len() == i,
                forall|j: int| 0 <= j < i ==> #[trigger] hashes@[j]@ == blake2b_256(self.txs@[j]@),
            decreases self.txs@.len() - i,
        {
            hashes.push(hash_bytes(self.txs[i].as_slice()));
            i = i + 1;
        }
        assert(digests(hashes@) =~= self.tx_hashes_spec());
        hashes
    }
}

/// The byte strings that a list of digests holds.
pub open spec fn digests(list: Seq<[u8; 32]>) -> Seq<Seq<u8>> {
    Seq::new(list.len(), |i: int| list[i]@)
}

} // verus!
