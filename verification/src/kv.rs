//! The token balances of one account.

use vstd::prelude::*;
use crate::bytes::same_bytes;

verus! {

/// Whether `token` is the token of the entry at `i`.
pub open spec fn entry_for(entries: Seq<([u8; 32], u64)>, token: Seq<u8>, i: int) -> bool {
    0 <= i < entries.len() && entries[i].0@ == token
}

/// The map that a list of entries stands for.
pub open spec fn map_of(entries: Seq<([u8; 32], u64)>) -> Map<Seq<u8>, u64> {
    Map::new(
        |token: Seq<u8>| exists|i: int| entry_for(entries, token, i),
        |token: Seq<u8>| entries[choose|i: int| entry_for(entries, token, i)].1,
    )
}

/// No token has two entries.
pub open spec fn distinct_tokens(entries: Seq<([u8; 32], u64)>) -> bool {
    forall|i: int, j: int|
        0 <= i < entries.len() && 0 <= j < entries.len() && #[trigger] entries[i].0@
            == #[trigger] entries[j].0@ ==> i == j
}

/// A map from token to balance. A token that is absent has no balance recorded.
pub struct KVMap {
    entries: Vec<([u8; 32], u64)>,
}

impl View for KVMap {
    type V = Map<Seq<u8>, u64>;

    closed spec fn view(&self) -> Map<Seq<u8>, u64> {
        map_of(self.entries@)
    }
}

impl KVMap {
    #[verifier::type_invariant]
    spec fn well_formed(&self) -> bool {
        distinct_tokens(self.entries@)
    }

    /// A map without tokens.
    pub fn new() -> (kv: Self)
        ensures
            kv@ == Map::<Seq<u8>, u64>::empty(),
    {
        let kv = KVMap { entries: Vec::new() };
        assert(kv@ =~= Map::<Seq<u8>, u64>::empty());
        kv
    }

    /// Where the entry for `token` stands, if there is one.
    fn position(entries: &Vec<([u8; 32], u64)>, token: &[u8; 32]) -> (found: Option<usize>)
        ensures
            match found {
                Some(i) => entry_for(entries@, token@, i as int),
                None => forall|i: int| !entry_for(entries@, token@, i),
            },
    {
        let mut i: usize = 0;
        while i < entries.len()
            invariant
                i <= entries@.len(),
                forall|j: int| 0 <= j < i ==> !entry_for(entries@, token@, j),
            decreases entries@.len() - i,
        {
            if same_bytes(entries[i].0.as_slice(), token.as_slice()) {
                return Some(i);
            }
            i = i + 1;
        }
        None
    }

    /// Records a balance, in place of the one that the token had.
    pub fn insert(&mut self, token: [u8; 32], balance: u64)
        ensures
            final(self)@ == old(self)@.insert(token@, balance),
    {
        proof {
            use_type_invariant(&*self);
        }
        let mut entries: Vec<([u8; 32], u64)> = Vec::new();
        std::mem::swap(&mut entries, &mut self.entries);
        let ghost before = entries@;
        match KVMap::position(&entries, &token) {
            Some(i) => {
                entries.set(i, (token, balance));
                proof {
                    lemma_replace(before, i as int, token, balance);
                }
            },
            None => {
                entries.push((token, balance));
                proof {
                    lemma_push(before, token, balance);
                }
            },
        }
        self.entries = entries;
    }

    /// The balance of a token, if one is recorded.
    pub fn get(&self, token: &[u8; 32]) -> (balance: Option<u64>)
        ensures
            balance == (if self@.dom().contains(token@) {
                Some(self@[token@])
            } else {
                None
            }),
    {
        proof {
            use_type_invariant(&*self);
        }
        match KVMap::position(&self.entries, token) {
            Some(i) => {
                proof {
                    lemma_lookup(self.entries@, i as int);
                }
                Some(self.entries[i].1)
            },
            None => None,
        }
    }

    /// The recorded balances, each token once.
    pub fn entries(&self) -> (entries: &Vec<([u8; 32], u64)>)
        ensures
            distinct_tokens(entries@),
            map_of(entries@) == self@,
    {
        proof {
            use_type_invariant(&*self);
        }
        &self.entries
    }
}

/// What the map holds for the token of the entry at `i`.
proof fn lemma_lookup(entries: Seq<([u8; 32], u64)>, i: int)
    requires
        distinct_tokens(entries),
        0 <= i < entries.len(),
    ensures
        map_of(entries).dom().contains(entries[i].0@),
        map_of(entries)[entries[i].0@] == entries[i].1,
{
    assert(entry_for(entries, entries[i].0@, i));
}

/// Replacing the balance at `i` replaces it in the map.
proof fn lemma_replace(entries: Seq<([u8; 32], u64)>, i: int, token: [u8; 32], balance: u64)
    requires
        distinct_tokens(entries),
        entry_for(entries, token@, i),
    ensures
        distinct_tokens(entries.update(i, (token, balance))),
        map_of(entries.update(i, (token, balance))) == map_of(entries).insert(token@, balance),
{
    let after = entries.update(i, (token, balance));
    assert forall|j: int| 0 <= j < entries.len() implies after[j].0@ == entries[j].0@ by {}
    assert forall|t: Seq<u8>, j: int| entry_for(after, t, j) == entry_for(entries, t, j) by {}
    assert(map_of(after) =~= map_of(entries).insert(token@, balance)) by {
        assert forall|t: Seq<u8>|
            map_of(after).dom().contains(t) == map_of(entries).insert(
                token@,
                balance,
            ).dom().contains(t) by {
            if t == token@ {
                assert(entry_for(after, t, i));
            }
            if exists|j: int| entry_for(entries, t, j) {
                let j = choose|j: int| entry_for(entries, t, j);
                assert(entry_for(after, t, j));
            }
            if exists|j: int| entry_for(after, t, j) {
                let j = choose|j: int| entry_for(after, t, j);
                assert(entry_for(entries, t, j));
            }
        }
        assert forall|t: Seq<u8>| map_of(after).dom().contains(t) implies map_of(after)[t]
            == map_of(entries).insert(token@, balance)[t] by {
            let j = choose|j: int| entry_for(after, t, j);
            assert(entry_for(after, t, j));
            assert(entry_for(entries, t, j));
            lemma_lookup(after, j);
            lemma_lookup(entries, j);
            if t == token@ {
                assert(i == j);
            }
        }
    }
}

/// An entry for a new token adds it to the map.
proof fn lemma_push(entries: Seq<([u8; 32], u64)>, token: [u8; 32], balance: u64)
    requires
        distinct_tokens(entries),
        forall|i: int| !entry_for(entries, token@, i),
    ensures
        distinct_tokens(entries.push((token, balance))),
        map_of(entries.push((token, balance))) == map_of(entries).insert(token@, balance),
{
    let after = entries.push((token, balance));
    let last = entries.len() as int;
    assert forall|i: int, j: int|
        0 <= i < after.len() && 0 <= j < after.len() && #[trigger] after[i].0@
            == #[trigger] after[j].0@ implies i == j by {
        assert(!entry_for(entries, token@, i));
        assert(!entry_for(entries, token@, j));
        if i < last && j < last {
            assert(entries[i].0@ == entries[j].0@);
        }
    }
    assert(map_of(after) =~= map_of(entries).insert(token@, balance)) by {
        assert forall|t: Seq<u8>|
            map_of(after).dom().contains(t) == map_of(entries).insert(
                token@,
                balance,
            ).dom().contains(t) by {
            assert(entry_for(after, token@, last));
            if exists|j: int| entry_for(entries, t, j) {
                let j = choose|j: int| entry_for(entries, t, j);
                assert(entry_for(after, t, j));
            }
            if exists|j: int| entry_for(after, t, j) {
                let j = choose|j: int| entry_for(after, t, j);
                if j < last {
                    assert(entry_for(entries, t, j));
                }
            }
        }
        assert forall|t: Seq<u8>| map_of(after).dom().contains(t) implies map_of(after)[t]
            == map_of(entries).insert(token@, balance)[t] by {
            let j = choose|j: int| entry_for(after, t, j);
            assert(entry_for(after, t, j));
            lemma_lookup(after, j);
            if j < last {
                assert(entry_for(entries, t, j));
                lemma_lookup(entries, j);
            }
        }
    }
}

} // verus!
