//! The parts of serialized values.

use vstd::prelude::*;

verus! {

/// The first bytes of a serialized block, its signature, which stands at `start`, and the bytes
/// behind it. Nothing where the block ends before the signature does.
pub fn split_at_sig(whole: &[u8], start: usize) -> (parts: Option<(Vec<u8>, [u8; 65], Vec<u8>)>)
    ensures
        parts is None <==> start + 65 > whole@.len(),
        parts matches Some((before, sig, after)) ==> before@ + sig@ + after@ == whole@
            && before@.len() == start,
{
    if whole.len() < 65 || start > whole.len() - 65 {
        return None;
    }
    let mut before: Vec<u8> = Vec::new();
    let mut sig: [u8; 65] = [0u8; 65];
    let mut after: Vec<u8> = Vec::new();
    let mut i: usize = 0;
    while i < start
        invariant
            i <= start <= whole@.len(),
            before@ == whole@.take(i as int),
        decreases start - i,
    {
        before.push(whole[i]);
        i = i + 1;
    }
    let mut j: usize = 0;
    while j < 65
        invariant
            j <= 65,
            start + 65 <= whole@.len() <= usize::MAX,
            forall|k: int| 0 <= k < j ==> sig@[k] == whole@[start + k],
        decreases 65 - j,
    {
        sig[j] = whole[start + j];
        j = j + 1;
    }
    let behind: usize = start + 65;
    let mut l: usize = behind;
    while l < whole.len()
        invariant
            behind <= l <= whole@.len(),
            after@ == whole@.subrange(behind as int, l as int),
        decreases whole@.len() - l,
    {
        after.push(whole[l]);
        l = l + 1;
    }
    assert(before@ + sig@ + after@ =~= whole@);
    Some((before, sig, after))
}

/// Whether position `i` lies in one of the named ranges, each from its first position up to, and
/// without, its second.
pub open spec fn in_named(named: Seq<(usize, usize)>, i: int) -> bool {
    exists|k: int| 0 <= k < named.len() && (#[trigger] named[k]).0 <= i < named[k].1
}

/// The bytes that lie in no named range, in order.
pub open spec fn unnamed(whole: Seq<u8>, named: Seq<(usize, usize)>) -> Seq<u8>
    decreases whole.len(),
{
    if whole.len() == 0 {
        Seq::empty()
    } else {
        let rest = unnamed(whole.drop_last(), named);
        if in_named(named, whole.len() - 1) {
            rest
        } else {
            rest.push(whole.last())
        }
    }
}

fn is_named(named: &Vec<(usize, usize)>, i: usize) -> (yes: bool)
    ensures
        yes == in_named(named@, i as int),
{
    let mut k: usize = 0;
    while k < named.len()
        invariant
            k <= named@.len(),
            forall|j: int| 0 <= j < k ==> !((#[trigger] named@[j]).0 <= i < named@[j].1),
        decreases named@.len() - k,
    {
        let (first, end) = named[k];
        if first <= i && i < end {
            assert(named@[k as int].0 <= i < named@[k as int].1);
            return true;
        }
        k = k + 1;
    }
    false
}

/// The bytes of a serialized value that lie in no named range, in order.
pub fn other_bytes(whole: &[u8], named: &Vec<(usize, usize)>) -> (rest: Vec<u8>)
    ensures
        rest@ == unnamed(whole@, named@),
{
    let mut rest: Vec<u8> = Vec::new();
    let mut i: usize = 0;
    while i < whole.len()
        invariant
            i <= whole@.len(),
            rest@ == unnamed(whole@.take(i as int), named@),
        decreases whole@.len() - i,
    {
        assert(whole@.take(i + 1).drop_last() =~= whole@.take(i as int));
        if !is_named(named, i) {
            rest.push(whole[i]);
        }
        i = i + 1;
    }
    assert(whole@.take(i as int) =~= whole@);
    rest
}

} // verus!
