//! The checksum that protects an ICMP message.

use vstd::prelude::*;

verus! {

/// The sum of the 16 bit big endian words that `data` is made of. A last odd
/// byte counts as the high byte of a word whose low byte is zero.
pub open spec fn word_sum(data: Seq<u8>) -> nat
    decreases data.len(),
{
    if data.len() == 0 {
        0
    } else if data.len() == 1 {
        data[0] as nat * 256
    } else {
        data[0] as nat * 256 + data[1] as nat + word_sum(data.skip(2))
    }
}

/// The one's complement reduction of a sum to 16 bits: carries out of the top
/// are added back in at the bottom. Zero stays zero, every other multiple of
/// `0xffff` becomes `0xffff`.
pub open spec fn fold(sum: nat) -> nat {
    if sum == 0 {
        0
    } else {
        ((sum - 1) % 0xffff + 1) as nat
    }
}

/// The checksum of `data`: the complement of the one's complement sum of its words.
pub open spec fn checksum_of(data: Seq<u8>) -> u16 {
    (0xffff - fold(word_sum(data))) as u16
}

/// Folding one summand first does not change what a sum folds to.
pub proof fn lemma_fold_add(a: nat, b: nat)
    ensures
        fold(fold(a) + b) == fold(a + b),
        fold(a) <= 0xffff,
{
}

/// A word sum can be taken in two parts that meet on a word boundary.
proof fn lemma_word_sum_split(data: Seq<u8>, at: int)
    requires
        0 <= at <= data.len(),
        at % 2 == 0,
    ensures
        word_sum(data) == word_sum(data.take(at)) + word_sum(data.skip(at)),
    decreases at,
{
    if at == 0 {
        assert(data.skip(0) =~= data);
        assert(data.take(0).len() == 0);
    } else {
        let rest = data.skip(2);
        lemma_word_sum_split(rest, at - 2);
        assert(data.take(at).skip(2) =~= rest.take(at - 2));
        assert(rest.skip(at - 2) =~= data.skip(at));
    }
}

/// The word sum of a concatenation is the sum of the word sums, as long as the
/// first part ends on a word boundary.
pub proof fn lemma_word_sum_concat(a: Seq<u8>, b: Seq<u8>)
    requires
        a.len() % 2 == 0,
    ensures
        word_sum(a + b) == word_sum(a) + word_sum(b),
{
    lemma_word_sum_split(a + b, a.len() as int);
    assert((a + b).take(a.len() as int) =~= a);
    assert((a + b).skip(a.len() as int) =~= b);
}

/// Computes the checksum of `data`.
pub fn checksum(data: &[u8]) -> (sum: u16)
    ensures
        sum == checksum_of(data@),
{
    let mut sum: u32 = 0;
    let mut i: usize = 0;
    proof {
        assert(data@.take(0).len() == 0);
    }
    while i < data.len()
        invariant
            i <= data@.len(),
            i % 2 == 0 || i == data@.len(),
            sum == fold(word_sum(data@.take(i as int))),
            sum <= 0xffff,
        decreases data@.len() - i,
    {
        let high: u32 = data[i] as u32 * 256;
        let last: bool = data.len() - i == 1;
        let low: u32 = if last { 0 } else { data[i + 1] as u32 };
        let step: usize = if last { 1 } else { 2 };
        proof {
            let next = data@.take(i + step);
            let word = next.skip(i as int);
            lemma_word_sum_split(next, i as int);
            assert(next.take(i as int) =~= data@.take(i as int));
            assert(word.len() == step);
            assert(word[0] == data@[i as int]);
            if !last {
                assert(word[1] == data@[i + 1]);
                assert(word.skip(2).len() == 0);
                assert(word_sum(word.skip(2)) == 0);
            }
            assert(word_sum(word) == high + low);
            lemma_fold_add(word_sum(data@.take(i as int)), (high + low) as nat);
        }
        sum = sum + high + low;
        if sum > 0xffff {
            sum = sum - 0xffff;
        }
        i = i + step;
    }
    proof {
        assert(data@.take(i as int) =~= data@);
    }
    (0xffff - sum) as u16
}

} // verus!
