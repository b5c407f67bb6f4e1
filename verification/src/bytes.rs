//! Little-endian bytes of 32-bit words.

use vstd::prelude::*;

verus! {

/// Byte `k` of a word, the least significant byte first.
pub open spec fn byte_of(word: u32, k: int) -> u8 {
    if k == 0 {
        (word % 0x100) as u8
    } else if k == 1 {
        (word / 0x100 % 0x100) as u8
    } else if k == 2 {
        (word / 0x1_0000 % 0x100) as u8
    } else {
        (word / 0x100_0000) as u8
    }
}

/// The bytes of a run of words.
pub open spec fn bytes_of(words: Seq<u32>) -> Seq<u8> {
    Seq::new(words.len() * 4, |i: int| byte_of(words[i / 4], i % 4))
}

/// Appends the bytes of the first `count` words.
pub fn push_words(out: &mut Vec<u8>, words: &[u32], count: usize)
    requires
        count <= words@.len(),
    ensures
        final(out)@ == old(out)@ + bytes_of(words@.take(count as int)),
{
    let mut i: usize = 0;
    assert(out@ =~= out@ + bytes_of(words@.take(0)));
    while i < count
        invariant
            i <= count <= words@.len(),
            out@ == old(out)@ + bytes_of(words@.take(i as int)),
        decreases count - i,
    {
        let word: u32 = words[i];
        let ghost before = out@;
        out.push((word % 0x100) as u8);
        out.push((word / 0x100 % 0x100) as u8);
        out.push((word / 0x1_0000 % 0x100) as u8);
        out.push((word / 0x100_0000) as u8);
        proof {
            let shorter = bytes_of(words@.take(i as int));
            let longer = bytes_of(words@.take(i + 1));
            assert forall|j: int| 0 <= j < shorter.len() implies longer[j] == shorter[j] by {}
            assert(out@ =~= old(out)@ + longer);
        }
        i = i + 1;
    }
}

/// The words can be read back out of their bytes.
pub proof fn law_bytes_keep_words(words: Seq<u32>, i: int)
    requires
        0 <= i < words.len(),
    ensures
        words[i] == bytes_of(words)[4 * i] + bytes_of(words)[4 * i + 1] * 0x100 + bytes_of(
            words,
        )[4 * i + 2] * 0x1_0000 + bytes_of(words)[4 * i + 3] * 0x100_0000,
{
}

/// Every word has four bytes.
pub proof fn law_words_have_four_bytes(words: Seq<u32>)
    ensures
        bytes_of(words).len() == 4 * words.len(),
{
}

} // verus!
