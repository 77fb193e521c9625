use vstd::prelude::*;

use crate::mem::Memory;

verus! {

/// Word `k` of a program image: bytes `2k` and `2k + 1`, big-endian.
pub open spec fn image_word(image: Seq<u8>, k: int) -> u16 {
    (image[2 * k] as int * 256 + image[2 * k + 1] as int) as u16
}

/// Number of whole words in an image; a trailing odd byte is ignored.
pub open spec fn word_count(image: Seq<u8>) -> int {
    image.len() as int / 2
}

/// Address that word `k` (for `k >= 1`) of the image is loaded at: the
/// origin (word 0) plus `k - 1`, modulo 65536.
pub open spec fn load_address(image: Seq<u8>, k: int) -> int {
    (image_word(image, 0) as int + k - 1) % 0x10000
}

/// Memory `m` after words 1 to `k - 1` of the image have been written in order.
pub open spec fn loaded(m: Seq<u16>, image: Seq<u8>, k: nat) -> Seq<u16>
    decreases k,
{
    if k <= 1 {
        m
    } else {
        loaded(m, image, (k - 1) as nat).update(
            load_address(image, k - 1),
            image_word(image, k - 1),
        )
    }
}

/// When an image holds at most 65537 words, so that no two of its words
/// land on the same address, each word `k >= 1` ends up at the origin plus
/// `k - 1` (modulo 65536).
pub proof fn lemma_image_words_in_place(m: Seq<u16>, image: Seq<u8>, k: int)
    requires
        m.len() == 0x10000,
        word_count(image) <= 0x10001,
        1 <= k < word_count(image),
    ensures
        loaded(m, image, word_count(image) as nat)[load_address(image, k)] == image_word(image, k),
{
    lemma_word_stays(m, image, k, word_count(image) as nat);
}

proof fn lemma_loaded_len(m: Seq<u16>, image: Seq<u8>, j: nat)
    requires
        m.len() == 0x10000,
    ensures
        loaded(m, image, j).len() == m.len(),
    decreases j,
{
    if j > 1 {
        lemma_loaded_len(m, image, (j - 1) as nat);
        assert(0 <= load_address(image, j - 1) < 0x10000);
    }
}

proof fn lemma_word_stays(m: Seq<u16>, image: Seq<u8>, k: int, j: nat)
    requires
        m.len() == 0x10000,
        1 <= k < j <= 0x10001,
    ensures
        loaded(m, image, j)[load_address(image, k)] == image_word(image, k),
    decreases j,
{
    lemma_loaded_len(m, image, (j - 1) as nat);
    let o = image_word(image, 0) as int;
    assert(0 <= load_address(image, k) < 0x10000);
    if j - 1 > k {
        lemma_word_stays(m, image, k, (j - 1) as nat);
        let a = o + k - 1;
        let b = o + j - 2;
        assert(a % 0x10000 != b % 0x10000) by (nonlinear_arith)
            requires 0 <= a < b < a + 0x10000;
    }
}

/// Loads a program image into memory. The image is a sequence of big-endian
/// words: the first is the origin, the following ones are written to
/// consecutive addresses from the origin on (wrapping). Returns the origin,
/// or `None` when the image holds no whole word, in which case memory is
/// left as it was.
pub fn load_image(mem: &mut Memory, image: &Vec<u8>) -> (origin: Option<u16>)
    ensures
        word_count(image@) == 0 ==> origin is None && final(mem)@ == old(mem)@,
        word_count(image@) > 0 ==> origin == Some(image_word(image@, 0))
            && final(mem)@ == loaded(old(mem)@, image@, word_count(image@) as nat),
{
    let len: usize = image.len();
    let n: usize = len / 2;
    if n == 0 {
        return None;
    }
    let origin: u16 = (image[0] as u16) * 256 + (image[1] as u16);
    let mut addr: u16 = origin;
    let mut k: usize = 1;
    while k < n
        invariant
            1 <= k <= n,
            len == image@.len(),
            n == word_count(image@),
            origin == image_word(image@, 0),
            addr as int == load_address(image@, k as int),
            mem@ == loaded(old(mem)@, image@, k as nat),
        decreases n - k,
    {
        assert(2 * k + 1 < image@.len());
        let word: u16 = (image[2 * k] as u16) * 256 + (image[2 * k + 1] as u16);
        mem.write_word(addr, word);
        addr = addr.wrapping_add(1);
        k = k + 1;
    }
    Some(origin)
}

} // verus!
