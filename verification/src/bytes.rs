use vstd::prelude::*;

verus! {

/// The four bytes of a 32-bit word, the least significant first.
pub open spec fn word_bytes(word: u32) -> Seq<u8> {
    seq![
        (word % 256) as u8,
        (word / 256 % 256) as u8,
        (word / 65536 % 256) as u8,
        (word / 16777216) as u8,
    ]
}

/// The two bytes of a 16-bit word, the least significant first.
pub open spec fn half_bytes(half: u16) -> Seq<u8> {
    seq![(half % 256) as u8, (half / 256) as u8]
}

/// `bytes` holds the 32-bit words one after the other, four bytes each, and
/// every word in the same byte order: the least significant byte first in
/// all of them, or the most significant byte first in all of them.
pub open spec fn is_word_image(bytes: Seq<u8>, words: Seq<u32>) -> bool {
    &&& bytes.len() == 4 * words.len()
    &&& {
        ||| forall|i: int|
            0 <= i < words.len() ==> bytes.subrange(4 * i, 4 * i + 4) == word_bytes(
                #[trigger] words[i],
            )
        ||| forall|i: int|
            0 <= i < words.len() ==> bytes.subrange(4 * i, 4 * i + 4) == word_bytes(
                #[trigger] words[i],
            ).reverse()
    }
}

/// `bytes` holds the 16-bit words one after the other, two bytes each, and
/// every word in the same byte order.
pub open spec fn is_half_image(bytes: Seq<u8>, halves: Seq<u16>) -> bool {
    &&& bytes.len() == 2 * halves.len()
    &&& {
        ||| forall|i: int|
            0 <= i < halves.len() ==> bytes.subrange(2 * i, 2 * i + 2) == half_bytes(
                #[trigger] halves[i],
            )
        ||| forall|i: int|
            0 <= i < halves.len() ==> bytes.subrange(2 * i, 2 * i + 2) == half_bytes(
                #[trigger] halves[i],
            ).reverse()
    }
}

/// The words of the chunks, one chunk after the other.
pub open spec fn joined(chunks: Seq<Seq<u32>>) -> Seq<u32>
    decreases chunks.len(),
{
    if chunks.len() == 0 {
        Seq::empty()
    } else {
        joined(chunks.drop_last()) + chunks.last()
    }
}

/// Joining one more chunk appends its words.
pub proof fn lemma_joined_push(chunks: Seq<Seq<u32>>, last: Seq<u32>)
    ensures
        joined(chunks.push(last)) == joined(chunks) + last,
{
    assert(chunks.push(last).drop_last() =~= chunks);
}

/// Chunks of `size` words each join to `size` words for each chunk.
pub proof fn lemma_joined_len(chunks: Seq<Seq<u32>>, size: nat)
    requires
        forall|i: int| 0 <= i < chunks.len() ==> (#[trigger] chunks[i]).len() == size,
    ensures
        joined(chunks).len() == size * chunks.len(),
    decreases chunks.len(),
{
    if chunks.len() > 0 {
        lemma_joined_len(chunks.drop_last(), size);
        assert(size * chunks.len() == size * (chunks.len() - 1) + size) by (nonlinear_arith);
    } else {
        assert(size * chunks.len() == 0) by (nonlinear_arith)
            requires
                chunks.len() == 0,
        ;
    }
}

/// The bytes that the 32-bit words occupy in memory, copied out. This calls
/// `zerocopy::AsBytes::as_bytes` on the slice of the words. The contract
/// claims what that function's source shows, a view of the memory of the
/// slice: four bytes for each word, the words in their order, each in the
/// byte order of the machine, which is one of the two there are.
#[verifier::external_body]
pub(crate) fn words_as_bytes(words: &Vec<u32>) -> (bytes: Vec<u8>)
    ensures
        is_word_image(bytes@, words@),
{
    zerocopy::AsBytes::as_bytes(words.as_slice()).to_vec()
}

/// The bytes that the 16-bit words occupy in memory, copied out. This calls
/// `zerocopy::AsBytes::as_bytes` on the slice of the words. The contract
/// claims what that function's source shows, a view of the memory of the
/// slice: two bytes for each word, the words in their order, each in the
/// byte order of the machine, which is one of the two there are.
#[verifier::external_body]
pub(crate) fn halves_as_bytes(halves: &Vec<u16>) -> (bytes: Vec<u8>)
    ensures
        is_half_image(bytes@, halves@),
{
    zerocopy::AsBytes::as_bytes(halves.as_slice()).to_vec()
}

} // verus!
