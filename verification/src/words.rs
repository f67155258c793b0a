//! Words as the bytes that a device buffer takes.

use vstd::prelude::*;

verus! {

/// The bytes of a word, least significant first.
pub open spec fn little_bytes(word: u32) -> Seq<u8> {
    seq![
        (word % 0x100) as u8,
        ((word / 0x100) % 0x100) as u8,
        ((word / 0x100 / 0x100) % 0x100) as u8,
        (word / 0x100 / 0x100 / 0x100) as u8,
    ]
}

/// The bytes of the words in turn, each word least significant byte first.
pub open spec fn little_order(words: Seq<u32>) -> Seq<u8> {
    Seq::new(4 * words.len(), |i: int| little_bytes(words[i / 4])[i % 4])
}

/// The bytes of the words in turn, each word most significant byte first.
pub open spec fn big_order(words: Seq<u32>) -> Seq<u8> {
    Seq::new(4 * words.len(), |i: int| little_bytes(words[i / 4])[3 - i % 4])
}

/// `bytes` are `words` in memory: in turn, in the machine's byte order.
pub open spec fn in_memory(words: Seq<u32>, bytes: Seq<u8>) -> bool {
    bytes == little_order(words) || bytes == big_order(words)
}

/// Calls `bytemuck::cast_slice` from words to bytes and copies what it views.
///
/// The cast keeps the memory as it is, so the bytes are the words in turn, four
/// to a word, in the order that the machine stores them in; which order that
/// is stays open. From words to bytes the cast never panics: bytes have no
/// alignment to miss and divide every size.
#[verifier::external_body]
fn cast_words(words: &[u32]) -> (bytes: Vec<u8>)
    ensures
        in_memory(words@, bytes@),
{
    bytemuck::cast_slice::<u32, u8>(words).to_vec()
}

/// The words as a device buffer takes them.
pub fn buffer_bytes(words: &[u32]) -> (bytes: Vec<u8>)
    ensures
        in_memory(words@, bytes@),
        bytes@.len() == 4 * words@.len(),
{
    cast_words(words)
}

/// Two lists of words with the same bytes in the same order are the same list.
pub proof fn law_bytes_tell_words_apart(a: Seq<u32>, b: Seq<u32>)
    ensures
        little_order(a) == little_order(b) ==> a == b,
        big_order(a) == big_order(b) ==> a == b,
{
    if little_order(a) == little_order(b) {
        assert(little_order(a).len() == little_order(b).len());
        assert forall|i: int| 0 <= i < a.len() implies a[i] == b[i] by {
            assert(little_order(a)[4 * i] == little_order(b)[4 * i]);
            assert(little_order(a)[4 * i + 1] == little_order(b)[4 * i + 1]);
            assert(little_order(a)[4 * i + 2] == little_order(b)[4 * i + 2]);
            assert(little_order(a)[4 * i + 3] == little_order(b)[4 * i + 3]);
            lemma_word_of_bytes(a[i], b[i]);
        }
        assert(a =~= b);
    }
    if big_order(a) == big_order(b) {
        assert(big_order(a).len() == big_order(b).len());
        assert forall|i: int| 0 <= i < a.len() implies a[i] == b[i] by {
            assert(big_order(a)[4 * i] == big_order(b)[4 * i]);
            assert(big_order(a)[4 * i + 1] == big_order(b)[4 * i + 1]);
            assert(big_order(a)[4 * i + 2] == big_order(b)[4 * i + 2]);
            assert(big_order(a)[4 * i + 3] == big_order(b)[4 * i + 3]);
            lemma_word_of_bytes(a[i], b[i]);
        }
        assert(a =~= b);
    }
}

proof fn lemma_word_of_bytes(a: u32, b: u32)
    requires
        little_bytes(a)[0] == little_bytes(b)[0],
        little_bytes(a)[1] == little_bytes(b)[1],
        little_bytes(a)[2] == little_bytes(b)[2],
        little_bytes(a)[3] == little_bytes(b)[3],
    ensures
        a == b,
{
    assert(a / 0x100 / 0x100 == b / 0x100 / 0x100);
    assert(a / 0x100 == b / 0x100);
}

/// The bytes of a word make it up again, whichever way they are ordered, and every
/// word takes four.
pub proof fn law_bytes_make_up_the_word(words: Seq<u32>, bytes: Seq<u8>, k: int)
    requires
        in_memory(words, bytes),
        0 <= k < words.len(),
    ensures
        bytes.len() == 4 * words.len(),
        ({
            let up = bytes[4 * k] + 0x100 * bytes[4 * k + 1] + 0x1_0000 * bytes[4 * k + 2]
                + 0x100_0000 * bytes[4 * k + 3];
            let down = bytes[4 * k + 3] + 0x100 * bytes[4 * k + 2] + 0x1_0000 * bytes[4 * k + 1]
                + 0x100_0000 * bytes[4 * k];
            words[k] == up || words[k] == down
        }),
{
    let word = words[k];
    let at = little_bytes(word);
    assert(4 * k / 4 == k && (4 * k + 1) / 4 == k && (4 * k + 2) / 4 == k && (4 * k + 3) / 4 == k);
    assert(4 * k % 4 == 0 && (4 * k + 1) % 4 == 1 && (4 * k + 2) % 4 == 2 && (4 * k + 3) % 4 == 3);
    assert(word / 0x100 / 0x100 / 0x100 < 0x100);
    assert(word == at[0] + 0x100 * at[1] + 0x1_0000 * at[2] + 0x100_0000 * at[3]);
}

} // verus!
