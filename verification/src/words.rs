//! 32-bit words and their byte images, in either byte order.
//!
//! Device buffers are filled and read back as raw bytes laid out in the
//! host's own byte order. The library carries each 32-bit element as its bit
//! pattern (`u32`) and converts between words and bytes here.

use vstd::prelude::*;

verus! {

/// The order in which the four bytes of a word are laid out in memory.
#[derive(Clone, Copy, Debug, PartialEq, Eq, Structural)]
pub enum ByteOrder {
    /// Least significant byte first.
    Little,
    /// Most significant byte first.
    Big,
}

/// Byte `k` (0 = least significant) of `w`.
pub open spec fn byte_of(w: u32, k: u32) -> u8 {
    ((w >> (8 * k)) & 0xff) as u8
}

/// The `k`-th byte in memory of the word `w` laid out in `order`.
pub open spec fn word_byte(order: ByteOrder, w: u32, k: u32) -> u8 {
    match order {
        ByteOrder::Little => byte_of(w, k),
        ByteOrder::Big => byte_of(w, (3 - k) as u32),
    }
}

/// The four bytes in memory of the word `w` laid out in `order`.
pub open spec fn word_to_bytes(order: ByteOrder, w: u32) -> Seq<u8> {
    seq![word_byte(order, w, 0), word_byte(order, w, 1), word_byte(order, w, 2), word_byte(order, w, 3)]
}

/// The word whose bytes are `b0 b1 b2 b3` (from least significant to most).
pub open spec fn compose(b0: u8, b1: u8, b2: u8, b3: u8) -> u32 {
    (b0 as u32) | ((b1 as u32) << 8) | ((b2 as u32) << 16) | ((b3 as u32) << 24)
}

/// The word stored in memory as the bytes `m0 m1 m2 m3` in `order`.
pub open spec fn word_from_bytes(order: ByteOrder, m0: u8, m1: u8, m2: u8, m3: u8) -> u32 {
    match order {
        ByteOrder::Little => compose(m0, m1, m2, m3),
        ByteOrder::Big => compose(m3, m2, m1, m0),
    }
}

/// The byte image of `words`: each word's four bytes, one word after the other.
pub open spec fn encode(order: ByteOrder, words: Seq<u32>) -> Seq<u8> {
    Seq::new(4 * words.len(), |i: int| word_byte(order, words[i / 4], (i % 4) as u32))
}

/// The words whose byte image is `bytes`, four bytes per word.
pub open spec fn decode(order: ByteOrder, bytes: Seq<u8>) -> Seq<u32> {
    Seq::new(
        bytes.len() / 4,
        |i: int| word_from_bytes(order, bytes[4 * i], bytes[4 * i + 1], bytes[4 * i + 2], bytes[4 * i + 3]),
    )
}

proof fn lemma_word_round_trip(w: u32)
    ensures
        compose(byte_of(w, 0), byte_of(w, 1), byte_of(w, 2), byte_of(w, 3)) == w,
{
    assert(((w >> 0) & 0xff) as u8 as u32 | (((w >> 8) & 0xff) as u8 as u32) << 8 | (((w >> 16)
        & 0xff) as u8 as u32) << 16 | (((w >> 24) & 0xff) as u8 as u32) << 24 == w) by (bit_vector);
}

proof fn lemma_bytes_round_trip(b0: u8, b1: u8, b2: u8, b3: u8)
    ensures
        byte_of(compose(b0, b1, b2, b3), 0) == b0,
        byte_of(compose(b0, b1, b2, b3), 1) == b1,
        byte_of(compose(b0, b1, b2, b3), 2) == b2,
        byte_of(compose(b0, b1, b2, b3), 3) == b3,
{
    let w = compose(b0, b1, b2, b3);
    assert(w == (b0 as u32) | ((b1 as u32) << 8) | ((b2 as u32) << 16) | ((b3 as u32) << 24));
    assert(w == (b0 as u32) | ((b1 as u32) << 8) | ((b2 as u32) << 16) | ((b3 as u32) << 24) ==> {
        &&& ((w >> 0) & 0xff) as u8 == b0
        &&& ((w >> 8) & 0xff) as u8 == b1
        &&& ((w >> 16) & 0xff) as u8 == b2
        &&& ((w >> 24) & 0xff) as u8 == b3
    }) by (bit_vector);
}

/// Reading back the bytes that a word was written as gives the word again.
pub proof fn lemma_word_bytes_round_trip(order: ByteOrder, w: u32)
    ensures
        word_from_bytes(
            order,
            word_byte(order, w, 0),
            word_byte(order, w, 1),
            word_byte(order, w, 2),
            word_byte(order, w, 3),
        ) == w,
{
    lemma_word_round_trip(w);
}

/// Writing out the word that four bytes were read as gives the four bytes again.
pub proof fn lemma_bytes_word_round_trip(order: ByteOrder, m0: u8, m1: u8, m2: u8, m3: u8)
    ensures
        word_byte(order, word_from_bytes(order, m0, m1, m2, m3), 0) == m0,
        word_byte(order, word_from_bytes(order, m0, m1, m2, m3), 1) == m1,
        word_byte(order, word_from_bytes(order, m0, m1, m2, m3), 2) == m2,
        word_byte(order, word_from_bytes(order, m0, m1, m2, m3), 3) == m3,
{
    match order {
        ByteOrder::Little => lemma_bytes_round_trip(m0, m1, m2, m3),
        ByteOrder::Big => lemma_bytes_round_trip(m3, m2, m1, m0),
    }
}

/// The bytes of `w` in memory, laid out in `order`.
pub fn word_to_bytes_exec(order: ByteOrder, w: u32) -> (r: [u8; 4])
    ensures
        r@ == word_to_bytes(order, w),
{
    let b0 = (w & 0xff) as u8;
    let b1 = ((w >> 8) & 0xff) as u8;
    let b2 = ((w >> 16) & 0xff) as u8;
    let b3 = ((w >> 24) & 0xff) as u8;
    assert(b0 == byte_of(w, 0) && b1 == byte_of(w, 1) && b2 == byte_of(w, 2) && b3 == byte_of(w, 3))
        by {
        assert(w & 0xff == (w >> 0) & 0xff) by (bit_vector);
    }
    let r = match order {
        ByteOrder::Little => [b0, b1, b2, b3],
        ByteOrder::Big => [b3, b2, b1, b0],
    };
    assert(r@ =~= word_to_bytes(order, w));
    r
}


/// The byte image of `words` laid out in `order`.
pub fn encode_words(order: ByteOrder, words: &[u32]) -> (r: Vec<u8>)
    requires
        4 * words@.len() <= usize::MAX,
    ensures
        r@ == encode(order, words@),
        r@.len() == 4 * words@.len(),
        decode(order, r@) == words@,
        forall|i: int|
            0 <= i < words@.len() ==> r@.subrange(4 * i, 4 * i + 4) == word_to_bytes(
                order,
                #[trigger] words@[i],
            ),
{
    let n = words.len();
    let mut out: Vec<u8> = Vec::with_capacity(4 * n);
    let mut i: usize = 0;
    while i < n
        invariant
            n == words@.len(),
            4 * n <= usize::MAX,
            i <= n,
            out@ =~= encode(order, words@.subrange(0, i as int)),
        decreases n - i,
    {
        let bytes = word_to_bytes_exec(order, words[i]);
        let ghost before = out@;
        out.push(bytes[0]);
        out.push(bytes[1]);
        out.push(bytes[2]);
        out.push(bytes[3]);
        proof {
            let ws = words@.subrange(0, i + 1);
            assert forall|j: int| 0 <= j < 4 * ws.len() implies #[trigger] out@[j] == word_byte(
                order,
                ws[j / 4],
                (j % 4) as u32,
            ) by {
                if j < 4 * i {
                    assert(out@[j] == before[j]);
                    assert(words@.subrange(0, i as int)[j / 4] == ws[j / 4]);
                } else {
                    assert(j / 4 == i);
                }
            }
        }
        i = i + 1;
    }
    assert(words@.subrange(0, n as int) =~= words@);
    proof {
        lemma_decode_encode(order, words@);
        lemma_encode_layout(order, words@);
    }
    out
}

/// The words whose byte image in `order` is `bytes`.
pub fn decode_words(order: ByteOrder, bytes: &[u8]) -> (r: Vec<u32>)
    requires
        bytes@.len() % 4 == 0,
    ensures
        r@ == decode(order, bytes@),
        4 * r@.len() == bytes@.len(),
        forall|i: int|
            0 <= i < r@.len() ==> #[trigger] r@[i] == word_from_bytes(
                order,
                bytes@[4 * i],
                bytes@[4 * i + 1],
                bytes@[4 * i + 2],
                bytes@[4 * i + 3],
            ),
{
    let n = bytes.len() / 4;
    assert(bytes@.len() == 4 * n) by {
        vstd::arithmetic::div_mod::lemma_fundamental_div_mod(bytes@.len() as int, 4);
    }
    let mut out: Vec<u32> = Vec::with_capacity(n);
    let mut i: usize = 0;
    while i < n
        invariant
            n == bytes@.len() / 4,
            bytes@.len() == 4 * n,
            bytes.len() == bytes@.len(),
            i <= n,
            out@.len() == i,
            forall|k: int| 0 <= k < i ==> #[trigger] out@[k] == decode(order, bytes@)[k],
        decreases n - i,
    {
        let m0 = bytes[4 * i];
        let m1 = bytes[4 * i + 1];
        let m2 = bytes[4 * i + 2];
        let m3 = bytes[4 * i + 3];
        let w = match order {
            ByteOrder::Little => compose_exec(m0, m1, m2, m3),
            ByteOrder::Big => compose_exec(m3, m2, m1, m0),
        };
        out.push(w);
        i = i + 1;
    }
    assert(out@ =~= decode(order, bytes@));
    out
}

fn compose_exec(b0: u8, b1: u8, b2: u8, b3: u8) -> (r: u32)
    ensures
        r == compose(b0, b1, b2, b3),
{
    (b0 as u32) | ((b1 as u32) << 8) | ((b2 as u32) << 16) | ((b3 as u32) << 24)
}

/// Every word of a sequence is laid out the same way, whatever its place:
/// the four bytes at `4 * i` are the bytes of word `i`.
pub proof fn lemma_encode_layout(order: ByteOrder, words: Seq<u32>)
    ensures
        encode(order, words).len() == 4 * words.len(),
        forall|i: int|
            0 <= i < words.len() ==> encode(order, words).subrange(4 * i, 4 * i + 4)
                == word_to_bytes(order, #[trigger] words[i]),
{
    assert forall|i: int| 0 <= i < words.len() implies encode(order, words).subrange(
        4 * i,
        4 * i + 4,
    ) == word_to_bytes(order, #[trigger] words[i]) by {
        let e = encode(order, words);
        assert(e[4 * i] == word_byte(order, words[i], 0));
        assert(e[4 * i + 1] == word_byte(order, words[i], 1));
        assert(e[4 * i + 2] == word_byte(order, words[i], 2));
        assert(e[4 * i + 3] == word_byte(order, words[i], 3));
        assert(e.subrange(4 * i, 4 * i + 4) =~= word_to_bytes(order, words[i]));
    }
}

/// The byte image of two sequences one after the other is the image of the
/// first followed by the image of the second.
pub proof fn lemma_encode_concat(order: ByteOrder, first: Seq<u32>, second: Seq<u32>)
    ensures
        encode(order, first + second) == encode(order, first) + encode(order, second),
{
    let whole = encode(order, first + second);
    let parts = encode(order, first) + encode(order, second);
    assert forall|j: int| 0 <= j < whole.len() implies #[trigger] whole[j] == parts[j] by {
        if j < 4 * first.len() {
            assert((first + second)[j / 4] == first[j / 4]);
        } else {
            let k = j - 4 * first.len();
            assert(k / 4 == j / 4 - first.len());
            assert(k % 4 == j % 4);
            assert((first + second)[j / 4] == second[k / 4]);
        }
    }
    assert(whole =~= parts);
}

/// Reading two whole-word byte sequences one after the other gives the words
/// of the first followed by the words of the second.
pub proof fn lemma_decode_concat(order: ByteOrder, first: Seq<u8>, second: Seq<u8>)
    requires
        first.len() % 4 == 0,
    ensures
        decode(order, first + second) == decode(order, first) + decode(order, second),
{
    let bytes = first + second;
    let whole = decode(order, bytes);
    let parts = decode(order, first) + decode(order, second);
    let n = first.len() / 4;
    assert(first.len() == 4 * n);
    assert(bytes.len() / 4 == n + second.len() / 4);
    assert forall|i: int| 0 <= i < whole.len() implies #[trigger] whole[i] == parts[i] by {
        if i < n {
            assert(bytes[4 * i] == first[4 * i]);
            assert(bytes[4 * i + 1] == first[4 * i + 1]);
            assert(bytes[4 * i + 2] == first[4 * i + 2]);
            assert(bytes[4 * i + 3] == first[4 * i + 3]);
        } else {
            let k = i - n;
            assert(bytes[4 * i] == second[4 * k]);
            assert(bytes[4 * i + 1] == second[4 * k + 1]);
            assert(bytes[4 * i + 2] == second[4 * k + 2]);
            assert(bytes[4 * i + 3] == second[4 * k + 3]);
        }
    }
    assert(whole =~= parts);
}

/// Little-endian lays a word out from its least significant byte up: the
/// bytes are its base-256 digits `w % 256`, `w / 256 % 256`, ... . Big-endian
/// lays out the same four bytes in reverse.
pub proof fn lemma_byte_orders(w: u32)
    ensures
        word_to_bytes(ByteOrder::Little, w)[0] == w % 256,
        word_to_bytes(ByteOrder::Little, w)[1] == (w / 256) % 256,
        word_to_bytes(ByteOrder::Little, w)[2] == (w / 65536) % 256,
        word_to_bytes(ByteOrder::Little, w)[3] == w / 16777216,
        word_to_bytes(ByteOrder::Big, w) == word_to_bytes(ByteOrder::Little, w).reverse(),
{
    assert(((w >> 0) & 0xff) as u8 == w % 256) by (bit_vector);
    assert(((w >> 8) & 0xff) as u8 == (w / 256) % 256) by (bit_vector);
    assert(((w >> 16) & 0xff) as u8 == (w / 65536) % 256) by (bit_vector);
    assert(((w >> 24) & 0xff) as u8 == w / 16777216) by (bit_vector);
    assert(word_to_bytes(ByteOrder::Big, w) =~= word_to_bytes(ByteOrder::Little, w).reverse());
}

/// Decoding the byte image of a sequence of words gives the words back.
pub proof fn lemma_decode_encode(order: ByteOrder, words: Seq<u32>)
    ensures
        decode(order, encode(order, words)) == words,
        encode(order, words).len() == 4 * words.len(),
{
    let bytes = encode(order, words);
    assert forall|i: int| 0 <= i < words.len() implies #[trigger] decode(order, bytes)[i]
        == words[i] by {
        assert(bytes[4 * i] == word_byte(order, words[i], 0));
        assert(bytes[4 * i + 1] == word_byte(order, words[i], 1));
        assert(bytes[4 * i + 2] == word_byte(order, words[i], 2));
        assert(bytes[4 * i + 3] == word_byte(order, words[i], 3));
        lemma_word_bytes_round_trip(order, words[i]);
    }
    assert(decode(order, bytes) =~= words);
}

/// Encoding the words decoded from a whole number of words' bytes gives the bytes back.
pub proof fn lemma_encode_decode(order: ByteOrder, bytes: Seq<u8>)
    requires
        bytes.len() % 4 == 0,
    ensures
        encode(order, decode(order, bytes)) == bytes,
        decode(order, bytes).len() * 4 == bytes.len(),
{
    let words = decode(order, bytes);
    assert forall|j: int| 0 <= j < bytes.len() implies #[trigger] encode(order, words)[j]
        == bytes[j] by {
        let i = j / 4;
        let b = 4 * i;
        lemma_bytes_word_round_trip(order, bytes[b], bytes[b + 1], bytes[b + 2], bytes[b + 3]);
    }
    assert(encode(order, words) =~= bytes);
}

/// `u32::from_ne_bytes`: reads four bytes as a word in the host's own byte
/// order. A host is either little-endian or big-endian, so the word is the
/// little-endian or the big-endian reading of the bytes; which of the two it is
/// depends on the machine and is not stated.
#[verifier::external_body]
fn host_word_from_bytes(bytes: [u8; 4]) -> (r: u32)
    ensures
        r == word_from_bytes(ByteOrder::Little, bytes@[0], bytes@[1], bytes@[2], bytes@[3]) || r
            == word_from_bytes(ByteOrder::Big, bytes@[0], bytes@[1], bytes@[2], bytes@[3]),
{
    u32::from_ne_bytes(bytes)
}

/// The host's byte order: the order in which the host lays out a word in
/// memory, found by reading back a word whose least significant byte is stored
/// first. Which order comes back depends on the machine.
pub fn host_byte_order() -> ByteOrder {
    let w = host_word_from_bytes([1, 0, 0, 0]);
    byte_order_of_probe(w)
}

/// The byte order in which the bytes `1 0 0 0` were read as the word `w`:
/// `Little` when `w` is their little-endian reading, `Big` when it is their
/// big-endian reading.
pub fn byte_order_of_probe(w: u32) -> (r: ByteOrder)
    ensures
        w == word_from_bytes(ByteOrder::Little, 1, 0, 0, 0) ==> r == ByteOrder::Little,
        w == word_from_bytes(ByteOrder::Big, 1, 0, 0, 0) ==> r == ByteOrder::Big,
        word_from_bytes(ByteOrder::Little, 1, 0, 0, 0) == 1,
        word_from_bytes(ByteOrder::Big, 1, 0, 0, 0) == 0x0100_0000,
{
    assert(compose(1, 0, 0, 0) == 1) by {
        assert((1u8 as u32) | ((0u8 as u32) << 8) | ((0u8 as u32) << 16) | ((0u8 as u32) << 24) == 1)
            by (bit_vector);
    }
    assert(compose(0, 0, 0, 1) == 0x0100_0000) by {
        assert((0u8 as u32) | ((0u8 as u32) << 8) | ((0u8 as u32) << 16) | ((1u8 as u32) << 24)
            == 0x0100_0000) by (bit_vector);
    }
    if w == 1 {
        ByteOrder::Little
    } else {
        ByteOrder::Big
    }
}

} // verus!
