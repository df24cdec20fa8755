//! Packing of bytes into FIFO words.
use vstd::endian::{endianness, Endian};
use vstd::prelude::*;

verus! {

/// Order in which a machine keeps the bytes of a word.
#[derive(Copy, Clone, Debug, PartialEq, Eq, Structural)]
pub enum ByteOrder {
    /// Least significant byte first.
    Little,
    /// Most significant byte first.
    Big,
}

/// The word that four bytes in memory make.
pub open spec fn word_of(order: ByteOrder, b: Seq<u8>) -> u32 {
    match order {
        ByteOrder::Little => (b[0] + 0x100 * b[1] + 0x1_0000 * b[2] + 0x100_0000 * b[3]) as u32,
        ByteOrder::Big => (b[3] + 0x100 * b[2] + 0x1_0000 * b[1] + 0x100_0000 * b[0]) as u32,
    }
}

/// The four bytes of a word in memory.
pub open spec fn bytes_of(order: ByteOrder, w: u32) -> Seq<u8> {
    let b0 = (w % 0x100) as u8;
    let b1 = (w / 0x100 % 0x100) as u8;
    let b2 = (w / 0x1_0000 % 0x100) as u8;
    let b3 = (w / 0x100_0000) as u8;
    match order {
        ByteOrder::Little => seq![b0, b1, b2, b3],
        ByteOrder::Big => seq![b3, b2, b1, b0],
    }
}

/// The byte order of the machine that the program runs on. Nothing is known of which one it is.
pub open spec fn machine_order() -> ByteOrder {
    match endianness() {
        Endian::Little => ByteOrder::Little,
        Endian::Big => ByteOrder::Big,
    }
}

/// `u32::from_ne_bytes`: the word of four bytes in the byte order of the machine.
#[verifier::external_body]
fn native_word(bytes: [u8; 4]) -> (r: u32)
    ensures
        r == word_of(machine_order(), bytes@),
{
    u32::from_ne_bytes(bytes)
}

impl ByteOrder {
    /// The byte order of a machine on which the bytes 1, 0, 0, 0 make this word.
    pub fn of_probe(word: u32) -> (r: ByteOrder)
        ensures
            r is Little <==> word == word_of(ByteOrder::Little, seq![1u8, 0, 0, 0]),
    {
        if word == 1 {
            ByteOrder::Little
        } else {
            ByteOrder::Big
        }
    }

    /// The byte order of this machine.
    pub(crate) fn native() -> (r: ByteOrder)
        ensures
            r == machine_order(),
    {
        let bytes: [u8; 4] = [1, 0, 0, 0];
        proof {
            assert(bytes@ =~= seq![1u8, 0, 0, 0]);
        }
        ByteOrder::of_probe(native_word(bytes))
    }
}

/// Makes a word of four bytes.
pub fn word_from_bytes(order: ByteOrder, b: [u8; 4]) -> (r: u32)
    ensures
        r == word_of(order, b@),
{
    match order {
        ByteOrder::Little => b[0] as u32 + 0x100 * b[1] as u32 + 0x1_0000 * b[2] as u32
            + 0x100_0000 * b[3] as u32,
        ByteOrder::Big => b[3] as u32 + 0x100 * b[2] as u32 + 0x1_0000 * b[1] as u32
            + 0x100_0000 * b[0] as u32,
    }
}

/// Splits a word into four bytes.
pub fn word_to_bytes(order: ByteOrder, w: u32) -> (r: [u8; 4])
    ensures
        r@ == bytes_of(order, w),
{
    let b0: u8 = (w % 0x100) as u8;
    let b1: u8 = (w / 0x100 % 0x100) as u8;
    let b2: u8 = (w / 0x1_0000 % 0x100) as u8;
    let b3: u8 = (w / 0x100_0000) as u8;
    match order {
        ByteOrder::Little => [b0, b1, b2, b3],
        ByteOrder::Big => [b3, b2, b1, b0],
    }
}

/// Number of words that hold `len` bytes.
pub open spec fn word_count(len: int) -> int {
    (len + 3) / 4
}

/// The bytes that words hold.
pub open spec fn unpacked(order: ByteOrder, words: Seq<u32>) -> Seq<u8> {
    Seq::new((4 * words.len()) as nat, |i: int| bytes_of(order, words[i / 4])[i % 4])
}

/// Byte `i` of a packet, or zero behind its end.
pub open spec fn padded(data: Seq<u8>, i: int) -> u8 {
    if i < data.len() {
        data[i]
    } else {
        0
    }
}

/// The words that a packet is put into; what the packet leaves of the last word is zero.
pub open spec fn packed(order: ByteOrder, data: Seq<u8>) -> Seq<u32> {
    Seq::new(
        word_count(data.len() as int) as nat,
        |k: int|
            word_of(
                order,
                seq![
                    padded(data, 4 * k),
                    padded(data, 4 * k + 1),
                    padded(data, 4 * k + 2),
                    padded(data, 4 * k + 3),
                ],
            ),
    )
}

/// Number of words that hold a packet.
pub fn packet_words(len: usize) -> (r: usize)
    ensures
        r == word_count(len as int),
{
    let full: usize = len / 4;
    if len % 4 == 0 {
        full
    } else {
        full + 1
    }
}

/// Makes one of the words that a packet is put into.
pub fn packet_word(order: ByteOrder, data: &[u8], k: usize) -> (r: u32)
    requires
        k < word_count(data@.len() as int),
    ensures
        r == packed(order, data@)[k as int],
{
    let len: usize = data.len();
    let start: usize = 4 * k;
    let left: usize = len - start;
    let b0: u8 = data[start];
    let b1: u8 = if left > 1 {
        data[start + 1]
    } else {
        0
    };
    let b2: u8 = if left > 2 {
        data[start + 2]
    } else {
        0
    };
    let b3: u8 = if left > 3 {
        data[start + 3]
    } else {
        0
    };
    let bytes = [b0, b1, b2, b3];
    proof {
        assert(bytes@ =~= seq![
            padded(data@, 4 * k),
            padded(data@, 4 * k + 1),
            padded(data@, 4 * k + 2),
            padded(data@, 4 * k + 3),
        ]);
    }
    word_from_bytes(order, bytes)
}

/// The digits, to the base 256, of a number of four digits.
proof fn lemma_digits(d0: u8, d1: u8, d2: u8, d3: u8, w: u32)
    requires
        w == d0 + 0x100 * d1 + 0x1_0000 * d2 + 0x100_0000 * d3,
    ensures
        w % 0x100 == d0,
        w / 0x100 % 0x100 == d1,
        w / 0x1_0000 % 0x100 == d2,
        w / 0x100_0000 == d3,
{
    assert(w / 0x100 == d1 + 0x100 * d2 + 0x1_0000 * d3);
    assert(w / 0x1_0000 == d2 + 0x100 * d3);
}

/// A word gives back the bytes that it was made of.
pub proof fn lemma_bytes_of_word(order: ByteOrder, b: Seq<u8>)
    requires
        b.len() == 4,
    ensures
        bytes_of(order, word_of(order, b)) == b,
{
    let w = word_of(order, b);
    match order {
        ByteOrder::Little => lemma_digits(b[0], b[1], b[2], b[3], w),
        ByteOrder::Big => lemma_digits(b[3], b[2], b[1], b[0], w),
    }
    assert(bytes_of(order, w) =~= b);
}

/// Four bytes give back the word that they were split from.
pub proof fn law_word_of_bytes(order: ByteOrder, w: u32)
    ensures
        bytes_of(order, w).len() == 4,
        word_of(order, bytes_of(order, w)) == w,
{
}

/// Unpacking gives back what was packed: the packet, then zeros to the end of the last word.
pub proof fn lemma_unpack_packed(order: ByteOrder, data: Seq<u8>)
    ensures
        unpacked(order, packed(order, data)).len() == 4 * word_count(data.len() as int),
        unpacked(order, packed(order, data)).take(data.len() as int) == data,
        forall|i: int|
            data.len() <= i < 4 * word_count(data.len() as int) ==> #[trigger] unpacked(
                order,
                packed(order, data),
            )[i] == 0,
{
    let words = packed(order, data);
    let bytes = unpacked(order, words);
    assert forall|i: int| 0 <= i < bytes.len() implies #[trigger] bytes[i] == padded(data, i) by {
        let k = i / 4;
        let b = seq![
            padded(data, 4 * k),
            padded(data, 4 * k + 1),
            padded(data, 4 * k + 2),
            padded(data, 4 * k + 3),
        ];
        lemma_bytes_of_word(order, b);
        assert(bytes[i] == b[i % 4]);
        assert(b[i % 4] == padded(data, 4 * k + i % 4));
    }
    assert(bytes.take(data.len() as int) =~= data);
}

} // verus!
