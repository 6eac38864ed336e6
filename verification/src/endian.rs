//! Byte-order normalisation: reversal of a buffer of any length, and the
//! 32-bit word swap whose output depends on the byte order of the host.

use vstd::prelude::*;

verus! {

/// The byte order in which a machine lays out its integers in memory.
#[derive(Debug, Clone, Copy, PartialEq, Eq, Structural)]
pub enum ByteOrder {
    LittleEndian,
    BigEndian,
}

/// The four bytes of a word, least significant first.
pub open spec fn le_bytes(v: u32) -> Seq<u8> {
    seq![
        (v & 0xff) as u8,
        ((v >> 8) & 0xff) as u8,
        ((v >> 16) & 0xff) as u8,
        ((v >> 24) & 0xff) as u8,
    ]
}

/// The four bytes of a word, most significant first.
pub open spec fn be_bytes(v: u32) -> Seq<u8> {
    seq![
        ((v >> 24) & 0xff) as u8,
        ((v >> 16) & 0xff) as u8,
        ((v >> 8) & 0xff) as u8,
        (v & 0xff) as u8,
    ]
}

/// The word whose bytes are those of `v` in the opposite order.
pub open spec fn byte_swapped(v: u32) -> u32 {
    ((v & 0xff) << 24) | ((v & 0xff00) << 8) | ((v >> 8) & 0xff00) | ((v >> 24) & 0xff)
}

/// What the word swap emits on a host of the given byte order: the word is
/// byte-swapped first, and then written out in the order opposite to the
/// host's own.
pub open spec fn swapped_word_bytes(v: u32, host: ByteOrder) -> Seq<u8> {
    match host {
        ByteOrder::LittleEndian => be_bytes(byte_swapped(v)),
        ByteOrder::BigEndian => le_bytes(byte_swapped(v)),
    }
}

/// Swapping a word's bytes and writing the result most significant byte
/// first gives the word's bytes least significant first, and the other way
/// round: on either host the swap emits the word in the host's own order.
pub proof fn lemma_swap_emits_host_order(v: u32)
    ensures
        swapped_word_bytes(v, ByteOrder::LittleEndian) == le_bytes(v),
        swapped_word_bytes(v, ByteOrder::BigEndian) == be_bytes(v),
        be_bytes(v) == le_bytes(v).reverse(),
{
    let s = byte_swapped(v);
    assert(((s >> 24) & 0xff) == (v & 0xff)
        && ((s >> 16) & 0xff) == ((v >> 8) & 0xff)
        && ((s >> 8) & 0xff) == ((v >> 16) & 0xff)
        && (s & 0xff) == ((v >> 24) & 0xff)) by (bit_vector)
        requires
            s == ((v & 0xff) << 24) | ((v & 0xff00) << 8) | ((v >> 8) & 0xff00) | ((v >> 24) & 0xff),
    ;
    assert(be_bytes(s) =~= le_bytes(v));
    assert(le_bytes(s) =~= be_bytes(v));
    assert(be_bytes(v) =~= le_bytes(v).reverse());
}

/// Reverses the byte order of a buffer of any length.
pub fn to_big_endian(bytes: &[u8]) -> (out: Vec<u8>)
    ensures
        out@ == bytes@.reverse(),
{
    let n: usize = bytes.len();
    let mut out: Vec<u8> = Vec::with_capacity(n);
    let mut i: usize = 0;
    while i < n
        invariant
            n == bytes@.len(),
            i <= n,
            out@.len() == i,
            forall|k: int| 0 <= k < i ==> out@[k] == bytes@[n - 1 - k],
        decreases n - i,
    {
        out.push(bytes[n - 1 - i]);
        i += 1;
    }
    assert(out@ =~= bytes@.reverse());
    out
}

/// Reversing a buffer twice gives the buffer back.
pub proof fn lemma_reverse_involution(bytes: Seq<u8>)
    ensures
        bytes.reverse().reverse() == bytes,
{
    assert(bytes.reverse().reverse() =~= bytes);
}

/// The word swap as it comes out on a host of the given byte order: the
/// bytes of `num` are swapped, and the swapped word is written big-endian on
/// a little-endian host and little-endian on a big-endian one.
pub fn swap_endian_u32_on(num: u32, host: ByteOrder) -> (out: [u8; 4])
    ensures
        out@ == swapped_word_bytes(num, host),
{
    let swapped: u32 = ((num & 0xff) << 24) | ((num & 0xff00) << 8) | ((num >> 8) & 0xff00) | ((
    num >> 24) & 0xff);
    let b0: u8 = (swapped & 0xff) as u8;
    let b1: u8 = ((swapped >> 8) & 0xff) as u8;
    let b2: u8 = ((swapped >> 16) & 0xff) as u8;
    let b3: u8 = ((swapped >> 24) & 0xff) as u8;
    let out: [u8; 4] = match host {
        ByteOrder::LittleEndian => [b3, b2, b1, b0],
        ByteOrder::BigEndian => [b0, b1, b2, b3],
    };
    assert(out@ =~= swapped_word_bytes(num, host));
    out
}

/// The bytes of a word as the host keeps them in memory.
///
/// Trusted: calls `u32::to_ne_bytes`, which std documents as the word's
/// memory representation in native byte order. Which order that is depends
/// on the machine, so the contract says only that the result is the word
/// written either least or most significant byte first.
#[verifier::external_body]
fn native_bytes(v: u32) -> (out: [u8; 4])
    ensures
        out@ == le_bytes(v) || out@ == be_bytes(v),
{
    v.to_ne_bytes()
}

/// The byte order of the machine that runs this code, found by looking at
/// how it lays out the word 1.
pub fn host_byte_order() -> (host: ByteOrder) {
    // The machine decides the outcome, so nothing is promised of it
    // here. How a layout is read is stated by `byte_order_of_layout`,
    // which holds for whatever layout comes back.
    let layout: [u8; 4] = native_bytes(1);
    let host = byte_order_of_layout(layout);
    host
}

/// Swaps the bytes of a word and writes the result in the order opposite to
/// the host's own.
///
/// The outcome depends on the host: it is the value that
/// [`swap_endian_u32_on`] gives for the host's byte order, which is the
/// word's bytes least significant first on a little-endian machine and most
/// significant first on a big-endian one.
pub fn swap_endian_u32(num: u32) -> (out: [u8; 4])
    ensures
        out@ == swapped_word_bytes(num, ByteOrder::LittleEndian) || out@ == swapped_word_bytes(
            num,
            ByteOrder::BigEndian,
        ),
        out@ == le_bytes(num) || out@ == be_bytes(num),
{
    let host = host_byte_order();
    proof {
        lemma_swap_emits_host_order(num);
    }
    swap_endian_u32_on(num, host)
}

/// The byte order that a layout of the word 1 shows: the 1 stands in the
/// first byte where the least significant byte comes first.
pub open spec fn order_of_layout(layout: Seq<u8>) -> ByteOrder {
    if layout[0] == 1 {
        ByteOrder::LittleEndian
    } else {
        ByteOrder::BigEndian
    }
}

/// The word 1 written least significant byte first shows a little-endian
/// layout, and written most significant byte first a big-endian one.
pub proof fn lemma_order_of_layout()
    ensures
        le_bytes(1) == seq![1u8, 0u8, 0u8, 0u8],
        be_bytes(1) == seq![0u8, 0u8, 0u8, 1u8],
        order_of_layout(le_bytes(1)) == ByteOrder::LittleEndian,
        order_of_layout(be_bytes(1)) == ByteOrder::BigEndian,
{
    assert(1u32 & 0xff == 1 && (1u32 >> 8) & 0xff == 0 && (1u32 >> 16) & 0xff == 0 && (1u32 >> 24)
        & 0xff == 0) by (bit_vector);
    assert(le_bytes(1) =~= seq![1u8, 0u8, 0u8, 0u8]);
    assert(be_bytes(1) =~= seq![0u8, 0u8, 0u8, 1u8]);
}

/// Reads a byte order off the four bytes in which a machine keeps the
/// word 1.
pub fn byte_order_of_layout(layout: [u8; 4]) -> (host: ByteOrder)
    ensures
        host == order_of_layout(layout@),
        layout@ == le_bytes(1) ==> host == ByteOrder::LittleEndian,
        layout@ == be_bytes(1) ==> host == ByteOrder::BigEndian,
{
    proof {
        lemma_order_of_layout();
    }
    if layout[0] == 1 {
        ByteOrder::LittleEndian
    } else {
        ByteOrder::BigEndian
    }
}

} // verus!
