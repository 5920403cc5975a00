//! The public values that a proof attests to, and their canonical encoding.
//!
//! The encoding is the contract-ABI layout of the static tuple
//! `(bytes32, uint32, uint32)`: three 32-byte words, 96 bytes in all. The
//! first word is the message hash. Each chain identifier is a 4-byte
//! big-endian integer, right-aligned in its word behind 28 zero bytes.

use crate::hash::bytes_equal;
use vstd::arithmetic::div_mod::lemma_fundamental_div_mod_converse;
use vstd::prelude::*;

verus! {

/// Length in bytes of encoded public values.
pub const ENCODED_LEN: usize = 96;

/// The facts a proof attests to: the hash of a message and the chains it
/// travels between.
#[derive(Clone, Copy, Debug, PartialEq, Eq)]
pub struct PublicValues {
    pub message_hash: [u8; 32],
    pub source_chain_id: u32,
    pub destination_chain_id: u32,
}

/// Public values as plain mathematical data.
pub struct PublicValuesView {
    pub message_hash: Seq<u8>,
    pub source_chain_id: u32,
    pub destination_chain_id: u32,
}

impl View for PublicValues {
    type V = PublicValuesView;

    open spec fn view(&self) -> PublicValuesView {
        PublicValuesView {
            message_hash: self.message_hash@,
            source_chain_id: self.source_chain_id,
            destination_chain_id: self.destination_chain_id,
        }
    }
}

/// The four bytes of `x`, most significant first.
pub open spec fn spec_be_bytes(x: u32) -> Seq<u8> {
    seq![
        (x / 0x100_0000) as u8,
        ((x / 0x1_0000) % 0x100) as u8,
        ((x / 0x100) % 0x100) as u8,
        (x % 0x100) as u8,
    ]
}

/// The integer that four bytes spell, most significant first.
pub open spec fn spec_be_value(b: Seq<u8>) -> int
    recommends
        b.len() == 4,
{
    b[0] * 0x100_0000 + b[1] * 0x1_0000 + b[2] * 0x100 + b[3]
}

/// The 32-byte word that carries `x`: 28 zero bytes, then `x` big-endian.
pub open spec fn spec_word(x: u32) -> Seq<u8> {
    Seq::new(28, |i: int| 0u8) + spec_be_bytes(x)
}

/// Whether the 28 leading bytes of a word are all zero.
pub open spec fn spec_word_is_padded(w: Seq<u8>) -> bool
    recommends
        w.len() == 32,
{
    forall|i: int| 0 <= i < 28 ==> w[i] == 0u8
}

/// The integer in the four trailing bytes of a word.
pub open spec fn spec_word_value(w: Seq<u8>) -> u32
    recommends
        w.len() == 32,
{
    spec_be_value(w.subrange(28, 32)) as u32
}

/// The canonical encoding of public values.
pub open spec fn spec_abi_encode(v: PublicValuesView) -> Seq<u8> {
    v.message_hash + spec_word(v.source_chain_id) + spec_word(v.destination_chain_id)
}

/// Whether `data` can be decoded. Without validation the first 96 bytes are
/// read whatever else there is; with validation `data` must be exactly 96
/// bytes with clean padding.
pub open spec fn spec_abi_decodable(data: Seq<u8>, validate: bool) -> bool {
    &&& data.len() >= 96
    &&& validate ==> {
        &&& data.len() == 96
        &&& spec_word_is_padded(data.subrange(32, 64))
        &&& spec_word_is_padded(data.subrange(64, 96))
    }
}

/// What `data` decodes to, where it can be decoded.
pub open spec fn spec_abi_decode(data: Seq<u8>, validate: bool) -> Option<PublicValuesView> {
    if spec_abi_decodable(data, validate) {
        Some(
            PublicValuesView {
                message_hash: data.subrange(0, 32),
                source_chain_id: spec_word_value(data.subrange(32, 64)),
                destination_chain_id: spec_word_value(data.subrange(64, 96)),
            },
        )
    } else {
        None
    }
}

/// Appends the word that carries `x` to `out`.
fn push_word(out: &mut Vec<u8>, x: u32)
    ensures
        final(out)@ == old(out)@ + spec_word(x),
{
    let mut i: usize = 0;
    while i < 28
        invariant
            i <= 28,
            out@ == old(out)@ + Seq::new(i as nat, |j: int| 0u8),
        decreases 28 - i,
    {
        out.push(0u8);
        i += 1;
    }
    out.push((x / 0x100_0000) as u8);
    out.push(((x / 0x1_0000) % 0x100) as u8);
    out.push(((x / 0x100) % 0x100) as u8);
    out.push((x % 0x100) as u8);
    assert(out@ =~= old(out)@ + spec_word(x));
}

/// Reads the word that starts at `at`: its value, and whether its padding is
/// clean.
fn read_word(data: &[u8], at: usize) -> (r: (u32, bool))
    requires
        at + 32 <= data.len(),
    ensures
        r.0 == spec_word_value(data@.subrange(at as int, at + 32)),
        r.1 == spec_word_is_padded(data@.subrange(at as int, at + 32)),
{
    let ghost w = data@.subrange(at as int, at + 32);
    let mut padded = true;
    let mut i: usize = 0;
    while i < 28
        invariant
            i <= 28,
            at + 32 <= data.len(),
            w == data@.subrange(at as int, at + 32),
            padded == (forall|j: int| 0 <= j < i ==> w[j] == 0u8),
        decreases 28 - i,
    {
        if data[at + i] != 0 {
            padded = false;
            assert(w[i as int] != 0u8);
        }
        i += 1;
    }
    let b0: u32 = data[at + 28] as u32;
    let b1: u32 = data[at + 29] as u32;
    let b2: u32 = data[at + 30] as u32;
    let b3: u32 = data[at + 31] as u32;
    let value: u32 = b0 * 0x100_0000 + b1 * 0x1_0000 + b2 * 0x100 + b3;
    assert(w.subrange(28, 32)[0] == w[28]);
    assert(w.subrange(28, 32)[1] == w[29]);
    assert(w.subrange(28, 32)[2] == w[30]);
    assert(w.subrange(28, 32)[3] == w[31]);
    (value, padded)
}

impl PublicValues {
    /// Whether these are the same public values as `other`: the same hash
    /// and the same two chains.
    pub fn same_as(&self, other: &PublicValues) -> (same: bool)
        ensures
            same == (self@ == other@),
    {
        bytes_equal(self.message_hash.as_slice(), other.message_hash.as_slice())
            && self.source_chain_id == other.source_chain_id && self.destination_chain_id
            == other.destination_chain_id
    }

    /// Encodes the public values in their canonical 96-byte layout.
    pub fn abi_encode(&self) -> (bytes: Vec<u8>)
        ensures
            bytes@ == spec_abi_encode(self@),
            bytes@.len() == 96,
    {
        let mut out: Vec<u8> = Vec::new();
        let mut i: usize = 0;
        while i < 32
            invariant
                i <= 32,
                out@ == self.message_hash@.subrange(0, i as int),
            decreases 32 - i,
        {
            out.push(self.message_hash[i]);
            i += 1;
            assert(out@ =~= self.message_hash@.subrange(0, i as int));
        }
        assert(out@ =~= self.message_hash@);
        push_word(&mut out, self.source_chain_id);
        push_word(&mut out, self.destination_chain_id);
        out
    }

    /// Decodes public values from `data`.
    ///
    /// Without `validate`, any input of at least 96 bytes decodes: the hash
    /// is the first word and each chain identifier is read from the last four
    /// bytes of its word. With `validate`, the input must be exactly 96 bytes
    /// and the 28 padding bytes of both chain identifier words must be zero,
    /// so that only canonical encodings decode.
    pub fn abi_decode(data: &[u8], validate: bool) -> (decoded: Option<PublicValues>)
        ensures
            match decoded {
                Some(values) => spec_abi_decode(data@, validate) == Some(values@),
                None => spec_abi_decode(data@, validate) is None,
            },
    {
        if data.len() < ENCODED_LEN {
            return None;
        }
        if validate && data.len() != ENCODED_LEN {
            return None;
        }
        let mut message_hash = [0u8; 32];
        let mut i: usize = 0;
        while i < 32
            invariant
                i <= 32,
                data@.len() >= 96,
                forall|j: int| 0 <= j < i ==> message_hash@[j] == data@[j],
            decreases 32 - i,
        {
            message_hash[i] = data[i];
            i += 1;
        }
        assert(message_hash@ =~= data@.subrange(0, 32));
        let (source_chain_id, source_padded) = read_word(data, 32);
        let (destination_chain_id, destination_padded) = read_word(data, 64);
        if validate && !(source_padded && destination_padded) {
            return None;
        }
        Some(PublicValues { message_hash, source_chain_id, destination_chain_id })
    }
}

/// Four big-endian bytes spell the integer they were made from.
pub proof fn law_be_bytes_round_trip(x: u32)
    ensures
        spec_be_bytes(x).len() == 4,
        spec_be_value(spec_be_bytes(x)) == x,
{
}

/// A word is 32 bytes long, has clean padding and carries its integer.
pub proof fn law_word_round_trip(x: u32)
    ensures
        spec_word(x).len() == 32,
        spec_word_is_padded(spec_word(x)),
        spec_word_value(spec_word(x)) == x,
{
    let w = spec_word(x);
    assert(w.subrange(28, 32) =~= spec_be_bytes(x));
    law_be_bytes_round_trip(x);
}

/// Decoding inverts encoding: the encoding of public values with a 32-byte
/// hash decodes to the same values, with or without validation.
pub proof fn law_decode_inverts_encode(v: PublicValuesView, validate: bool)
    requires
        v.message_hash.len() == 32,
    ensures
        spec_abi_encode(v).len() == 96,
        spec_abi_decode(spec_abi_encode(v), validate) == Some(v),
{
    let data = spec_abi_encode(v);
    law_word_round_trip(v.source_chain_id);
    law_word_round_trip(v.destination_chain_id);
    assert(data.subrange(0, 32) =~= v.message_hash);
    assert(data.subrange(32, 64) =~= spec_word(v.source_chain_id));
    assert(data.subrange(64, 96) =~= spec_word(v.destination_chain_id));
}

/// The encoding is injective: public values with 32-byte hashes that encode
/// to the same bytes are the same values.
pub proof fn law_encode_is_injective(a: PublicValuesView, b: PublicValuesView)
    requires
        a.message_hash.len() == 32,
        b.message_hash.len() == 32,
        spec_abi_encode(a) == spec_abi_encode(b),
    ensures
        a == b,
{
    law_decode_inverts_encode(a, true);
    law_decode_inverts_encode(b, true);
}

/// Validated decoding accepts canonical encodings only: whatever decodes
/// under validation is the encoding of what it decodes to.
pub proof fn law_validated_decoding_is_canonical(data: Seq<u8>)
    requires
        spec_abi_decodable(data, true),
    ensures
        spec_abi_encode(spec_abi_decode(data, true).unwrap()) == data,
{
    let v = spec_abi_decode(data, true).unwrap();
    let s = data.subrange(32, 64);
    let d = data.subrange(64, 96);
    lemma_padded_word_is_canonical(s);
    lemma_padded_word_is_canonical(d);
    assert(spec_abi_encode(v) =~= data);
}

/// A 32-byte word with clean padding is the word of the integer it carries.
proof fn lemma_padded_word_is_canonical(w: Seq<u8>)
    requires
        w.len() == 32,
        spec_word_is_padded(w),
    ensures
        spec_word(spec_word_value(w)) == w,
{
    let t = w.subrange(28, 32);
    let x = spec_word_value(w);
    lemma_be_value_round_trip(t[0], t[1], t[2], t[3]);
    assert(spec_be_bytes(x) =~= t);
    assert(spec_word(x) =~= w);
}

/// The big-endian bytes of the integer that four bytes spell are those bytes.
proof fn lemma_be_value_round_trip(b0: u8, b1: u8, b2: u8, b3: u8)
    ensures
        ({
            let x = b0 * 0x100_0000 + b1 * 0x1_0000 + b2 * 0x100 + b3;
            &&& 0 <= x <= u32::MAX
            &&& x / 0x100_0000 == b0
            &&& (x / 0x1_0000) % 0x100 == b1
            &&& (x / 0x100) % 0x100 == b2
            &&& x % 0x100 == b3
        }),
{
    let x: int = b0 * 0x100_0000 + b1 * 0x1_0000 + b2 * 0x100 + b3;
    let top2: int = b0 * 0x100 + b1;
    let top3: int = b0 * 0x1_0000 + b1 * 0x100 + b2;
    lemma_fundamental_div_mod_converse(
        x,
        0x100_0000,
        b0 as int,
        b1 * 0x1_0000 + b2 * 0x100 + b3,
    );
    lemma_fundamental_div_mod_converse(x, 0x1_0000, top2, b2 * 0x100 + b3);
    lemma_fundamental_div_mod_converse(top2, 0x100, b0 as int, b1 as int);
    lemma_fundamental_div_mod_converse(x, 0x100, top3, b3 as int);
    lemma_fundamental_div_mod_converse(top3, 0x100, top2, b2 as int);
}

} // verus!
