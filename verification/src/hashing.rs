//! The commit-reveal integrity primitive: a keccak-256 digest over
//! `value || secret`, and the helpers that compare digests and read the
//! lottery seed out of the randomness accumulator.

use vstd::prelude::*;
use vstd::utf8::encode_utf8;

verus! {

/// The keccak-256 digest of a byte sequence. The digest is a function of the
/// bytes alone; nothing further is assumed about its value.
pub uninterp spec fn keccak256_of(bytes: Seq<u8>) -> Seq<u8>;

/// Relies on `anchor_lang::solana_program::keccak::hash` (the
/// `solana-keccak-hasher` crate): the 32-byte keccak-256 digest of the input,
/// computed from the input bytes alone.
#[verifier::external_body]
pub(crate) fn keccak256(bytes: &[u8]) -> (r: Vec<u8>)
    ensures
        r@ == keccak256_of(bytes@),
        r@.len() == 32,
{
    anchor_lang::solana_program::keccak::hash(bytes).to_bytes().to_vec()
}

/// The preimage a committer hashes: the answer's bytes followed by the
/// secret's bytes.
pub open spec fn commit_preimage(value: Seq<char>, salt: Seq<char>) -> Seq<u8> {
    encode_utf8(value) + encode_utf8(salt)
}

/// The commitment a participant must store to later reveal `(value, salt)`.
pub open spec fn spec_commitment(value: Seq<char>, salt: Seq<char>) -> Seq<u8> {
    keccak256_of(commit_preimage(value, salt))
}

fn concat_bytes(a: &[u8], b: &[u8]) -> (r: Vec<u8>)
    ensures
        r@ == a@ + b@,
{
    let mut r: Vec<u8> = Vec::new();
    let mut i: usize = 0;
    while i < a.len()
        invariant
            i <= a.len(),
            r@ == a@.subrange(0, i as int),
        decreases a.len() - i,
    {
        r.push(*vstd::slice::slice_index_get(a, i));
        i = i + 1;
        proof {
            assert(r@ =~= a@.subrange(0, i as int));
        }
    }
    proof {
        assert(r@ =~= a@);
    }
    let mut j: usize = 0;
    while j < b.len()
        invariant
            j <= b.len(),
            r@ == a@ + b@.subrange(0, j as int),
        decreases b.len() - j,
    {
        r.push(*vstd::slice::slice_index_get(b, j));
        j = j + 1;
        proof {
            assert(r@ =~= a@ + b@.subrange(0, j as int));
        }
    }
    proof {
        assert(r@ =~= a@ + b@);
    }
    r
}

/// The commitment hash for an answer and a secret, exactly as `reveal_vote`
/// recomputes and checks it.
pub fn commitment_hash(value: &str, salt: &str) -> (h: Vec<u8>)
    ensures
        h@ == spec_commitment(value@, salt@),
        h@.len() == 32,
{
    let preimage = concat_bytes(value.as_bytes(), salt.as_bytes());
    keccak256(preimage.as_slice())
}

/// The digest folded into the randomness accumulator on a reveal.
pub fn salt_digest(salt: &str) -> (h: Vec<u8>)
    ensures
        h@ == keccak256_of(encode_utf8(salt@)),
        h@.len() == 32,
{
    keccak256(salt.as_bytes())
}

/// Whether two byte strings are equal.
pub fn bytes_eq(a: &Vec<u8>, b: &Vec<u8>) -> (r: bool)
    ensures
        r == (a@ == b@),
{
    if a.len() != b.len() {
        assert(a@ != b@) by {
            assert(a@.len() != b@.len());
        }
        return false;
    }
    let mut i: usize = 0;
    while i < a.len()
        invariant
            i <= a.len(),
            a@.len() == b@.len(),
            forall|j: int| 0 <= j < i ==> a@[j] == b@[j],
        decreases a.len() - i,
    {
        if a[i] != b[i] {
            return false;
        }
        i = i + 1;
    }
    proof {
        assert(a@ =~= b@);
    }
    true
}

/// The byte-wise XOR of two equally long byte strings.
pub open spec fn xor_bytes(a: Seq<u8>, b: Seq<u8>) -> Seq<u8>
    recommends
        a.len() == b.len(),
{
    Seq::new(a.len(), |i: int| a[i] ^ b[i])
}

pub(crate) fn xor_into(acc: &Vec<u8>, other: &Vec<u8>) -> (r: Vec<u8>)
    requires
        acc@.len() == other@.len(),
    ensures
        r@ == xor_bytes(acc@, other@),
{
    let mut r: Vec<u8> = Vec::new();
    let mut i: usize = 0;
    while i < acc.len()
        invariant
            i <= acc.len(),
            acc@.len() == other@.len(),
            r@.len() == i,
            forall|j: int| 0 <= j < i ==> r@[j] == (acc@[j] ^ other@[j]),
        decreases acc.len() - i,
    {
        r.push(acc[i] ^ other[i]);
        i = i + 1;
    }
    proof {
        assert(r@ =~= xor_bytes(acc@, other@));
    }
    r
}

/// The first eight bytes of a seed read as a little-endian unsigned integer.
pub open spec fn le64(bytes: Seq<u8>) -> int
    recommends
        bytes.len() >= 8,
{
    bytes[0] + 256 * bytes[1] + 65536 * bytes[2] + 16777216 * bytes[3] + 4294967296 * bytes[4]
        + 1099511627776 * bytes[5] + 281474976710656 * bytes[6] + 72057594037927936 * bytes[7]
}

/// Reads the lottery seed out of the accumulator.
pub fn le64_seed(bytes: &Vec<u8>) -> (r: u64)
    requires
        bytes@.len() >= 8,
    ensures
        r == le64(bytes@),
{
    let mut r: u64 = bytes[7] as u64;
    r = r * 256 + bytes[6] as u64;
    r = r * 256 + bytes[5] as u64;
    r = r * 256 + bytes[4] as u64;
    r = r * 256 + bytes[3] as u64;
    r = r * 256 + bytes[2] as u64;
    r = r * 256 + bytes[1] as u64;
    r = r * 256 + bytes[0] as u64;
    r
}

} // verus!
