//! Genomes: the 16-byte trait vector carried by every kitty, the sex bit
//! derived from it, and the deterministic rules that mint fresh genomes and
//! combine two parent genomes into a child.

use vstd::prelude::*;

verus! {

/// A kitty's genetic material: sixteen opaque bytes.
pub type Dna = [u8; 16];

/// A uniquely identified digital collectible, holding its immutable genome.
#[derive(Clone, Copy, PartialEq, Eq, Debug)]
pub struct Kitty(pub Dna);

/// Binary sex classification derived from a genome.
#[derive(Clone, Copy, PartialEq, Eq, Structural, Debug)]
pub enum KittyGender {
    Female,
    Male,
}

/// The sex a genome encodes: `Female` exactly when its first byte is even.
pub open spec fn gender_of(dna: Seq<u8>) -> KittyGender {
    if dna[0] % 2 == 0 {
        KittyGender::Female
    } else {
        KittyGender::Male
    }
}

impl Kitty {
    /// This kitty's genome.
    pub fn dna(&self) -> (r: Dna)
        ensures
            r@ == self.0@,
    {
        self.0
    }

    /// This kitty's sex, read off the parity of genome byte 0.
    pub fn gender(&self) -> (r: KittyGender)
        ensures
            r == gender_of(self.0@),
    {
        if self.0[0] % 2 == 0 {
            KittyGender::Female
        } else {
            KittyGender::Male
        }
    }
}

/// Sex parity law: a genome encodes `Female` exactly when its first byte is
/// even, and `Male` exactly when it is odd.
pub proof fn lemma_gender_parity(dna: Seq<u8>)
    ensures
        gender_of(dna) == KittyGender::Female <==> dna[0] % 2 == 0,
        gender_of(dna) == KittyGender::Male <==> dna[0] % 2 != 0,
{
}

/// The little-endian bytes of a 32-bit integer.
pub open spec fn u32_le_bytes(x: u32) -> Seq<u8> {
    seq![
        (x & 0xff) as u8,
        ((x >> 8) & 0xff) as u8,
        ((x >> 16) & 0xff) as u8,
        ((x >> 24) & 0xff) as u8,
    ]
}

/// The little-endian bytes of a 64-bit integer.
pub open spec fn u64_le_bytes(x: u64) -> Seq<u8> {
    seq![
        (x & 0xff) as u8,
        ((x >> 8) & 0xff) as u8,
        ((x >> 16) & 0xff) as u8,
        ((x >> 24) & 0xff) as u8,
        ((x >> 32) & 0xff) as u8,
        ((x >> 40) & 0xff) as u8,
        ((x >> 48) & 0xff) as u8,
        ((x >> 56) & 0xff) as u8,
    ]
}

/// The encoding of an optional 32-bit integer: a `0x00` byte for `None`, or a
/// `0x01` byte followed by the value's little-endian bytes.
pub open spec fn option_u32_bytes(x: Option<u32>) -> Seq<u8> {
    match x {
        None => seq![0u8],
        Some(v) => seq![1u8] + u32_le_bytes(v),
    }
}

/// The byte string hashed to mint a genome: the 32 entropy bytes, then the
/// requesting account, then the per-submission index, each in its fixed
/// encoding.
pub open spec fn payload_bytes(seed: Seq<u8>, account: u64, index: Option<u32>) -> Seq<u8> {
    seed + u64_le_bytes(account) + option_u32_bytes(index)
}

/// The 16-byte Blake2b digest of a byte string, named so that contracts can
/// state that genome generation is a pure function of its inputs.
pub uninterp spec fn blake2b128_of(data: Seq<u8>) -> Seq<u8>;

/// The genome minted for `account` from entropy `seed` and submission
/// `index`: the 16-byte Blake2b digest of their encoded concatenation.
pub open spec fn dna_of(account: u64, seed: Seq<u8>, index: Option<u32>) -> Seq<u8> {
    blake2b128_of(payload_bytes(seed, account, index))
}

/// Relies on `blake2::Blake2b` with 16-byte output (`digest::consts::U16`):
/// the digest is a pure function of the input bytes alone, sixteen bytes
/// long.
#[verifier::external_body]
fn blake2b_128(data: &[u8]) -> (r: [u8; 16])
    ensures
        r@ == blake2b128_of(data@),
{
    let mut hasher = <blake2::Blake2b<blake2::digest::consts::U16> as blake2::Digest>::new();
    blake2::Digest::update(&mut hasher, data);
    blake2::Digest::finalize(hasher).into()
}

/// Relies on `parity_scale_codec::Encode` for `(&[u8; 32], u64, Option<u32>)`:
/// a tuple encodes as the concatenation of its fields' encodings, a byte
/// array as its raw bytes, an unsigned integer as its little-endian bytes,
/// and an `Option` as a `0x00` byte or a `0x01` byte followed by the value's
/// encoding.
#[verifier::external_body]
fn encode_payload(seed: &[u8; 32], account: u64, index: Option<u32>) -> (r: Vec<u8>)
    ensures
        r@ == payload_bytes(seed@, account, index),
{
    parity_scale_codec::Encode::encode(&(seed, account, index))
}

/// Mint a fresh genome for `account` from the host-supplied entropy `seed`
/// and per-submission `index`. Deterministic: the result is a pure function
/// of the three inputs.
pub fn generate_kitty_dna(account: u64, seed: &[u8; 32], index: Option<u32>) -> (r: Dna)
    ensures
        r@ == dna_of(account, seed@, index),
{
    let payload = encode_payload(seed, account, index);
    blake2b_128(payload.as_slice())
}

/// One byte of the mosaic rule: each bit of the result is taken from `a`
/// where the corresponding bit of the mask `r` is 0, and from `b` where it
/// is 1.
pub open spec fn mosaic_byte(a: u8, b: u8, r: u8) -> u8 {
    (!r & a) | (r & b)
}

/// A child genome: every byte mixes the parents' bytes under the mask byte.
pub open spec fn combined_dna(a: Seq<u8>, b: Seq<u8>, r: Seq<u8>) -> Seq<u8> {
    Seq::new(r.len(), |i: int| mosaic_byte(a[i], b[i], r[i]))
}

/// Derive a child genome for `account` from two parent genomes: a fresh
/// genome minted as in [`generate_kitty_dna`] acts as a per-bit selector mask
/// between the parents. Deterministic given identical inputs.
pub fn combine_kitties_dna(
    account: u64,
    kitty1_dna: Dna,
    kitty2_dna: Dna,
    seed: &[u8; 32],
    index: Option<u32>,
) -> (r: Dna)
    ensures
        r@ == combined_dna(kitty1_dna@, kitty2_dna@, dna_of(account, seed@, index)),
{
    let mut dna = generate_kitty_dna(account, seed, index);
    let ghost mask = dna@;
    for i in 0usize..16
        invariant
            dna@.len() == 16,
            mask == dna_of(account, seed@, index),
            forall|j: int|
                0 <= j < i ==> dna@[j] == mosaic_byte(kitty1_dna@[j], kitty2_dna@[j], mask[j]),
            forall|j: int| i <= j < 16 ==> dna@[j] == mask[j],
    {
        let m = dna[i];
        dna[i] = (!m & kitty1_dna[i]) | (m & kitty2_dna[i]);
    }
    proof {
        assert(dna@ =~= combined_dna(kitty1_dna@, kitty2_dna@, mask));
    }
    dna
}

/// One bit of the mosaic rule, spelled out: where bit `j` of the mask byte
/// `r` is 0 the combined byte agrees with `a` at bit `j`, and where it is 1
/// it agrees with `b`.
pub proof fn lemma_mosaic_byte_bit(a: u8, b: u8, r: u8, j: u8)
    requires
        j < 8,
    ensures
        (r >> j) & 1 == 0 ==> (mosaic_byte(a, b, r) >> j) & 1 == (a >> j) & 1,
        (r >> j) & 1 == 1 ==> (mosaic_byte(a, b, r) >> j) & 1 == (b >> j) & 1,
{
    assert((r >> j) & 1 == 0 ==> (((!r & a) | (r & b)) >> j) & 1 == (a >> j) & 1)
        by (bit_vector);
    assert((r >> j) & 1 == 1 ==> (((!r & a) | (r & b)) >> j) & 1 == (b >> j) & 1)
        by (bit_vector);
}

/// Breeding mosaic law: for parent genomes `a`, `b` and mask `r`, every bit
/// of the combined genome comes from `a` where the mask bit is 0 and from `b`
/// where it is 1, at every byte position `i` and bit position `j`.
pub proof fn lemma_breeding_mosaic(a: Seq<u8>, b: Seq<u8>, r: Seq<u8>, i: int, j: u8)
    requires
        a.len() == 16,
        b.len() == 16,
        r.len() == 16,
        0 <= i < 16,
        j < 8,
    ensures
        combined_dna(a, b, r).len() == 16,
        (r[i] >> j) & 1 == 0 ==> (combined_dna(a, b, r)[i] >> j) & 1 == (a[i] >> j) & 1,
        (r[i] >> j) & 1 == 1 ==> (combined_dna(a, b, r)[i] >> j) & 1 == (b[i] >> j) & 1,
{
    lemma_mosaic_byte_bit(a[i], b[i], r[i], j);
}

/// Determinism of generation: a genome is a pure function of entropy,
/// account, and index; two mints from identical inputs agree.
pub proof fn lemma_generate_deterministic(
    account: u64,
    seed: Seq<u8>,
    index: Option<u32>,
    d1: Seq<u8>,
    d2: Seq<u8>,
)
    requires
        d1 == dna_of(account, seed, index),
        d2 == dna_of(account, seed, index),
    ensures
        d1 == d2,
{
}

/// Determinism of combination: the child genome is a pure function of the
/// two parent genomes and the fresh mask; identical inputs agree.
pub proof fn lemma_combine_deterministic(
    a: Seq<u8>,
    b: Seq<u8>,
    r: Seq<u8>,
    c1: Seq<u8>,
    c2: Seq<u8>,
)
    requires
        c1 == combined_dna(a, b, r),
        c2 == combined_dna(a, b, r),
    ensures
        c1 == c2,
{
}

} // verus!
