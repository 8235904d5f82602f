use vstd::prelude::*;

use crate::bitmap::Bitmap;
use crate::encoding::{be_bytes_u16, be_bytes_u64, push_be_u16, push_be_u64};
use crate::error::EndpointError;
use crate::hash::{keccak256, keccak_hash, push_all};
use crate::pda::{bytes_to_vec, derived_from, find_pda2};
use crate::pubkey::Pubkey;

verus! {

/// The bytes whose Keccak-256 digest names a message: the source chain and
/// the sequence as big-endian integers, the addresses and the payload hash as
/// they are, in the order source chain, source address, sequence, destination
/// chain, destination address, payload hash.
pub open spec fn message_preimage(
    src_chain: u16,
    src_addr: Seq<u8>,
    sequence: u64,
    dst_chain: u16,
    dst_addr: Seq<u8>,
    payload_hash: Seq<u8>,
) -> Seq<u8> {
    be_bytes_u16(src_chain) + src_addr + be_bytes_u64(sequence) + be_bytes_u16(dst_chain)
        + dst_addr + payload_hash
}

/// The `u16` that two big-endian bytes encode.
pub open spec fn be_u16_of(hi: u8, lo: u8) -> int {
    hi * 0x100 + lo
}

/// The `u64` that eight big-endian bytes encode.
pub open spec fn be_u64_of(b: Seq<u8>) -> int {
    ((((((b[0] * 0x100 + b[1]) * 0x100 + b[2]) * 0x100 + b[3]) * 0x100 + b[4]) * 0x100 + b[5])
        * 0x100 + b[6]) * 0x100 + b[7]
}

proof fn lemma_be_u16(x: u16)
    ensures
        be_u16_of(be_bytes_u16(x)[0], be_bytes_u16(x)[1]) == x,
{
    assert((x / 0x100) as u8 == x / 0x100);
    assert((x % 0x100) as u8 == x % 0x100);
}

proof fn lemma_be_u64(x: u64)
    ensures
        be_u64_of(be_bytes_u64(x)) == x,
{
    let b = be_bytes_u64(x);
    let q1 = x / 0x100;
    let q2 = x / 0x1_0000;
    let q3 = x / 0x100_0000;
    let q4 = x / 0x1_0000_0000;
    let q5 = x / 0x100_0000_0000;
    let q6 = x / 0x1_0000_0000_0000;
    let q7 = x / 0x100_0000_0000_0000;
    assert(q2 == q1 / 0x100) by (nonlinear_arith)
        requires q1 == x / 0x100, q2 == x / 0x1_0000, x >= 0;
    assert(q3 == q2 / 0x100) by (nonlinear_arith)
        requires q2 == x / 0x1_0000, q3 == x / 0x100_0000, x >= 0;
    assert(q4 == q3 / 0x100) by (nonlinear_arith)
        requires q3 == x / 0x100_0000, q4 == x / 0x1_0000_0000, x >= 0;
    assert(q5 == q4 / 0x100) by (nonlinear_arith)
        requires q4 == x / 0x1_0000_0000, q5 == x / 0x100_0000_0000, x >= 0;
    assert(q6 == q5 / 0x100) by (nonlinear_arith)
        requires q5 == x / 0x100_0000_0000, q6 == x / 0x1_0000_0000_0000, x >= 0;
    assert(q7 == q6 / 0x100) by (nonlinear_arith)
        requires q6 == x / 0x1_0000_0000_0000, q7 == x / 0x100_0000_0000_0000, x >= 0;
    assert(q7 < 0x100);
    assert(b[0] == q7);
    assert(b[1] == q6 % 0x100);
    assert(b[2] == q5 % 0x100);
    assert(b[3] == q4 % 0x100);
    assert(b[4] == q3 % 0x100);
    assert(b[5] == q2 % 0x100);
    assert(b[6] == q1 % 0x100);
    assert(b[7] == x % 0x100);
}

/// `p` is 108 bytes that carry every field in full, at fixed places: the
/// source chain in bytes 0-1 and the destination chain in bytes 42-43 (both
/// big-endian), the source address in bytes 2-33, the sequence in bytes 34-41
/// (big-endian), the destination address in bytes 44-75 and the payload hash
/// in bytes 76-107.
pub open spec fn packs_message(
    p: Seq<u8>,
    src_chain: u16,
    src_addr: [u8; 32],
    sequence: u64,
    dst_chain: u16,
    dst_addr: [u8; 32],
    payload_hash: [u8; 32],
) -> bool {
    &&& p.len() == 108
    &&& be_u16_of(p[0], p[1]) == src_chain
    &&& p.subrange(2, 34) == src_addr@
    &&& be_u64_of(p.subrange(34, 42)) == sequence
    &&& be_u16_of(p[42], p[43]) == dst_chain
    &&& p.subrange(44, 76) == dst_addr@
    &&& p.subrange(76, 108) == payload_hash@
}

/// The packed encoding carries every field in full, at fixed places: the
/// source chain in bytes 0-1 and the destination chain in bytes 42-43 (both
/// big-endian), the source address in bytes 2-33, the sequence in bytes 34-41
/// (big-endian), the destination address in bytes 44-75 and the payload hash in
/// bytes 76-107. So two messages that differ in any field, a chain id's high
/// byte included, have different preimages.
pub proof fn lemma_preimage_layout(
    src_chain: u16,
    src_addr: [u8; 32],
    sequence: u64,
    dst_chain: u16,
    dst_addr: [u8; 32],
    payload_hash: [u8; 32],
)
    ensures
        packs_message(
            message_preimage(src_chain, src_addr@, sequence, dst_chain, dst_addr@, payload_hash@),
            src_chain,
            src_addr,
            sequence,
            dst_chain,
            dst_addr,
            payload_hash,
        ),
{
    let p = message_preimage(src_chain, src_addr@, sequence, dst_chain, dst_addr@, payload_hash@);
    lemma_be_u16(src_chain);
    lemma_be_u16(dst_chain);
    lemma_be_u64(sequence);
    assert(p.subrange(2, 34) =~= src_addr@);
    assert(p.subrange(34, 42) =~= be_bytes_u64(sequence));
    assert(p.subrange(44, 76) =~= dst_addr@);
    assert(p.subrange(76, 108) =~= payload_hash@);
}

/// Two messages have the same packed encoding only if they agree in every
/// field.
pub proof fn lemma_preimage_injective(
    src_chain: u16,
    src_addr: [u8; 32],
    sequence: u64,
    dst_chain: u16,
    dst_addr: [u8; 32],
    payload_hash: [u8; 32],
    src_chain2: u16,
    src_addr2: [u8; 32],
    sequence2: u64,
    dst_chain2: u16,
    dst_addr2: [u8; 32],
    payload_hash2: [u8; 32],
)
    requires
        message_preimage(src_chain, src_addr@, sequence, dst_chain, dst_addr@, payload_hash@)
            == message_preimage(
            src_chain2,
            src_addr2@,
            sequence2,
            dst_chain2,
            dst_addr2@,
            payload_hash2@,
        ),
    ensures
        src_chain == src_chain2,
        src_addr == src_addr2,
        sequence == sequence2,
        dst_chain == dst_chain2,
        dst_addr == dst_addr2,
        payload_hash == payload_hash2,
{
    lemma_preimage_layout(src_chain, src_addr, sequence, dst_chain, dst_addr, payload_hash);
    lemma_preimage_layout(src_chain2, src_addr2, sequence2, dst_chain2, dst_addr2, payload_hash2);
    assert(src_addr =~= src_addr2);
    assert(dst_addr =~= dst_addr2);
    assert(payload_hash =~= payload_hash2);
}

/// The hash that names a message.
pub open spec fn spec_message_hash(
    src_chain: u16,
    src_addr: [u8; 32],
    sequence: u64,
    dst_chain: u16,
    dst_addr: [u8; 32],
    payload_hash: [u8; 32],
) -> Seq<u8> {
    keccak256(
        message_preimage(src_chain, src_addr@, sequence, dst_chain, dst_addr@, payload_hash@),
    )
}

/// What the endpoint knows of one incoming message: its fields, which
/// adapters have attested to it, and whether it has been executed.
#[derive(Clone, Copy, Debug)]
pub struct AttestationInfo {
    /// Bump seed for PDA derivation
    pub bump: u8,
    /// Message hash (32 bytes)
    pub message_hash: [u8; 32],
    /// Source chain ID
    pub src_chain: u16,
    /// Source address (32 bytes)
    pub src_addr: [u8; 32],
    /// Sequence number
    pub sequence: u64,
    /// Destination chain ID
    pub dst_chain: u16,
    /// Destination address (32 bytes)
    pub dst_addr: [u8; 32],
    /// Payload hash (32 bytes)
    pub payload_hash: [u8; 32],
    /// Replay protection flag
    pub executed: bool,
    /// Number of adapters that have attested to this message
    pub num_attested: u8,
    /// The bitmap of receive-enabled adapters for this source chain that have attested to the message
    pub attested_adapters: Bitmap,
}

impl AttestationInfo {
    /// Seed prefix for deriving AttestionInfo PDAs: the bytes of
    /// "attestation_info"
    pub const SEED_PREFIX: [u8; 16] = [
        0x61, 0x74, 0x74, 0x65, 0x73, 0x74, 0x61, 0x74, 0x69, 0x6f, 0x6e, 0x5f, 0x69, 0x6e, 0x66,
        0x6f,
    ];

    /// The stored hash is the hash of the stored fields.
    pub open spec fn hash_matches(self) -> bool {
        self.message_hash@ == spec_message_hash(
            self.src_chain,
            self.src_addr,
            self.sequence,
            self.dst_chain,
            self.dst_addr,
            self.payload_hash,
        )
    }

    /// The record's invariant: once initialized (nonzero source chain), the
    /// stored hash is the hash of the stored fields and the count of
    /// attestations is the number of adapters marked as having attested.
    pub open spec fn wf(self) -> bool {
        self.src_chain != 0 ==> {
            &&& self.hash_matches()
            &&& self.num_attested == self.attested_adapters.count()
        }
    }

    /// A fresh attestation record for a message; fails when either chain id
    /// is 0.
    pub fn new(
        bump: u8,
        src_chain: u16,
        src_addr: [u8; 32],
        sequence: u64,
        dst_chain: u16,
        dst_addr: [u8; 32],
        payload_hash: [u8; 32],
    ) -> (r: Result<Self, EndpointError>)
        ensures
            (src_chain == 0 || dst_chain == 0) ==> r == Err::<Self, EndpointError>(
                EndpointError::InvalidChainId,
            ),
            (src_chain != 0 && dst_chain != 0) ==> (r matches Ok(info) && {
                &&& info.bump == bump
                &&& info.src_chain == src_chain
                &&& info.src_addr == src_addr
                &&& info.sequence == sequence
                &&& info.dst_chain == dst_chain
                &&& info.dst_addr == dst_addr
                &&& info.payload_hash == payload_hash
                &&& info.hash_matches()
                &&& !info.executed
                &&& info.num_attested == 0
                &&& info.attested_adapters == Bitmap::empty()
                &&& info.wf()
            }),
    {
        // Check that neither chain ID is 0
        if !(src_chain != 0 && dst_chain != 0) {
            return Err(EndpointError::InvalidChainId);
        }
        let mut info = Self {
            bump,
            src_chain,
            src_addr,
            sequence,
            dst_chain,
            dst_addr,
            payload_hash,
            message_hash: [0u8; 32],
            executed: false,
            num_attested: 0,
            attested_adapters: Bitmap::new(),
        };
        info.message_hash = info.compute_own_message_hash();
        proof {
            Bitmap::lemma_count_empty_below(128);
        }
        Ok(info)
    }

    /// The hash of this record's own message fields.
    pub fn compute_own_message_hash(&self) -> (r: [u8; 32])
        ensures
            r@ == spec_message_hash(
                self.src_chain,
                self.src_addr,
                self.sequence,
                self.dst_chain,
                self.dst_addr,
                self.payload_hash,
            ),
    {
        Self::compute_message_hash(
            self.src_chain,
            self.src_addr,
            self.sequence,
            self.dst_chain,
            self.dst_addr,
            self.payload_hash,
        )
    }

    /// The Keccak-256 digest of the message's packed encoding.
    pub fn compute_message_hash(
        src_chain: u16,
        src_addr: [u8; 32],
        sequence: u64,
        dst_chain: u16,
        dst_addr: [u8; 32],
        payload_hash: [u8; 32],
    ) -> (r: [u8; 32])
        ensures
            r@ == spec_message_hash(
                src_chain,
                src_addr,
                sequence,
                dst_chain,
                dst_addr,
                payload_hash,
            ),
            r@ == keccak256(
                message_preimage(src_chain, src_addr@, sequence, dst_chain, dst_addr@, payload_hash@),
            ),
            packs_message(
                message_preimage(src_chain, src_addr@, sequence, dst_chain, dst_addr@, payload_hash@),
                src_chain,
                src_addr,
                sequence,
                dst_chain,
                dst_addr,
                payload_hash,
            ),
    {
        proof {
            lemma_preimage_layout(src_chain, src_addr, sequence, dst_chain, dst_addr, payload_hash);
        }
        let mut bytes: Vec<u8> = Vec::new();
        push_be_u16(&mut bytes, src_chain);
        push_all(&mut bytes, &src_addr);
        push_be_u64(&mut bytes, sequence);
        push_be_u16(&mut bytes, dst_chain);
        push_all(&mut bytes, &dst_addr);
        push_all(&mut bytes, &payload_hash);
        assert(bytes@ =~= message_preimage(
            src_chain,
            src_addr@,
            sequence,
            dst_chain,
            dst_addr@,
            payload_hash@,
        ));
        keccak_hash(bytes.as_slice())
    }

    /// The address and bump of the attestation record of the message with
    /// this hash: the derivation of `SEED_PREFIX` and the hash.
    pub fn pda(message_hash: [u8; 32]) -> (r: Option<(Pubkey, u8)>)
        ensures
            derived_from(r, seq![Self::SEED_PREFIX@, message_hash@]),
    {
        find_pda2(bytes_to_vec(&Self::SEED_PREFIX), bytes_to_vec(&message_hash))
    }
}

} // verus!
