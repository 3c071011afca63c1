//! Builds the positional request payload sent to the computation cluster: an
//! ordered sequence of tagged items — plaintext scalars, opaque encrypted
//! scalars, a recipient public key, or a by-reference slice of an on-ledger
//! record — and its byte serialization. The encoding order must exactly match
//! the target circuit's declared parameter order; this layer is a pure,
//! order-sensitive serializer and performs no semantic validation.

use vstd::bytes::{
    spec_u128_to_le_bytes, spec_u16_to_le_bytes, spec_u32_to_le_bytes, spec_u64_to_le_bytes,
    u128_to_le_bytes, u16_to_le_bytes, u32_to_le_bytes, u64_to_le_bytes,
};
use vstd::prelude::*;

use crate::record::{CipherWord, Principal};

verus! {

/// One positional item of a request payload.
#[derive(Clone, Copy, PartialEq, Eq, Debug)]
pub enum Argument {
    /// A plaintext boolean (a direction flag the circuit branches on).
    PlaintextBool(bool),
    /// A plaintext 16-bit scalar (an option count or index).
    PlaintextU16(u16),
    /// A plaintext 64-bit scalar (a token or bid amount).
    PlaintextU64(u64),
    /// A plaintext 128-bit scalar (a record's version nonce).
    PlaintextU128(u128),
    /// An encrypted 16-bit scalar, supplied by the caller as ciphertext.
    EncryptedU16(CipherWord),
    /// An encrypted 64-bit scalar, supplied by the caller as ciphertext.
    EncryptedU64(CipherWord),
    /// An encrypted 128-bit scalar, supplied by the caller as ciphertext.
    EncryptedU128(CipherWord),
    /// A public key addressing the result to a recipient for threshold
    /// decryption.
    X25519Pubkey([u8; 32]),
    /// A by-reference slice of an on-ledger record's bytes, so the cluster
    /// reads existing ciphertext directly instead of having it re-sent.
    RecordRef { address: Principal, offset: u32, length: u32 },
}

/// The tag byte that opens each serialized item.
pub open spec fn spec_argument_tag(a: Argument) -> u8 {
    match a {
        Argument::PlaintextBool(_) => 0u8,
        Argument::PlaintextU16(_) => 1u8,
        Argument::PlaintextU64(_) => 2u8,
        Argument::PlaintextU128(_) => 3u8,
        Argument::EncryptedU16(_) => 4u8,
        Argument::EncryptedU64(_) => 5u8,
        Argument::EncryptedU128(_) => 6u8,
        Argument::X25519Pubkey(_) => 7u8,
        Argument::RecordRef { .. } => 8u8,
    }
}

/// A principal identity on the wire: the low half, then the high half, each
/// in little-endian order.
pub open spec fn spec_principal_bytes(p: Principal) -> Seq<u8> {
    spec_u128_to_le_bytes(p.lo) + spec_u128_to_le_bytes(p.hi)
}

/// One serialized item: its tag byte followed by its payload, scalars in
/// little-endian order and ciphertexts verbatim.
pub open spec fn spec_argument_bytes(a: Argument) -> Seq<u8> {
    seq![spec_argument_tag(a)] + match a {
        Argument::PlaintextBool(b) => seq![if b { 1u8 } else { 0u8 }],
        Argument::PlaintextU16(x) => spec_u16_to_le_bytes(x),
        Argument::PlaintextU64(x) => spec_u64_to_le_bytes(x),
        Argument::PlaintextU128(x) => spec_u128_to_le_bytes(x),
        Argument::EncryptedU16(w) => w@,
        Argument::EncryptedU64(w) => w@,
        Argument::EncryptedU128(w) => w@,
        Argument::X25519Pubkey(k) => k@,
        Argument::RecordRef { address, offset, length } => spec_principal_bytes(address)
            + spec_u32_to_le_bytes(offset) + spec_u32_to_le_bytes(length),
    }
}

/// The serialization of a whole payload: the items' bytes, concatenated in
/// the payload's order.
pub open spec fn spec_encode_arguments(args: Seq<Argument>) -> Seq<u8>
    decreases args.len(),
{
    if args.len() == 0 {
        Seq::empty()
    } else {
        spec_argument_bytes(args[0]) + spec_encode_arguments(args.subrange(1, args.len() as int))
    }
}

/// Builds a request payload item by item, in circuit parameter order.
pub struct ArgumentEncoder {
    pub items: Vec<Argument>,
}

impl ArgumentEncoder {
    /// An empty payload.
    pub fn new() -> (r: ArgumentEncoder)
        ensures
            r.items@ == Seq::<Argument>::empty(),
    {
        ArgumentEncoder { items: Vec::new() }
    }

    /// Appends a plaintext boolean.
    pub fn plaintext_bool(self, b: bool) -> (r: ArgumentEncoder)
        ensures
            r.items@ == self.items@.push(Argument::PlaintextBool(b)),
    {
        let mut items = self.items;
        items.push(Argument::PlaintextBool(b));
        ArgumentEncoder { items }
    }

    /// Appends a plaintext 16-bit scalar.
    pub fn plaintext_u16(self, x: u16) -> (r: ArgumentEncoder)
        ensures
            r.items@ == self.items@.push(Argument::PlaintextU16(x)),
    {
        let mut items = self.items;
        items.push(Argument::PlaintextU16(x));
        ArgumentEncoder { items }
    }

    /// Appends a plaintext 64-bit scalar.
    pub fn plaintext_u64(self, x: u64) -> (r: ArgumentEncoder)
        ensures
            r.items@ == self.items@.push(Argument::PlaintextU64(x)),
    {
        let mut items = self.items;
        items.push(Argument::PlaintextU64(x));
        ArgumentEncoder { items }
    }

    /// Appends a plaintext 128-bit scalar.
    pub fn plaintext_u128(self, x: u128) -> (r: ArgumentEncoder)
        ensures
            r.items@ == self.items@.push(Argument::PlaintextU128(x)),
    {
        let mut items = self.items;
        items.push(Argument::PlaintextU128(x));
        ArgumentEncoder { items }
    }

    /// Appends an encrypted 16-bit scalar.
    pub fn encrypted_u16(self, w: CipherWord) -> (r: ArgumentEncoder)
        ensures
            r.items@ == self.items@.push(Argument::EncryptedU16(w)),
    {
        let mut items = self.items;
        items.push(Argument::EncryptedU16(w));
        ArgumentEncoder { items }
    }

    /// Appends an encrypted 64-bit scalar.
    pub fn encrypted_u64(self, w: CipherWord) -> (r: ArgumentEncoder)
        ensures
            r.items@ == self.items@.push(Argument::EncryptedU64(w)),
    {
        let mut items = self.items;
        items.push(Argument::EncryptedU64(w));
        ArgumentEncoder { items }
    }

    /// Appends an encrypted 128-bit scalar.
    pub fn encrypted_u128(self, w: CipherWord) -> (r: ArgumentEncoder)
        ensures
            r.items@ == self.items@.push(Argument::EncryptedU128(w)),
    {
        let mut items = self.items;
        items.push(Argument::EncryptedU128(w));
        ArgumentEncoder { items }
    }

    /// Appends a recipient public key.
    pub fn x25519_pubkey(self, k: [u8; 32]) -> (r: ArgumentEncoder)
        ensures
            r.items@ == self.items@.push(Argument::X25519Pubkey(k)),
    {
        let mut items = self.items;
        items.push(Argument::X25519Pubkey(k));
        ArgumentEncoder { items }
    }

    /// Appends a by-reference slice of the record at `address`.
    pub fn account(self, address: Principal, offset: u32, length: u32) -> (r: ArgumentEncoder)
        ensures
            r.items@ == self.items@.push(Argument::RecordRef { address, offset, length }),
    {
        let mut items = self.items;
        items.push(Argument::RecordRef { address, offset, length });
        ArgumentEncoder { items }
    }

    /// Hands out the finished payload, in the order it was built.
    pub fn build(self) -> (r: Vec<Argument>)
        ensures
            r@ == self.items@,
    {
        self.items
    }
}

/// Appends one item's serialization to `out`.
fn append_argument_bytes(out: &mut Vec<u8>, a: &Argument)
    ensures
        final(out)@ == old(out)@ + spec_argument_bytes(*a),
{
    match a {
        Argument::PlaintextBool(b) => {
            out.push(0u8);
            out.push(if *b { 1u8 } else { 0u8 });
        },
        Argument::PlaintextU16(x) => {
            out.push(1u8);
            let mut bytes = u16_to_le_bytes(*x);
            out.append(&mut bytes);
        },
        Argument::PlaintextU64(x) => {
            out.push(2u8);
            let mut bytes = u64_to_le_bytes(*x);
            out.append(&mut bytes);
        },
        Argument::PlaintextU128(x) => {
            out.push(3u8);
            let mut bytes = u128_to_le_bytes(*x);
            out.append(&mut bytes);
        },
        Argument::EncryptedU16(w) => {
            out.push(4u8);
            append_word_bytes(out, w);
        },
        Argument::EncryptedU64(w) => {
            out.push(5u8);
            append_word_bytes(out, w);
        },
        Argument::EncryptedU128(w) => {
            out.push(6u8);
            append_word_bytes(out, w);
        },
        Argument::X25519Pubkey(k) => {
            out.push(7u8);
            append_word_bytes(out, k);
        },
        Argument::RecordRef { address, offset, length } => {
            out.push(8u8);
            let mut lo = u128_to_le_bytes(address.lo);
            out.append(&mut lo);
            let mut hi = u128_to_le_bytes(address.hi);
            out.append(&mut hi);
            let mut off = u32_to_le_bytes(*offset);
            out.append(&mut off);
            let mut len = u32_to_le_bytes(*length);
            out.append(&mut len);
        },
    }
    proof {
        assert(final(out)@ =~= old(out)@ + spec_argument_bytes(*a));
    }
}

/// Appends a 32-byte word verbatim.
fn append_word_bytes(out: &mut Vec<u8>, w: &[u8; 32])
    ensures
        final(out)@ == old(out)@ + w@,
{
    let mut i: usize = 0;
    while i < 32
        invariant
            i <= 32,
            out@ == old(out)@ + w@.subrange(0, i as int),
        decreases 32 - i,
    {
        out.push(w[i]);
        i = i + 1;
        proof {
            assert(out@ =~= old(out)@ + w@.subrange(0, i as int));
        }
    }
    proof {
        assert(out@ =~= old(out)@ + w@);
    }
}

/// Serializes a payload for the wire: each item's tag and bytes, in payload
/// order.
pub fn encode_arguments(args: &Vec<Argument>) -> (out: Vec<u8>)
    ensures
        out@ == spec_encode_arguments(args@),
{
    let mut out: Vec<u8> = Vec::new();
    let mut i: usize = 0;
    while i < args.len()
        invariant
            i <= args@.len(),
            out@ == spec_encode_arguments(args@.subrange(0, i as int)),
        decreases args@.len() - i,
    {
        append_argument_bytes(&mut out, &args[i]);
        i = i + 1;
        proof {
            lemma_encode_arguments_snoc(args@.subrange(0, i as int));
            assert(args@.subrange(0, i as int).drop_last() =~= args@.subrange(0, i - 1));
        }
    }
    proof {
        assert(args@.subrange(0, args@.len() as int) =~= args@);
    }
    out
}

/// Serializing a payload and then one more item is serializing the longer
/// payload.
proof fn lemma_encode_arguments_snoc(args: Seq<Argument>)
    requires
        args.len() > 0,
    ensures
        spec_encode_arguments(args) == spec_encode_arguments(args.drop_last()) + spec_argument_bytes(
            args.last(),
        ),
    decreases args.len(),
{
    if args.len() == 1 {
        assert(args.drop_last() =~= Seq::empty());
        assert(args.subrange(1, args.len() as int) =~= Seq::empty());
        assert(spec_encode_arguments(args) =~= spec_encode_arguments(args.drop_last())
            + spec_argument_bytes(args.last()));
    } else {
        let rest = args.subrange(1, args.len() as int);
        lemma_encode_arguments_snoc(rest);
        assert(rest.drop_last() =~= args.drop_last().subrange(1, args.drop_last().len() as int));
        assert(args.drop_last()[0] == args[0]);
        assert(rest.last() == args.last());
        assert(spec_encode_arguments(args) =~= spec_encode_arguments(args.drop_last())
            + spec_argument_bytes(args.last()));
    }
}

} // verus!
