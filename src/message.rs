//! The relay payload that travels inside a bridge transfer.
//!
//! Layout, 97 bytes: the payload id `1`; the relayer fee and the amount to
//! swap for native gas, each as a 256-bit big-endian word whose value fits
//! in 64 bits; the 32-byte recipient. Both amounts carry eight decimals.
use crate::state::Address;
use vstd::prelude::*;

verus! {

/// Identifier of the transfer-with-relay payload.
pub const PAYLOAD_ID_TRANSFER_WITH_RELAY: u8 = 1;

/// Length of an encoded payload.
pub const MESSAGE_LEN: usize = 97;

#[derive(Clone, Copy, Debug, PartialEq, Eq)]
pub enum TokenBridgeRelayerMessage {
    TransferWithRelay { target_relayer_fee: u64, to_native_token_amount: u64, recipient: Address },
}

/// The eight bytes of `v`, most significant first.
pub open spec fn be8(v: u64) -> Seq<u8> {
    seq![
        (v >> 56u64) as u8,
        (v >> 48u64) as u8,
        (v >> 40u64) as u8,
        (v >> 32u64) as u8,
        (v >> 24u64) as u8,
        (v >> 16u64) as u8,
        (v >> 8u64) as u8,
        v as u8,
    ]
}

/// The value of eight bytes, most significant first.
pub open spec fn be8_value(s: Seq<u8>) -> u64 {
    (s[0] as u64) << 56u64 | (s[1] as u64) << 48u64 | (s[2] as u64) << 40u64 | (s[3] as u64)
        << 32u64 | (s[4] as u64) << 24u64 | (s[5] as u64) << 16u64 | (s[6] as u64) << 8u64 | (
    s[7] as u64)
}

/// A 64-bit amount as a 256-bit big-endian word.
pub open spec fn amount_word(v: u64) -> Seq<u8> {
    Seq::new(24, |i: int| 0u8) + be8(v)
}

/// The bytes of a payload.
pub open spec fn encoded(m: TokenBridgeRelayerMessage) -> Seq<u8> {
    match m {
        TokenBridgeRelayerMessage::TransferWithRelay {
            target_relayer_fee,
            to_native_token_amount,
            recipient,
        } => seq![PAYLOAD_ID_TRANSFER_WITH_RELAY] + amount_word(target_relayer_fee) + amount_word(
            to_native_token_amount,
        ) + recipient@,
    }
}

/// Bytes that decode: the right length and id, and amounts within 64 bits.
pub open spec fn is_valid_encoding(s: Seq<u8>) -> bool {
    &&& s.len() == MESSAGE_LEN
    &&& s[0] == PAYLOAD_ID_TRANSFER_WITH_RELAY
    &&& forall|i: int| 1 <= i < 25 ==> #[trigger] s[i] == 0
    &&& forall|i: int| 33 <= i < 57 ==> #[trigger] s[i] == 0
}

/// The payload that valid bytes stand for.
pub open spec fn decodes_to(s: Seq<u8>, m: TokenBridgeRelayerMessage) -> bool {
    match m {
        TokenBridgeRelayerMessage::TransferWithRelay {
            target_relayer_fee,
            to_native_token_amount,
            recipient,
        } => {
            &&& target_relayer_fee == be8_value(s.subrange(25, 33))
            &&& to_native_token_amount == be8_value(s.subrange(57, 65))
            &&& recipient@ == s.subrange(65, 97)
        },
    }
}

proof fn lemma_be8_round_trip(v: u64)
    ensures
        be8_value(be8(v)) == v,
{
    assert(((((v >> 56u64) as u8) as u64) << 56u64 | (((v >> 48u64) as u8) as u64) << 48u64 | ((
    (v >> 40u64) as u8) as u64) << 40u64 | (((v >> 32u64) as u8) as u64) << 32u64 | (((v
        >> 24u64) as u8) as u64) << 24u64 | (((v >> 16u64) as u8) as u64) << 16u64 | (((v
        >> 8u64) as u8) as u64) << 8u64 | ((v as u8) as u64)) == v) by (bit_vector);
}

proof fn lemma_be8_of_value(s: Seq<u8>)
    requires
        s.len() == 8,
    ensures
        be8(be8_value(s)) == s,
{
    let (b0, b1, b2, b3, b4, b5, b6, b7) = (s[0], s[1], s[2], s[3], s[4], s[5], s[6], s[7]);
    let v = be8_value(s);
    assert(v == (b0 as u64) << 56u64 | (b1 as u64) << 48u64 | (b2 as u64) << 40u64 | (b3 as u64)
        << 32u64 | (b4 as u64) << 24u64 | (b5 as u64) << 16u64 | (b6 as u64) << 8u64 | (
    b7 as u64));
    assert((v >> 56u64) as u8 == b0 && (v >> 48u64) as u8 == b1 && (v >> 40u64) as u8 == b2 && (v
        >> 32u64) as u8 == b3 && (v >> 24u64) as u8 == b4 && (v >> 16u64) as u8 == b5 && (v
        >> 8u64) as u8 == b6 && v as u8 == b7) by (bit_vector)
        requires
            v == (b0 as u64) << 56u64 | (b1 as u64) << 48u64 | (b2 as u64) << 40u64 | (b3 as u64)
                << 32u64 | (b4 as u64) << 24u64 | (b5 as u64) << 16u64 | (b6 as u64) << 8u64 | (
            b7 as u64),
    ;
    assert(be8(v) =~= s);
}

/// Decoding an encoded payload gives that payload back.
pub proof fn lemma_decode_encoded(m: TokenBridgeRelayerMessage)
    ensures
        is_valid_encoding(encoded(m)),
        decodes_to(encoded(m), m),
{
    let TokenBridgeRelayerMessage::TransferWithRelay {
        target_relayer_fee,
        to_native_token_amount,
        recipient,
    } = m;
    let s = encoded(m);
    lemma_be8_round_trip(target_relayer_fee);
    lemma_be8_round_trip(to_native_token_amount);
    assert(s.subrange(25, 33) =~= be8(target_relayer_fee));
    assert(s.subrange(57, 65) =~= be8(to_native_token_amount));
    assert(s.subrange(65, 97) =~= recipient@);
}

/// Bytes that decode are exactly the encoding of what they decode to.
pub proof fn lemma_encode_decoded(s: Seq<u8>, m: TokenBridgeRelayerMessage)
    requires
        is_valid_encoding(s),
        decodes_to(s, m),
    ensures
        encoded(m) == s,
{
    let TokenBridgeRelayerMessage::TransferWithRelay {
        target_relayer_fee,
        to_native_token_amount,
        recipient,
    } = m;
    lemma_be8_of_value(s.subrange(25, 33));
    lemma_be8_of_value(s.subrange(57, 65));
    assert(encoded(m) =~= s);
}

/// Appends `v` as a 256-bit big-endian word.
fn push_amount_word(out: &mut Vec<u8>, v: u64)
    ensures
        final(out)@ == old(out)@ + amount_word(v),
{
    let ghost start = out@;
    let mut i: usize = 0;
    while i < 24
        invariant
            i <= 24,
            out@ == start + Seq::new(i as nat, |j: int| 0u8),
        decreases 24 - i,
    {
        out.push(0);
        i = i + 1;
        assert(out@ =~= start + Seq::new(i as nat, |j: int| 0u8));
    }
    out.push((v >> 56u64) as u8);
    out.push((v >> 48u64) as u8);
    out.push((v >> 40u64) as u8);
    out.push((v >> 32u64) as u8);
    out.push((v >> 24u64) as u8);
    out.push((v >> 16u64) as u8);
    out.push((v >> 8u64) as u8);
    out.push(v as u8);
    assert(out@ =~= start + amount_word(v));
}

/// Reads eight bytes from `start`, most significant first.
fn read_be8(bytes: &[u8], start: usize) -> (r: u64)
    requires
        start + 8 <= bytes@.len(),
    ensures
        r == be8_value(bytes@.subrange(start as int, start + 8)),
{
    (bytes[start] as u64) << 56u64 | (bytes[start + 1] as u64) << 48u64 | (bytes[start + 2] as u64)
        << 40u64 | (bytes[start + 3] as u64) << 32u64 | (bytes[start + 4] as u64) << 24u64 | (
    bytes[start + 5] as u64) << 16u64 | (bytes[start + 6] as u64) << 8u64 | (
    bytes[start + 7] as u64)
}

/// Whether `bytes[from..to]` are all zero.
fn all_zero(bytes: &[u8], from: usize, to: usize) -> (r: bool)
    requires
        from <= to <= bytes@.len(),
    ensures
        r == (forall|i: int| from <= i < to ==> #[trigger] bytes@[i] == 0),
{
    let mut i: usize = from;
    while i < to
        invariant
            from <= i <= to,
            to <= bytes@.len(),
            forall|j: int| from <= j < i ==> #[trigger] bytes@[j] == 0,
        decreases to - i,
    {
        if bytes[i] != 0 {
            return false;
        }
        i = i + 1;
    }
    true
}

impl TokenBridgeRelayerMessage {
    /// The payload's bytes.
    pub fn encode(&self) -> (r: Vec<u8>)
        ensures
            r@ == encoded(*self),
    {
        match self {
            TokenBridgeRelayerMessage::TransferWithRelay {
                target_relayer_fee,
                to_native_token_amount,
                recipient,
            } => {
                let mut out: Vec<u8> = Vec::new();
                out.push(PAYLOAD_ID_TRANSFER_WITH_RELAY);
                push_amount_word(&mut out, *target_relayer_fee);
                push_amount_word(&mut out, *to_native_token_amount);
                let ghost head = out@;
                let mut i: usize = 0;
                while i < 32
                    invariant
                        i <= 32,
                        out@ == head + recipient@.subrange(0, i as int),
                    decreases 32 - i,
                {
                    out.push(recipient[i]);
                    i = i + 1;
                    assert(out@ =~= head + recipient@.subrange(0, i as int));
                }
                assert(recipient@.subrange(0, 32) =~= recipient@);
                assert(out@ =~= encoded(*self));
                out
            },
        }
    }

    /// The payload that `bytes` encode, or `None` for bytes of another
    /// length, another payload id, or an amount beyond 64 bits.
    pub fn decode(bytes: &[u8]) -> (r: Option<TokenBridgeRelayerMessage>)
        ensures
            r is Some <==> is_valid_encoding(bytes@),
            r matches Some(m) ==> decodes_to(bytes@, m),
    {
        if bytes.len() != MESSAGE_LEN {
            return None;
        }
        if bytes[0] != PAYLOAD_ID_TRANSFER_WITH_RELAY {
            return None;
        }
        if !all_zero(bytes, 1, 25) || !all_zero(bytes, 33, 57) {
            return None;
        }
        let target_relayer_fee = read_be8(bytes, 25);
        let to_native_token_amount = read_be8(bytes, 57);
        let mut recipient: Address = [0u8; 32];
        let mut i: usize = 0;
        while i < 32
            invariant
                i <= 32,
                bytes@.len() == MESSAGE_LEN,
                forall|j: int| 0 <= j < i ==> #[trigger] recipient@[j] == bytes@[65 + j],
            decreases 32 - i,
        {
            recipient[i] = bytes[65 + i];
            i = i + 1;
        }
        assert(recipient@ =~= bytes@.subrange(65, 97));
        Some(
            TokenBridgeRelayerMessage::TransferWithRelay {
                target_relayer_fee,
                to_native_token_amount,
                recipient,
            },
        )
    }
}

} // verus!
