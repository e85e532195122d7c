//! Why an instruction of the relay was refused.
use vstd::prelude::*;

verus! {

#[derive(Clone, Copy, Debug, PartialEq, Eq)]
pub enum TokenBridgeRelayerError {
    /// A zero identity where a real one is needed.
    InvalidPublicKey,
    /// The proposed owner already owns the relay.
    AlreadyTheOwner,
    /// The caller is not the owner-to-be of a pending handover.
    NotPendingOwner,
    /// Only the owner may do this.
    OwnerOnly,
    /// Only the owner or the assistant may do this.
    OwnerOrAssistantOnly,
    /// The chain is the host's own, or the contract address is zero.
    InvalidForeignContract,
    /// The token is registered already.
    TokenAlreadyRegistered,
    /// The token is not registered.
    TokenNotRegistered,
    /// A swap rate of zero.
    ZeroSwapRate,
    /// The native mint allows no native swap.
    SwapsNotAllowedForNativeMint,
    /// A precision of zero.
    InvalidPrecision,
    /// Outbound transfers are paused.
    OutboundTransfersPaused,
    /// The recipient chain or address is invalid, or does not match.
    InvalidRecipient,
    /// Nothing would be bridged.
    ZeroBridgeAmount,
    /// The amount to swap for native gas vanishes at eight decimals.
    InvalidToNativeAmount,
    /// The relayer fee could not be computed.
    FeeCalculationError,
    /// The amount does not cover the relayer fee and the native swap.
    InsufficientFunds,
    /// Wrapping native gas needs the native mint.
    NativeMintRequired,
    /// The transfer was redeemed already.
    AlreadyRedeemed,
    /// The native swap could not be computed.
    InvalidSwapCalculation,
    /// The relay payload does not decode.
    InvalidPayload,
    /// An amount does not fit in 64 bits at the token's decimals.
    AmountOverflow,
}

} // verus!
