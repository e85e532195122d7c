//! Inbound redemptions: replay protection, the checks against the payload,
//! and how the released principal is shared out between recipient, fee
//! recipient and relayer.
use crate::amount::{denormalize_amount, denormalized};
use crate::error::TokenBridgeRelayerError;
use crate::fees::native_swap_value;
use crate::message::{be8_value, is_valid_encoding, TokenBridgeRelayerMessage};
use crate::state::{is_native, is_native_mint, same_address, Address, RedeemerConfig, RegisteredToken};
use vstd::prelude::*;

verus! {

/// The bridge's one-time record of a redeemed message.
#[derive(Clone, Copy, Debug, PartialEq, Eq)]
pub struct TransferClaim {
    pub redeemed: bool,
}

/// What the host does for an accepted redemption. The bridge first releases
/// `amount` into custody and records the claim; custody is closed to the
/// payer at the end.
#[derive(Clone, Copy, Debug, PartialEq, Eq)]
pub struct Redemption {
    /// The principal at the token's decimals.
    pub amount: u64,
    /// The relayer fee charged, at the token's decimals; zero for a
    /// self-redemption.
    pub relayer_fee: u64,
    /// Unwrap the whole custody balance to the payer as native gas.
    pub unwrap_to_payer: bool,
    /// Native gas that the payer hands to the recipient.
    pub native_to_recipient: u64,
    /// Tokens from custody to the fee recipient.
    pub to_fee_recipient: u64,
    /// Tokens from custody to the recipient.
    pub to_recipient: u64,
    pub fee_recipient: Address,
}

/// The relayer fee that valid payload bytes carry.
pub open spec fn payload_fee(s: Seq<u8>) -> u64 {
    be8_value(s.subrange(25, 33))
}

/// The native-swap request that valid payload bytes carry.
pub open spec fn payload_to_native(s: Seq<u8>) -> u64 {
    be8_value(s.subrange(57, 65))
}

/// The recipient that valid payload bytes name.
pub open spec fn payload_recipient(s: Seq<u8>) -> Seq<u8> {
    s.subrange(65, 97)
}

/// A redemption paying out to the configured fee recipient.
pub open spec fn plan(
    config: RedeemerConfig,
    amount: u64,
    relayer_fee: u64,
    unwrap_to_payer: bool,
    native_to_recipient: u64,
    to_fee_recipient: u64,
    to_recipient: u64,
) -> Redemption {
    Redemption {
        amount,
        relayer_fee,
        unwrap_to_payer,
        native_to_recipient,
        to_fee_recipient,
        to_recipient,
        fee_recipient: config.fee_recipient,
    }
}

/// The outcome of a redemption, with `unwrap_native` telling whether the
/// token is the wrapped native gas asset.
///
/// Refused, in this order: a message already redeemed; a token not
/// registered; a payload that does not decode; a recipient other than the
/// payload's; a principal that overflows at the token's decimals. Then:
/// - a self-redemption charges no fee and no swap: native gas is unwrapped
///   to the recipient, any other token goes to them whole;
/// - otherwise a fee that overflows is refused; native gas is unwrapped to
///   the payer, who hands the recipient the principal less the fee;
/// - otherwise the native swap is computed; the payer pays its native
///   output, the fee recipient gets the consumed tokens and the fee, and
///   the recipient the rest.
pub open spec fn redemption_result(
    claim: TransferClaim,
    config: RedeemerConfig,
    registered_token: RegisteredToken,
    native_swap_rate: u64,
    unwrap_native: bool,
    decimals: u8,
    amount: u64,
    payload: Seq<u8>,
    payer: Address,
    recipient: Address,
) -> Result<Redemption, TokenBridgeRelayerError> {
    let fee = denormalized(payload_fee(payload), decimals);
    let principal = denormalized(amount, decimals);
    let to_native = denormalized(payload_to_native(payload), decimals);
    if claim.redeemed {
        Err(TokenBridgeRelayerError::AlreadyRedeemed)
    } else if !registered_token.is_registered {
        Err(TokenBridgeRelayerError::TokenNotRegistered)
    } else if !is_valid_encoding(payload) {
        Err(TokenBridgeRelayerError::InvalidPayload)
    } else if recipient@ != payload_recipient(payload) {
        Err(TokenBridgeRelayerError::InvalidRecipient)
    } else if principal > u64::MAX {
        Err(TokenBridgeRelayerError::AmountOverflow)
    } else if payer == recipient {
        if unwrap_native {
            Ok(plan(config, principal as u64, 0, true, 0, 0, 0))
        } else {
            Ok(plan(config, principal as u64, 0, false, 0, 0, principal as u64))
        }
    } else if fee > u64::MAX {
        Err(TokenBridgeRelayerError::AmountOverflow)
    } else if unwrap_native {
        if fee > principal {
            Err(TokenBridgeRelayerError::InsufficientFunds)
        } else {
            Ok(plan(config, principal as u64, fee as u64, true, (principal - fee) as u64, 0, 0))
        }
    } else if to_native > u64::MAX {
        Err(TokenBridgeRelayerError::AmountOverflow)
    } else {
        match native_swap_value(
            registered_token,
            decimals,
            native_swap_rate,
            config.swap_rate_precision,
            to_native as u64,
        ) {
            None => Err(TokenBridgeRelayerError::InvalidSwapCalculation),
            Some((token_in, native_out)) => {
                if token_in + fee > principal {
                    Err(TokenBridgeRelayerError::InsufficientFunds)
                } else {
                    Ok(
                        plan(
                            config,
                            principal as u64,
                            fee as u64,
                            false,
                            native_out,
                            (token_in + fee) as u64,
                            (principal - token_in - fee) as u64,
                        ),
                    )
                }
            },
        }
    }
}

/// A message is redeemed at most once: a successful redemption leaves its
/// claim recorded, and any attempt on a recorded claim, with whatever
/// accounts and payload, fails as already redeemed and moves nothing.
pub proof fn lemma_redeemed_claim_refuses(
    claim: TransferClaim,
    config: RedeemerConfig,
    registered_token: RegisteredToken,
    native_swap_rate: u64,
    unwrap_native: bool,
    decimals: u8,
    amount: u64,
    payload: Seq<u8>,
    payer: Address,
    recipient: Address,
)
    requires
        claim.redeemed,
    ensures
        redemption_result(
            claim,
            config,
            registered_token,
            native_swap_rate,
            unwrap_native,
            decimals,
            amount,
            payload,
            payer,
            recipient,
        ) == Err::<Redemption, _>(TokenBridgeRelayerError::AlreadyRedeemed),
{
}

/// A self-redemption that passes the checks on the claim, the token, the
/// payload and the recipient always succeeds, and hands the recipient the
/// whole principal: no fee, no swap. Native gas is unwrapped to the
/// recipient; any other token is transferred to them.
pub proof fn lemma_self_redemption_pays_in_full(
    claim: TransferClaim,
    config: RedeemerConfig,
    registered_token: RegisteredToken,
    native_swap_rate: u64,
    unwrap_native: bool,
    decimals: u8,
    amount: u64,
    payload: Seq<u8>,
    account: Address,
)
    requires
        !claim.redeemed,
        registered_token.is_registered,
        is_valid_encoding(payload),
        account@ == payload_recipient(payload),
        denormalized(amount, decimals) <= u64::MAX,
    ensures
        redemption_result(
            claim,
            config,
            registered_token,
            native_swap_rate,
            unwrap_native,
            decimals,
            amount,
            payload,
            account,
            account,
        ) matches Ok(p) && p.amount == denormalized(amount, decimals) && p.relayer_fee == 0
            && p.to_fee_recipient == 0 && p.native_to_recipient == 0 && p.unwrap_to_payer
            == unwrap_native && (!unwrap_native ==> p.to_recipient == p.amount),
{
}

fn redeem(
    config: &RedeemerConfig,
    claim: &mut TransferClaim,
    registered_token: &RegisteredToken,
    native_swap_rate: u64,
    unwrap_native: bool,
    decimals: u8,
    amount: u64,
    payload: &[u8],
    payer: &Address,
    recipient: &Address,
) -> (r: Result<Redemption, TokenBridgeRelayerError>)
    ensures
        r == redemption_result(
            *old(claim),
            *config,
            *registered_token,
            native_swap_rate,
            unwrap_native,
            decimals,
            amount,
            payload@,
            *payer,
            *recipient,
        ),
        r is Ok ==> final(claim).redeemed,
        r is Err ==> *final(claim) == *old(claim),
{
    if claim.redeemed {
        return Err(TokenBridgeRelayerError::AlreadyRedeemed);
    }
    if !registered_token.is_registered {
        return Err(TokenBridgeRelayerError::TokenNotRegistered);
    }
    let message = match TokenBridgeRelayerMessage::decode(payload) {
        Some(m) => m,
        None => {
            return Err(TokenBridgeRelayerError::InvalidPayload);
        },
    };
    let TokenBridgeRelayerMessage::TransferWithRelay {
        target_relayer_fee,
        to_native_token_amount,
        recipient: intended,
    } = message;
    if !same_address(recipient, &intended) {
        proof {
            if recipient@ == payload_recipient(payload@) {
                assert(*recipient =~= intended);
            }
        }
        return Err(TokenBridgeRelayerError::InvalidRecipient);
    }
    let principal = match denormalize_amount(amount, decimals) {
        Some(v) => v,
        None => {
            return Err(TokenBridgeRelayerError::AmountOverflow);
        },
    };
    if same_address(payer, recipient) {
        claim.redeemed = true;
        return Ok(
            Redemption {
                amount: principal,
                relayer_fee: 0,
                unwrap_to_payer: unwrap_native,
                native_to_recipient: 0,
                to_fee_recipient: 0,
                to_recipient: if unwrap_native {
                    0
                } else {
                    principal
                },
                fee_recipient: config.fee_recipient,
            },
        );
    }
    let fee = match denormalize_amount(target_relayer_fee, decimals) {
        Some(v) => v,
        None => {
            return Err(TokenBridgeRelayerError::AmountOverflow);
        },
    };
    let result = if unwrap_native {
        if fee > principal {
            return Err(TokenBridgeRelayerError::InsufficientFunds);
        }
        Redemption {
            amount: principal,
            relayer_fee: fee,
            unwrap_to_payer: true,
            native_to_recipient: principal - fee,
            to_fee_recipient: 0,
            to_recipient: 0,
            fee_recipient: config.fee_recipient,
        }
    } else {
        let to_native = match denormalize_amount(to_native_token_amount, decimals) {
            Some(v) => v,
            None => {
                return Err(TokenBridgeRelayerError::AmountOverflow);
            },
        };
        let (token_in, native_out) = match registered_token.calculate_native_swap_amounts(
            decimals,
            native_swap_rate,
            config.swap_rate_precision,
            to_native,
        ) {
            Some(split) => split,
            None => {
                return Err(TokenBridgeRelayerError::InvalidSwapCalculation);
            },
        };
        if token_in as u128 + fee as u128 > principal as u128 {
            return Err(TokenBridgeRelayerError::InsufficientFunds);
        }
        let for_fee_recipient: u64 = token_in + fee;
        Redemption {
            amount: principal,
            relayer_fee: fee,
            unwrap_to_payer: false,
            native_to_recipient: native_out,
            to_fee_recipient: for_fee_recipient,
            to_recipient: principal - for_fee_recipient,
            fee_recipient: config.fee_recipient,
        }
    };
    claim.redeemed = true;
    Ok(result)
}

/// Redeems a transfer of a token that lives on this chain. Where that token
/// is the wrapped native gas asset, it is unwrapped and paid out as gas.
pub fn redeem_native_transfer_with_payload(
    config: &RedeemerConfig,
    claim: &mut TransferClaim,
    registered_token: &RegisteredToken,
    native_registered_token: &RegisteredToken,
    mint: &Address,
    decimals: u8,
    amount: u64,
    payload: &[u8],
    payer: &Address,
    recipient: &Address,
) -> (r: Result<Redemption, TokenBridgeRelayerError>)
    ensures
        r == redemption_result(
            *old(claim),
            *config,
            *registered_token,
            native_registered_token.swap_rate,
            is_native_mint(*mint),
            decimals,
            amount,
            payload@,
            *payer,
            *recipient,
        ),
        r is Ok ==> final(claim).redeemed,
        r is Err ==> *final(claim) == *old(claim),
        r matches Ok(p) ==> *payer == *recipient ==> p.relayer_fee == 0 && p.to_fee_recipient
            == 0 && p.native_to_recipient == 0 && (!is_native_mint(*mint) ==> p.to_recipient
            == p.amount),
{
    let unwrap_native = is_native(mint);
    redeem(
        config,
        claim,
        registered_token,
        native_registered_token.swap_rate,
        unwrap_native,
        decimals,
        amount,
        payload,
        payer,
        recipient,
    )
}

/// Redeems a transfer of a token that the bridge wraps on this chain.
pub fn redeem_wrapped_transfer_with_payload(
    config: &RedeemerConfig,
    claim: &mut TransferClaim,
    registered_token: &RegisteredToken,
    native_registered_token: &RegisteredToken,
    decimals: u8,
    amount: u64,
    payload: &[u8],
    payer: &Address,
    recipient: &Address,
) -> (r: Result<Redemption, TokenBridgeRelayerError>)
    ensures
        r == redemption_result(
            *old(claim),
            *config,
            *registered_token,
            native_registered_token.swap_rate,
            false,
            decimals,
            amount,
            payload@,
            *payer,
            *recipient,
        ),
        r is Ok ==> final(claim).redeemed,
        r is Err ==> *final(claim) == *old(claim),
        r matches Ok(p) ==> *payer == *recipient ==> p.to_recipient == p.amount
            && p.relayer_fee == 0 && p.to_fee_recipient == 0 && p.native_to_recipient == 0,
{
    redeem(
        config,
        claim,
        registered_token,
        native_registered_token.swap_rate,
        false,
        decimals,
        amount,
        payload,
        payer,
        recipient,
    )
}

} // verus!
