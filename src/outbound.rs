//! Outbound transfers: the checks that a send must pass and the transfer
//! that the host then carries out (stage the principal in custody, wrap it
//! where asked, delegate it to the bridge, bridge it with the payload, close
//! custody).
use crate::amount::{normalize_amount, normalized, truncate_amount, truncated};
use crate::error::TokenBridgeRelayerError;
use crate::fees::token_fee_value;
use crate::message::{encoded, TokenBridgeRelayerMessage};
use crate::state::{
    is_native, is_native_mint, is_zero_address, is_zero_key, Address, ForeignContract,
    RegisteredToken, RelayerFee, SenderConfig, HOST_CHAIN_ID,
};
use vstd::prelude::*;

verus! {

/// What the host does for an accepted send.
#[derive(Clone, Debug, PartialEq, Eq)]
pub struct OutboundTransfer {
    /// Take native gas from the payer and wrap it, instead of taking the
    /// payer's tokens.
    pub wrap_native: bool,
    /// Amount staged in custody, delegated to the bridge and bridged.
    pub amount: u64,
    pub recipient_chain: u16,
    /// The relay's contract on the recipient chain, which receives the
    /// transfer.
    pub target_contract: Address,
    pub batch_id: u32,
    pub message: TokenBridgeRelayerMessage,
    /// `message` encoded.
    pub payload: Vec<u8>,
}

/// The bridged amount and payload of a send of a token that lives on this
/// chain, or the first check that refuses it.
pub open spec fn native_send_result(
    config: SenderConfig,
    registered_token: RegisteredToken,
    relayer_fee: RelayerFee,
    mint: Address,
    decimals: u8,
    amount: u64,
    to_native_token_amount: u64,
    recipient_chain: u16,
    recipient_address: Address,
    wrap_native: bool,
) -> Result<(u64, TokenBridgeRelayerMessage), TokenBridgeRelayerError> {
    if config.paused {
        Err(TokenBridgeRelayerError::OutboundTransfersPaused)
    } else if !registered_token.is_registered {
        Err(TokenBridgeRelayerError::TokenNotRegistered)
    } else if recipient_chain <= HOST_CHAIN_ID || is_zero_key(recipient_address) {
        Err(TokenBridgeRelayerError::InvalidRecipient)
    } else if truncated(amount, decimals) == 0 {
        Err(TokenBridgeRelayerError::ZeroBridgeAmount)
    } else if to_native_token_amount != 0 && normalized(to_native_token_amount, decimals) == 0 {
        Err(TokenBridgeRelayerError::InvalidToNativeAmount)
    } else {
        match token_fee_value(
            relayer_fee.fee,
            decimals,
            registered_token.swap_rate,
            config.swap_rate_precision,
            config.relayer_fee_precision,
        ) {
            None => Err(TokenBridgeRelayerError::FeeCalculationError),
            Some(fee) => {
                if normalized(amount, decimals) <= normalized(to_native_token_amount, decimals)
                    + normalized(fee, decimals) {
                    Err(TokenBridgeRelayerError::InsufficientFunds)
                } else if wrap_native && !is_native_mint(mint) {
                    Err(TokenBridgeRelayerError::NativeMintRequired)
                } else {
                    Ok(
                        (
                            truncated(amount, decimals) as u64,
                            TokenBridgeRelayerMessage::TransferWithRelay {
                                target_relayer_fee: normalized(fee, decimals) as u64,
                                to_native_token_amount: normalized(
                                    to_native_token_amount,
                                    decimals,
                                ) as u64,
                                recipient: recipient_address,
                            },
                        ),
                    )
                }
            },
        }
    }
}

/// The bridged amount and payload of a send of a token that the bridge
/// wrapped on this chain (at most eight decimals, so nothing to
/// normalize), or the first check that refuses it.
pub open spec fn wrapped_send_result(
    config: SenderConfig,
    registered_token: RegisteredToken,
    relayer_fee: RelayerFee,
    decimals: u8,
    amount: u64,
    to_native_token_amount: u64,
    recipient_chain: u16,
    recipient_address: Address,
) -> Result<(u64, TokenBridgeRelayerMessage), TokenBridgeRelayerError> {
    if config.paused {
        Err(TokenBridgeRelayerError::OutboundTransfersPaused)
    } else if amount == 0 {
        Err(TokenBridgeRelayerError::ZeroBridgeAmount)
    } else if !registered_token.is_registered {
        Err(TokenBridgeRelayerError::TokenNotRegistered)
    } else if recipient_chain <= HOST_CHAIN_ID || is_zero_key(recipient_address) {
        Err(TokenBridgeRelayerError::InvalidRecipient)
    } else {
        match token_fee_value(
            relayer_fee.fee,
            decimals,
            registered_token.swap_rate,
            config.swap_rate_precision,
            config.relayer_fee_precision,
        ) {
            None => Err(TokenBridgeRelayerError::FeeCalculationError),
            Some(fee) => {
                if amount <= to_native_token_amount + fee {
                    Err(TokenBridgeRelayerError::InsufficientFunds)
                } else {
                    Ok(
                        (
                            amount,
                            TokenBridgeRelayerMessage::TransferWithRelay {
                                target_relayer_fee: fee,
                                to_native_token_amount,
                                recipient: recipient_address,
                            },
                        ),
                    )
                }
            },
        }
    }
}

/// Checks a send of a token that lives on this chain and plans it. The
/// amount bridged is the request truncated to eight decimals; the payload
/// carries the relayer fee and the native-swap request at eight decimals,
/// and the two together stay strictly below the normalized amount.
pub fn send_native_tokens_with_payload(
    config: &SenderConfig,
    registered_token: &RegisteredToken,
    relayer_fee: &RelayerFee,
    foreign_contract: &ForeignContract,
    mint: &Address,
    decimals: u8,
    amount: u64,
    to_native_token_amount: u64,
    recipient_chain: u16,
    recipient_address: Address,
    batch_id: u32,
    wrap_native: bool,
) -> (r: Result<OutboundTransfer, TokenBridgeRelayerError>)
    ensures
        match native_send_result(
            *config,
            *registered_token,
            *relayer_fee,
            *mint,
            decimals,
            amount,
            to_native_token_amount,
            recipient_chain,
            recipient_address,
            wrap_native,
        ) {
            Ok((bridged, message)) => r matches Ok(t) && t.amount == bridged && t.message == message
                && t.payload@ == encoded(message) && t.wrap_native == wrap_native
                && t.recipient_chain == recipient_chain && t.target_contract
                == foreign_contract.address && t.batch_id == batch_id,
            Err(e) => r == Err::<OutboundTransfer, _>(e),
        },
        r matches Ok(t) ==> t.message matches TokenBridgeRelayerMessage::TransferWithRelay {
            target_relayer_fee,
            to_native_token_amount: n,
            ..
        } && normalized(amount, decimals) > n + target_relayer_fee,
{
    if config.paused {
        return Err(TokenBridgeRelayerError::OutboundTransfersPaused);
    }
    if !registered_token.is_registered {
        return Err(TokenBridgeRelayerError::TokenNotRegistered);
    }
    if recipient_chain <= HOST_CHAIN_ID || is_zero_address(&recipient_address) {
        return Err(TokenBridgeRelayerError::InvalidRecipient);
    }
    let truncated_amount = truncate_amount(amount, decimals);
    if truncated_amount == 0 {
        return Err(TokenBridgeRelayerError::ZeroBridgeAmount);
    }
    let normalized_to_native_amount = normalize_amount(to_native_token_amount, decimals);
    if to_native_token_amount != 0 && normalized_to_native_amount == 0 {
        return Err(TokenBridgeRelayerError::InvalidToNativeAmount);
    }
    let token_fee = match relayer_fee.checked_token_fee(
        decimals,
        registered_token.swap_rate,
        config.swap_rate_precision,
        config.relayer_fee_precision,
    ) {
        Some(f) => f,
        None => {
            return Err(TokenBridgeRelayerError::FeeCalculationError);
        },
    };
    let normalized_relayer_fee = normalize_amount(token_fee, decimals);
    let normalized_amount = normalize_amount(amount, decimals);
    if normalized_amount as u128 <= normalized_to_native_amount as u128
        + normalized_relayer_fee as u128 {
        return Err(TokenBridgeRelayerError::InsufficientFunds);
    }
    if wrap_native && !is_native(mint) {
        return Err(TokenBridgeRelayerError::NativeMintRequired);
    }
    let message = TokenBridgeRelayerMessage::TransferWithRelay {
        target_relayer_fee: normalized_relayer_fee,
        to_native_token_amount: normalized_to_native_amount,
        recipient: recipient_address,
    };
    let payload = message.encode();
    Ok(
        OutboundTransfer {
            wrap_native,
            amount: truncated_amount,
            recipient_chain,
            target_contract: foreign_contract.address,
            batch_id,
            message,
            payload,
        },
    )
}

/// Checks a send of a bridge-wrapped token and plans it. The whole amount
/// is bridged; the relayer fee and the native-swap request together stay
/// strictly below it.
pub fn send_wrapped_tokens_with_payload(
    config: &SenderConfig,
    registered_token: &RegisteredToken,
    relayer_fee: &RelayerFee,
    foreign_contract: &ForeignContract,
    decimals: u8,
    amount: u64,
    to_native_token_amount: u64,
    recipient_chain: u16,
    recipient_address: Address,
    batch_id: u32,
) -> (r: Result<OutboundTransfer, TokenBridgeRelayerError>)
    ensures
        match wrapped_send_result(
            *config,
            *registered_token,
            *relayer_fee,
            decimals,
            amount,
            to_native_token_amount,
            recipient_chain,
            recipient_address,
        ) {
            Ok((bridged, message)) => r matches Ok(t) && t.amount == bridged && t.message == message
                && t.payload@ == encoded(message) && !t.wrap_native && t.recipient_chain
                == recipient_chain && t.target_contract == foreign_contract.address && t.batch_id
                == batch_id,
            Err(e) => r == Err::<OutboundTransfer, _>(e),
        },
        r matches Ok(t) ==> t.message matches TokenBridgeRelayerMessage::TransferWithRelay {
            target_relayer_fee,
            to_native_token_amount: n,
            ..
        } && amount > n + target_relayer_fee,
{
    if config.paused {
        return Err(TokenBridgeRelayerError::OutboundTransfersPaused);
    }
    if amount == 0 {
        return Err(TokenBridgeRelayerError::ZeroBridgeAmount);
    }
    if !registered_token.is_registered {
        return Err(TokenBridgeRelayerError::TokenNotRegistered);
    }
    if recipient_chain <= HOST_CHAIN_ID || is_zero_address(&recipient_address) {
        return Err(TokenBridgeRelayerError::InvalidRecipient);
    }
    let token_fee = match relayer_fee.checked_token_fee(
        decimals,
        registered_token.swap_rate,
        config.swap_rate_precision,
        config.relayer_fee_precision,
    ) {
        Some(f) => f,
        None => {
            return Err(TokenBridgeRelayerError::FeeCalculationError);
        },
    };
    if amount as u128 <= to_native_token_amount as u128 + token_fee as u128 {
        return Err(TokenBridgeRelayerError::InsufficientFunds);
    }
    let message = TokenBridgeRelayerMessage::TransferWithRelay {
        target_relayer_fee: token_fee,
        to_native_token_amount,
        recipient: recipient_address,
    };
    let payload = message.encode();
    Ok(
        OutboundTransfer {
            wrap_native: false,
            amount,
            recipient_chain,
            target_contract: foreign_contract.address,
            batch_id,
            message,
            payload,
        },
    )
}

} // verus!
