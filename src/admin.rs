//! Setting up the relay and administering its registry: foreign contracts,
//! tokens, relayer fees, precisions and the pause switch.
use crate::error::TokenBridgeRelayerError;
use crate::state::{
    is_native, is_native_mint, is_zero_address, is_zero_key, same_address, Address,
    ForeignContract, InboundBridgeAccounts, OutboundBridgeAccounts, OwnerConfig, RedeemerConfig,
    RegisteredToken, RelayerFee, SenderConfig, HOST_CHAIN_ID, INITIAL_PRECISION,
};
use vstd::prelude::*;

verus! {

/// The three configurations agree on who owns the relay.
pub open spec fn owners_agree(s: SenderConfig, r: RedeemerConfig, o: OwnerConfig) -> bool {
    s.owner == o.owner && r.owner == o.owner
}

/// The configurations of a new deployment, owned by `owner`, with both
/// precisions at their initial value, transfers open and no handover
/// pending.
pub fn initialize(
    owner: Address,
    fee_recipient: Address,
    assistant: Address,
    outbound: OutboundBridgeAccounts,
    inbound: InboundBridgeAccounts,
) -> (r: Result<(SenderConfig, RedeemerConfig, OwnerConfig), TokenBridgeRelayerError>)
    ensures
        (is_zero_key(fee_recipient) || is_zero_key(assistant)) <==> r == Err::<
            (SenderConfig, RedeemerConfig, OwnerConfig),
            _,
        >(TokenBridgeRelayerError::InvalidPublicKey),
        !is_zero_key(fee_recipient) && !is_zero_key(assistant) ==> r is Ok,
        r is Ok ==> r->Ok_0 == (
            SenderConfig {
                owner,
                paused: false,
                relayer_fee_precision: INITIAL_PRECISION,
                swap_rate_precision: INITIAL_PRECISION,
                token_bridge: outbound,
            },
            RedeemerConfig {
                owner,
                fee_recipient,
                relayer_fee_precision: INITIAL_PRECISION,
                swap_rate_precision: INITIAL_PRECISION,
                token_bridge: inbound,
            },
            OwnerConfig { owner, assistant, pending_owner: None },
        ),
        r matches Ok((s, rc, o)) ==> owners_agree(s, rc, o),
{
    if is_zero_address(&fee_recipient) || is_zero_address(&assistant) {
        return Err(TokenBridgeRelayerError::InvalidPublicKey);
    }
    let sender = SenderConfig {
        owner,
        paused: false,
        relayer_fee_precision: INITIAL_PRECISION,
        swap_rate_precision: INITIAL_PRECISION,
        token_bridge: outbound,
    };
    let redeemer = RedeemerConfig {
        owner,
        fee_recipient,
        relayer_fee_precision: INITIAL_PRECISION,
        swap_rate_precision: INITIAL_PRECISION,
        token_bridge: inbound,
    };
    let owners = OwnerConfig { owner, assistant, pending_owner: None };
    Ok((sender, redeemer, owners))
}

/// Records the relay's contract on a foreign chain; owner only. The chain
/// must lie above the host's and the address must not be zero.
pub fn register_foreign_contract(
    owner_config: &OwnerConfig,
    signer: &Address,
    foreign_contract: &mut ForeignContract,
    chain: u16,
    address: Address,
    token_bridge_foreign_endpoint: Address,
) -> (r: Result<(), TokenBridgeRelayerError>)
    ensures
        r == (if *signer != owner_config.owner {
            Err(TokenBridgeRelayerError::OwnerOnly)
        } else if chain <= HOST_CHAIN_ID || is_zero_key(address) {
            Err(TokenBridgeRelayerError::InvalidForeignContract)
        } else {
            Ok(())
        }),
        r is Ok ==> *final(foreign_contract) == (ForeignContract {
            chain,
            address,
            token_bridge_foreign_endpoint,
        }),
        r is Err ==> *final(foreign_contract) == *old(foreign_contract),
{
    if !same_address(signer, &owner_config.owner) {
        return Err(TokenBridgeRelayerError::OwnerOnly);
    }
    if chain <= HOST_CHAIN_ID || is_zero_address(&address) {
        return Err(TokenBridgeRelayerError::InvalidForeignContract);
    }
    *foreign_contract = ForeignContract { chain, address, token_bridge_foreign_endpoint };
    Ok(())
}

/// Registers a token with its swap rate and native-swap maximum; owner
/// only. The native mint must keep a maximum of zero.
pub fn register_token(
    owner_config: &OwnerConfig,
    signer: &Address,
    registered_token: &mut RegisteredToken,
    mint: &Address,
    swap_rate: u64,
    max_native_swap_amount: u64,
) -> (r: Result<(), TokenBridgeRelayerError>)
    requires
        old(registered_token).wf_for(*mint),
    ensures
        final(registered_token).wf_for(*mint),
        r == (if *signer != owner_config.owner {
            Err(TokenBridgeRelayerError::OwnerOnly)
        } else if old(registered_token).is_registered {
            Err(TokenBridgeRelayerError::TokenAlreadyRegistered)
        } else if swap_rate == 0 {
            Err(TokenBridgeRelayerError::ZeroSwapRate)
        } else if is_native_mint(*mint) && max_native_swap_amount != 0 {
            Err(TokenBridgeRelayerError::SwapsNotAllowedForNativeMint)
        } else {
            Ok(())
        }),
        r is Ok ==> *final(registered_token) == (RegisteredToken {
            swap_rate,
            max_native_swap_amount,
            is_registered: true,
        }),
        r is Err ==> *final(registered_token) == *old(registered_token),
{
    if !same_address(signer, &owner_config.owner) {
        return Err(TokenBridgeRelayerError::OwnerOnly);
    }
    if registered_token.is_registered {
        return Err(TokenBridgeRelayerError::TokenAlreadyRegistered);
    }
    if swap_rate == 0 {
        return Err(TokenBridgeRelayerError::ZeroSwapRate);
    }
    if is_native(mint) && max_native_swap_amount != 0 {
        return Err(TokenBridgeRelayerError::SwapsNotAllowedForNativeMint);
    }
    *registered_token = RegisteredToken { swap_rate, max_native_swap_amount, is_registered: true };
    Ok(())
}

/// Deregisters a token, resetting its rate and maximum to zero; owner only.
pub fn deregister_token(
    owner_config: &OwnerConfig,
    signer: &Address,
    registered_token: &mut RegisteredToken,
) -> (r: Result<(), TokenBridgeRelayerError>)
    requires
        old(registered_token).wf(),
    ensures
        final(registered_token).wf(),
        r == (if *signer != owner_config.owner {
            Err(TokenBridgeRelayerError::OwnerOnly)
        } else if !old(registered_token).is_registered {
            Err(TokenBridgeRelayerError::TokenNotRegistered)
        } else {
            Ok(())
        }),
        r is Ok ==> *final(registered_token) == (RegisteredToken {
            swap_rate: 0,
            max_native_swap_amount: 0,
            is_registered: false,
        }),
        r is Err ==> *final(registered_token) == *old(registered_token),
{
    if !same_address(signer, &owner_config.owner) {
        return Err(TokenBridgeRelayerError::OwnerOnly);
    }
    if !registered_token.is_registered {
        return Err(TokenBridgeRelayerError::TokenNotRegistered);
    }
    *registered_token = RegisteredToken::unregistered();
    Ok(())
}

/// Sets the relayer fee for a chain; owner or assistant.
pub fn update_relayer_fee(
    owner_config: &OwnerConfig,
    signer: &Address,
    relayer_fee: &mut RelayerFee,
    chain: u16,
    fee: u64,
) -> (r: Result<(), TokenBridgeRelayerError>)
    ensures
        r == (if !owner_config.spec_is_authorized(*signer) {
            Err(TokenBridgeRelayerError::OwnerOrAssistantOnly)
        } else {
            Ok(())
        }),
        r is Ok ==> *final(relayer_fee) == (RelayerFee { chain, fee }),
        r is Err ==> *final(relayer_fee) == *old(relayer_fee),
{
    if !owner_config.is_authorized(signer) {
        return Err(TokenBridgeRelayerError::OwnerOrAssistantOnly);
    }
    *relayer_fee = RelayerFee { chain, fee };
    Ok(())
}

/// Sets the relayer-fee precision of both the sender and the redeemer
/// configuration; owner only, and never to zero.
pub fn update_relayer_fee_precision(
    owner_config: &OwnerConfig,
    signer: &Address,
    sender_config: &mut SenderConfig,
    redeemer_config: &mut RedeemerConfig,
    relayer_fee_precision: u32,
) -> (r: Result<(), TokenBridgeRelayerError>)
    ensures
        r == (if *signer != owner_config.owner {
            Err(TokenBridgeRelayerError::OwnerOnly)
        } else if relayer_fee_precision == 0 {
            Err(TokenBridgeRelayerError::InvalidPrecision)
        } else {
            Ok(())
        }),
        r is Ok ==> *final(sender_config) == (SenderConfig {
            relayer_fee_precision,
            ..*old(sender_config)
        }) && *final(redeemer_config) == (RedeemerConfig {
            relayer_fee_precision,
            ..*old(redeemer_config)
        }),
        r is Err ==> *final(sender_config) == *old(sender_config) && *final(redeemer_config)
            == *old(redeemer_config),
{
    if !same_address(signer, &owner_config.owner) {
        return Err(TokenBridgeRelayerError::OwnerOnly);
    }
    if relayer_fee_precision == 0 {
        return Err(TokenBridgeRelayerError::InvalidPrecision);
    }
    redeemer_config.relayer_fee_precision = relayer_fee_precision;
    sender_config.relayer_fee_precision = relayer_fee_precision;
    Ok(())
}

/// Sets the swap rate of a registered token; owner or assistant, and never
/// to zero.
pub fn update_swap_rate(
    owner_config: &OwnerConfig,
    signer: &Address,
    registered_token: &mut RegisteredToken,
    mint: &Address,
    swap_rate: u64,
) -> (r: Result<(), TokenBridgeRelayerError>)
    requires
        old(registered_token).wf_for(*mint),
    ensures
        final(registered_token).wf_for(*mint),
        r == (if !owner_config.spec_is_authorized(*signer) {
            Err(TokenBridgeRelayerError::OwnerOrAssistantOnly)
        } else if !old(registered_token).is_registered {
            Err(TokenBridgeRelayerError::TokenNotRegistered)
        } else if swap_rate == 0 {
            Err(TokenBridgeRelayerError::ZeroSwapRate)
        } else {
            Ok(())
        }),
        r is Ok ==> *final(registered_token) == (RegisteredToken {
            swap_rate,
            ..*old(registered_token)
        }),
        r is Err ==> *final(registered_token) == *old(registered_token),
{
    if !owner_config.is_authorized(signer) {
        return Err(TokenBridgeRelayerError::OwnerOrAssistantOnly);
    }
    if !registered_token.is_registered {
        return Err(TokenBridgeRelayerError::TokenNotRegistered);
    }
    if swap_rate == 0 {
        return Err(TokenBridgeRelayerError::ZeroSwapRate);
    }
    registered_token.swap_rate = swap_rate;
    Ok(())
}

/// Sets the swap-rate precision of both the sender and the redeemer
/// configuration; owner only, and never to zero.
pub fn update_swap_rate_precision(
    owner_config: &OwnerConfig,
    signer: &Address,
    sender_config: &mut SenderConfig,
    redeemer_config: &mut RedeemerConfig,
    swap_rate_precision: u32,
) -> (r: Result<(), TokenBridgeRelayerError>)
    ensures
        r == (if *signer != owner_config.owner {
            Err(TokenBridgeRelayerError::OwnerOnly)
        } else if swap_rate_precision == 0 {
            Err(TokenBridgeRelayerError::InvalidPrecision)
        } else {
            Ok(())
        }),
        r is Ok ==> *final(sender_config) == (SenderConfig {
            swap_rate_precision,
            ..*old(sender_config)
        }) && *final(redeemer_config) == (RedeemerConfig {
            swap_rate_precision,
            ..*old(redeemer_config)
        }),
        r is Err ==> *final(sender_config) == *old(sender_config) && *final(redeemer_config)
            == *old(redeemer_config),
{
    if !same_address(signer, &owner_config.owner) {
        return Err(TokenBridgeRelayerError::OwnerOnly);
    }
    if swap_rate_precision == 0 {
        return Err(TokenBridgeRelayerError::InvalidPrecision);
    }
    redeemer_config.swap_rate_precision = swap_rate_precision;
    sender_config.swap_rate_precision = swap_rate_precision;
    Ok(())
}

/// Sets the native-swap maximum of a registered token; owner only. The
/// native mint's maximum stays zero.
pub fn update_max_native_swap_amount(
    owner_config: &OwnerConfig,
    signer: &Address,
    registered_token: &mut RegisteredToken,
    mint: &Address,
    max_native_swap_amount: u64,
) -> (r: Result<(), TokenBridgeRelayerError>)
    requires
        old(registered_token).wf_for(*mint),
    ensures
        final(registered_token).wf_for(*mint),
        r == (if *signer != owner_config.owner {
            Err(TokenBridgeRelayerError::OwnerOnly)
        } else if !old(registered_token).is_registered {
            Err(TokenBridgeRelayerError::TokenNotRegistered)
        } else if is_native_mint(*mint) && max_native_swap_amount != 0 {
            Err(TokenBridgeRelayerError::SwapsNotAllowedForNativeMint)
        } else {
            Ok(())
        }),
        r is Ok ==> *final(registered_token) == (RegisteredToken {
            max_native_swap_amount,
            ..*old(registered_token)
        }),
        r is Err ==> *final(registered_token) == *old(registered_token),
{
    if !same_address(signer, &owner_config.owner) {
        return Err(TokenBridgeRelayerError::OwnerOnly);
    }
    if !registered_token.is_registered {
        return Err(TokenBridgeRelayerError::TokenNotRegistered);
    }
    if is_native(mint) && max_native_swap_amount != 0 {
        return Err(TokenBridgeRelayerError::SwapsNotAllowedForNativeMint);
    }
    registered_token.max_native_swap_amount = max_native_swap_amount;
    Ok(())
}

/// Opens or closes outbound transfers; owner only. Redemptions are never
/// paused.
pub fn set_pause_for_transfers(
    owner_config: &OwnerConfig,
    signer: &Address,
    sender_config: &mut SenderConfig,
    paused: bool,
) -> (r: Result<(), TokenBridgeRelayerError>)
    ensures
        r == (if *signer != owner_config.owner {
            Err(TokenBridgeRelayerError::OwnerOnly)
        } else {
            Ok(())
        }),
        r is Ok ==> *final(sender_config) == (SenderConfig { paused, ..*old(sender_config) }),
        r is Err ==> *final(sender_config) == *old(sender_config),
{
    if !same_address(signer, &owner_config.owner) {
        return Err(TokenBridgeRelayerError::OwnerOnly);
    }
    sender_config.paused = paused;
    Ok(())
}

} // verus!
