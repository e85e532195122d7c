//! The two-step handover of ownership: the owner names a successor, who
//! then confirms; or the owner withdraws the offer.
use crate::error::TokenBridgeRelayerError;
use crate::state::{is_zero_address, is_zero_key, same_address, Address, OwnerConfig, RedeemerConfig, SenderConfig};
use vstd::prelude::*;

verus! {

/// The owner configuration after `submit_ownership_transfer_request`.
pub open spec fn submit_result(o: OwnerConfig, signer: Address, new_owner: Address) -> Result<
    OwnerConfig,
    TokenBridgeRelayerError,
> {
    if signer != o.owner {
        Err(TokenBridgeRelayerError::OwnerOnly)
    } else if is_zero_key(new_owner) {
        Err(TokenBridgeRelayerError::InvalidPublicKey)
    } else if new_owner == o.owner {
        Err(TokenBridgeRelayerError::AlreadyTheOwner)
    } else {
        Ok(OwnerConfig { pending_owner: Some(new_owner), ..o })
    }
}

/// The three configurations after `confirm_ownership_transfer_request`.
pub open spec fn confirm_result(
    s: SenderConfig,
    r: RedeemerConfig,
    o: OwnerConfig,
    signer: Address,
) -> Result<(SenderConfig, RedeemerConfig, OwnerConfig), TokenBridgeRelayerError> {
    if !o.spec_is_pending_owner(signer) {
        Err(TokenBridgeRelayerError::NotPendingOwner)
    } else {
        Ok(
            (
                SenderConfig { owner: signer, ..s },
                RedeemerConfig { owner: signer, ..r },
                OwnerConfig { owner: signer, pending_owner: None, ..o },
            ),
        )
    }
}

/// The owner configuration after `cancel_ownership_transfer_request`.
pub open spec fn cancel_result(o: OwnerConfig, signer: Address) -> Result<
    OwnerConfig,
    TokenBridgeRelayerError,
> {
    if signer != o.owner {
        Err(TokenBridgeRelayerError::OwnerOnly)
    } else {
        Ok(OwnerConfig { pending_owner: None, ..o })
    }
}

/// Offers ownership to `new_owner`; owner only.
pub fn submit_ownership_transfer_request(
    owner_config: &mut OwnerConfig,
    signer: &Address,
    new_owner: Address,
) -> (r: Result<(), TokenBridgeRelayerError>)
    ensures
        match submit_result(*old(owner_config), *signer, new_owner) {
            Ok(o) => r is Ok && *final(owner_config) == o,
            Err(e) => r == Err::<(), _>(e) && *final(owner_config) == *old(owner_config),
        },
{
    if !same_address(signer, &owner_config.owner) {
        return Err(TokenBridgeRelayerError::OwnerOnly);
    }
    if is_zero_address(&new_owner) {
        return Err(TokenBridgeRelayerError::InvalidPublicKey);
    }
    if same_address(&new_owner, &owner_config.owner) {
        return Err(TokenBridgeRelayerError::AlreadyTheOwner);
    }
    owner_config.pending_owner = Some(new_owner);
    Ok(())
}

/// The owner-to-be takes over: the owner of all three configurations
/// becomes the signer and the offer is cleared.
pub fn confirm_ownership_transfer_request(
    sender_config: &mut SenderConfig,
    redeemer_config: &mut RedeemerConfig,
    owner_config: &mut OwnerConfig,
    signer: &Address,
) -> (r: Result<(), TokenBridgeRelayerError>)
    ensures
        match confirm_result(*old(sender_config), *old(redeemer_config), *old(owner_config), *signer) {
            Ok((s, rc, o)) => r is Ok && *final(sender_config) == s && *final(redeemer_config) == rc
                && *final(owner_config) == o,
            Err(e) => r == Err::<(), _>(e) && *final(sender_config) == *old(sender_config)
                && *final(redeemer_config) == *old(redeemer_config) && *final(owner_config)
                == *old(owner_config),
        },
{
    if !owner_config.is_pending_owner(signer) {
        return Err(TokenBridgeRelayerError::NotPendingOwner);
    }
    let new_owner: Address = *signer;
    sender_config.owner = new_owner;
    redeemer_config.owner = new_owner;
    owner_config.owner = new_owner;
    owner_config.pending_owner = None;
    Ok(())
}

/// Withdraws a pending offer; owner only.
pub fn cancel_ownership_transfer_request(owner_config: &mut OwnerConfig, signer: &Address) -> (r:
    Result<(), TokenBridgeRelayerError>)
    ensures
        match cancel_result(*old(owner_config), *signer) {
            Ok(o) => r is Ok && *final(owner_config) == o,
            Err(e) => r == Err::<(), _>(e) && *final(owner_config) == *old(owner_config),
        },
{
    if !same_address(signer, &owner_config.owner) {
        return Err(TokenBridgeRelayerError::OwnerOnly);
    }
    owner_config.pending_owner = None;
    Ok(())
}

/// An offer that the owner makes and the named successor confirms hands
/// all three configurations to exactly that successor and leaves no offer
/// pending.
pub proof fn lemma_submit_then_confirm(
    s: SenderConfig,
    r: RedeemerConfig,
    o: OwnerConfig,
    new_owner: Address,
)
    requires
        !is_zero_key(new_owner),
        new_owner != o.owner,
    ensures
        submit_result(o, o.owner, new_owner) is Ok,
        confirm_result(s, r, submit_result(o, o.owner, new_owner)->Ok_0, new_owner) matches Ok(
            (s2, r2, o2),
        ) ==> s2.owner == new_owner && r2.owner == new_owner && o2.owner == new_owner
            && o2.pending_owner is None,
        confirm_result(s, r, submit_result(o, o.owner, new_owner)->Ok_0, new_owner) is Ok,
{
}

/// An offer that the owner makes and then withdraws leaves the owner as it
/// was and no offer pending.
pub proof fn lemma_submit_then_cancel(o: OwnerConfig, new_owner: Address)
    requires
        !is_zero_key(new_owner),
        new_owner != o.owner,
    ensures
        submit_result(o, o.owner, new_owner) is Ok,
        cancel_result(submit_result(o, o.owner, new_owner)->Ok_0, o.owner) matches Ok(o2)
            ==> o2.owner == o.owner && o2.pending_owner is None,
        cancel_result(submit_result(o, o.owner, new_owner)->Ok_0, o.owner) is Ok,
{
}

} // verus!
