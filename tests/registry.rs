use token_bridge_relayer::admin::{
    deregister_token, initialize, register_foreign_contract, register_token,
    set_pause_for_transfers, update_max_native_swap_amount, update_relayer_fee,
    update_relayer_fee_precision, update_swap_rate, update_swap_rate_precision,
};
use token_bridge_relayer::error::TokenBridgeRelayerError;
use token_bridge_relayer::ownership::{
    cancel_ownership_transfer_request, confirm_ownership_transfer_request,
    submit_ownership_transfer_request,
};
use token_bridge_relayer::state::{
    Address, ForeignContract, InboundBridgeAccounts, OutboundBridgeAccounts, OwnerConfig,
    RedeemerConfig, RegisteredToken, RelayerFee, SenderConfig, INITIAL_PRECISION, NATIVE_MINT,
};

const OWNER: Address = [1; 32];
const ASSISTANT: Address = [2; 32];
const FEE_RECIPIENT: Address = [3; 32];
const STRANGER: Address = [4; 32];
const NEW_OWNER: Address = [5; 32];
const MINT: Address = [9; 32];

fn outbound() -> OutboundBridgeAccounts {
    OutboundBridgeAccounts {
        config: [10; 32],
        authority_signer: [11; 32],
        custody_signer: [12; 32],
        emitter: [13; 32],
        sequence: [14; 32],
        wormhole_bridge: [15; 32],
        wormhole_fee_collector: [16; 32],
    }
}

fn inbound() -> InboundBridgeAccounts {
    InboundBridgeAccounts { config: [20; 32], custody_signer: [21; 32], mint_authority: [22; 32] }
}

fn deployed() -> (SenderConfig, RedeemerConfig, OwnerConfig) {
    initialize(OWNER, FEE_RECIPIENT, ASSISTANT, outbound(), inbound()).unwrap()
}

fn empty_contract() -> ForeignContract {
    ForeignContract { chain: 0, address: [0; 32], token_bridge_foreign_endpoint: [0; 32] }
}

#[test]
fn initialize_sets_owner_precisions_and_fee_recipient() {
    let (s, r, o) = deployed();
    assert_eq!(s.owner, OWNER);
    assert_eq!(r.owner, OWNER);
    assert_eq!(o.owner, OWNER);
    assert_eq!(o.assistant, ASSISTANT);
    assert_eq!(o.pending_owner, None);
    assert_eq!(r.fee_recipient, FEE_RECIPIENT);
    assert!(!s.paused);
    assert_eq!(s.relayer_fee_precision, 100_000_000);
    assert_eq!(s.swap_rate_precision, INITIAL_PRECISION);
    assert_eq!(r.relayer_fee_precision, INITIAL_PRECISION);
    assert_eq!(r.swap_rate_precision, INITIAL_PRECISION);
    assert_eq!(s.token_bridge, outbound());
    assert_eq!(r.token_bridge, inbound());
}

#[test]
fn initialize_rejects_zero_identities() {
    assert_eq!(
        initialize(OWNER, [0; 32], ASSISTANT, outbound(), inbound()),
        Err(TokenBridgeRelayerError::InvalidPublicKey)
    );
    assert_eq!(
        initialize(OWNER, FEE_RECIPIENT, [0; 32], outbound(), inbound()),
        Err(TokenBridgeRelayerError::InvalidPublicKey)
    );
}

#[test]
fn foreign_contract_on_host_chain_is_refused() {
    let (_, _, o) = deployed();
    let mut c = empty_contract();
    let address: Address = [7; 32];
    assert_eq!(
        register_foreign_contract(&o, &OWNER, &mut c, 1, address, [8; 32]),
        Err(TokenBridgeRelayerError::InvalidForeignContract)
    );
    assert_eq!(c, empty_contract());
    assert_eq!(
        register_foreign_contract(&o, &OWNER, &mut c, 0, address, [8; 32]),
        Err(TokenBridgeRelayerError::InvalidForeignContract)
    );
    assert_eq!(register_foreign_contract(&o, &OWNER, &mut c, 2, address, [8; 32]), Ok(()));
    assert_eq!(
        c,
        ForeignContract { chain: 2, address, token_bridge_foreign_endpoint: [8; 32] }
    );
}

#[test]
fn foreign_contract_with_zero_address_is_refused() {
    let (_, _, o) = deployed();
    let mut c = empty_contract();
    assert_eq!(
        register_foreign_contract(&o, &OWNER, &mut c, 2, [0; 32], [8; 32]),
        Err(TokenBridgeRelayerError::InvalidForeignContract)
    );
    let mut one_byte: Address = [0; 32];
    one_byte[31] = 1;
    assert_eq!(register_foreign_contract(&o, &OWNER, &mut c, 2, one_byte, [8; 32]), Ok(()));
}

#[test]
fn foreign_contract_is_owner_only() {
    let (_, _, o) = deployed();
    let mut c = empty_contract();
    assert_eq!(
        register_foreign_contract(&o, &ASSISTANT, &mut c, 2, [7; 32], [8; 32]),
        Err(TokenBridgeRelayerError::OwnerOnly)
    );
    assert_eq!(c, empty_contract());
}

#[test]
fn register_and_deregister_keep_the_token_whole() {
    let (_, _, o) = deployed();
    let mut t = RegisteredToken::unregistered();
    assert_eq!(register_token(&o, &OWNER, &mut t, &MINT, 15_000_000, 500), Ok(()));
    assert_eq!(
        t,
        RegisteredToken { swap_rate: 15_000_000, max_native_swap_amount: 500, is_registered: true }
    );
    assert_eq!(
        register_token(&o, &OWNER, &mut t, &MINT, 1, 1),
        Err(TokenBridgeRelayerError::TokenAlreadyRegistered)
    );
    assert_eq!(deregister_token(&o, &OWNER, &mut t), Ok(()));
    assert_eq!(t, RegisteredToken { swap_rate: 0, max_native_swap_amount: 0, is_registered: false });
    assert_eq!(
        deregister_token(&o, &OWNER, &mut t),
        Err(TokenBridgeRelayerError::TokenNotRegistered)
    );
}

#[test]
fn register_rejects_zero_rate_and_strangers() {
    let (_, _, o) = deployed();
    let mut t = RegisteredToken::unregistered();
    assert_eq!(
        register_token(&o, &OWNER, &mut t, &MINT, 0, 0),
        Err(TokenBridgeRelayerError::ZeroSwapRate)
    );
    assert_eq!(
        register_token(&o, &STRANGER, &mut t, &MINT, 5, 0),
        Err(TokenBridgeRelayerError::OwnerOnly)
    );
    assert_eq!(
        deregister_token(&o, &ASSISTANT, &mut t),
        Err(TokenBridgeRelayerError::OwnerOnly)
    );
    assert_eq!(t, RegisteredToken::unregistered());
}

#[test]
fn native_mint_allows_no_native_swap() {
    let (_, _, o) = deployed();
    let mut t = RegisteredToken::unregistered();
    assert_eq!(
        register_token(&o, &OWNER, &mut t, &NATIVE_MINT, 100, 1),
        Err(TokenBridgeRelayerError::SwapsNotAllowedForNativeMint)
    );
    assert_eq!(register_token(&o, &OWNER, &mut t, &NATIVE_MINT, 100, 0), Ok(()));
    assert_eq!(
        update_max_native_swap_amount(&o, &OWNER, &mut t, &NATIVE_MINT, 7),
        Err(TokenBridgeRelayerError::SwapsNotAllowedForNativeMint)
    );
    assert_eq!(t.max_native_swap_amount, 0);
    assert_eq!(update_max_native_swap_amount(&o, &OWNER, &mut t, &NATIVE_MINT, 0), Ok(()));
}

#[test]
fn max_native_swap_amount_updates() {
    let (_, _, o) = deployed();
    let mut t = RegisteredToken::unregistered();
    assert_eq!(
        update_max_native_swap_amount(&o, &OWNER, &mut t, &MINT, 7),
        Err(TokenBridgeRelayerError::TokenNotRegistered)
    );
    register_token(&o, &OWNER, &mut t, &MINT, 100, 1).unwrap();
    assert_eq!(
        update_max_native_swap_amount(&o, &ASSISTANT, &mut t, &MINT, 7),
        Err(TokenBridgeRelayerError::OwnerOnly)
    );
    assert_eq!(update_max_native_swap_amount(&o, &OWNER, &mut t, &MINT, 7), Ok(()));
    assert_eq!(t.max_native_swap_amount, 7);
    assert_eq!(t.swap_rate, 100);
}

#[test]
fn swap_rate_updates_by_owner_or_assistant() {
    let (_, _, o) = deployed();
    let mut t = RegisteredToken::unregistered();
    assert_eq!(
        update_swap_rate(&o, &ASSISTANT, &mut t, &MINT, 5),
        Err(TokenBridgeRelayerError::TokenNotRegistered)
    );
    register_token(&o, &OWNER, &mut t, &MINT, 100, 1).unwrap();
    assert_eq!(update_swap_rate(&o, &ASSISTANT, &mut t, &MINT, 5), Ok(()));
    assert_eq!(t.swap_rate, 5);
    assert_eq!(update_swap_rate(&o, &OWNER, &mut t, &MINT, 6), Ok(()));
    assert_eq!(t.swap_rate, 6);
    assert_eq!(
        update_swap_rate(&o, &OWNER, &mut t, &MINT, 0),
        Err(TokenBridgeRelayerError::ZeroSwapRate)
    );
    assert_eq!(
        update_swap_rate(&o, &STRANGER, &mut t, &MINT, 9),
        Err(TokenBridgeRelayerError::OwnerOrAssistantOnly)
    );
    assert_eq!(t.swap_rate, 6);
}

#[test]
fn relayer_fee_updates_by_owner_or_assistant() {
    let (_, _, o) = deployed();
    let mut f = RelayerFee { chain: 0, fee: 0 };
    assert_eq!(update_relayer_fee(&o, &ASSISTANT, &mut f, 2, 5_000_000), Ok(()));
    assert_eq!(f, RelayerFee { chain: 2, fee: 5_000_000 });
    assert_eq!(update_relayer_fee(&o, &OWNER, &mut f, 2, 6), Ok(()));
    assert_eq!(f.fee, 6);
    assert_eq!(
        update_relayer_fee(&o, &STRANGER, &mut f, 2, 9),
        Err(TokenBridgeRelayerError::OwnerOrAssistantOnly)
    );
    assert_eq!(f.fee, 6);
}

#[test]
fn precisions_update_both_configs() {
    let (mut s, mut r, o) = deployed();
    assert_eq!(update_relayer_fee_precision(&o, &OWNER, &mut s, &mut r, 1_000), Ok(()));
    assert_eq!(s.relayer_fee_precision, 1_000);
    assert_eq!(r.relayer_fee_precision, 1_000);
    assert_eq!(update_swap_rate_precision(&o, &OWNER, &mut s, &mut r, 2_000), Ok(()));
    assert_eq!(s.swap_rate_precision, 2_000);
    assert_eq!(r.swap_rate_precision, 2_000);
    assert_eq!(
        update_relayer_fee_precision(&o, &OWNER, &mut s, &mut r, 0),
        Err(TokenBridgeRelayerError::InvalidPrecision)
    );
    assert_eq!(
        update_swap_rate_precision(&o, &OWNER, &mut s, &mut r, 0),
        Err(TokenBridgeRelayerError::InvalidPrecision)
    );
    assert_eq!(
        update_swap_rate_precision(&o, &ASSISTANT, &mut s, &mut r, 3),
        Err(TokenBridgeRelayerError::OwnerOnly)
    );
    assert_eq!(s.relayer_fee_precision, 1_000);
    assert_eq!(r.swap_rate_precision, 2_000);
}

#[test]
fn pause_is_owner_only() {
    let (mut s, _, o) = deployed();
    assert_eq!(set_pause_for_transfers(&o, &OWNER, &mut s, true), Ok(()));
    assert!(s.paused);
    assert_eq!(
        set_pause_for_transfers(&o, &ASSISTANT, &mut s, false),
        Err(TokenBridgeRelayerError::OwnerOnly)
    );
    assert!(s.paused);
    assert_eq!(set_pause_for_transfers(&o, &OWNER, &mut s, false), Ok(()));
    assert!(!s.paused);
}

#[test]
fn submit_then_confirm_hands_over_all_configs() {
    let (mut s, mut r, mut o) = deployed();
    assert_eq!(submit_ownership_transfer_request(&mut o, &OWNER, NEW_OWNER), Ok(()));
    assert_eq!(o.pending_owner, Some(NEW_OWNER));
    assert_eq!(
        confirm_ownership_transfer_request(&mut s, &mut r, &mut o, &STRANGER),
        Err(TokenBridgeRelayerError::NotPendingOwner)
    );
    assert_eq!(o.owner, OWNER);
    assert_eq!(confirm_ownership_transfer_request(&mut s, &mut r, &mut o, &NEW_OWNER), Ok(()));
    assert_eq!(s.owner, NEW_OWNER);
    assert_eq!(r.owner, NEW_OWNER);
    assert_eq!(o.owner, NEW_OWNER);
    assert_eq!(o.pending_owner, None);
    assert_eq!(o.assistant, ASSISTANT);
}

#[test]
fn submit_then_cancel_keeps_the_owner() {
    let (_, _, mut o) = deployed();
    assert_eq!(submit_ownership_transfer_request(&mut o, &OWNER, NEW_OWNER), Ok(()));
    assert_eq!(
        cancel_ownership_transfer_request(&mut o, &NEW_OWNER),
        Err(TokenBridgeRelayerError::OwnerOnly)
    );
    assert_eq!(cancel_ownership_transfer_request(&mut o, &OWNER), Ok(()));
    assert_eq!(o.owner, OWNER);
    assert_eq!(o.pending_owner, None);
}

#[test]
fn submit_rejects_zero_current_and_strangers() {
    let (mut s, mut r, mut o) = deployed();
    assert_eq!(
        submit_ownership_transfer_request(&mut o, &OWNER, [0; 32]),
        Err(TokenBridgeRelayerError::InvalidPublicKey)
    );
    assert_eq!(
        submit_ownership_transfer_request(&mut o, &OWNER, OWNER),
        Err(TokenBridgeRelayerError::AlreadyTheOwner)
    );
    assert_eq!(
        submit_ownership_transfer_request(&mut o, &ASSISTANT, NEW_OWNER),
        Err(TokenBridgeRelayerError::OwnerOnly)
    );
    assert_eq!(o.pending_owner, None);
    assert_eq!(
        confirm_ownership_transfer_request(&mut s, &mut r, &mut o, &NEW_OWNER),
        Err(TokenBridgeRelayerError::NotPendingOwner)
    );
}
