//! The durable records of the relay: sender, redeemer and owner settings,
//! per-token registration, per-chain foreign contracts and relayer fees.
use vstd::prelude::*;

verus! {

/// A 32-byte account identity on the host ledger, or an address on a
/// foreign chain.
pub type Address = [u8; 32];

/// The bridge's identifier of the host ledger; foreign chains lie above it.
pub const HOST_CHAIN_ID: u16 = 1;

/// Precision that relayer fees and swap rates start with.
pub const INITIAL_PRECISION: u32 = 100_000_000;

/// Decimals of the host ledger's native gas asset.
pub const NATIVE_DECIMALS: u8 = 9;

/// The mint of the wrapped native gas asset.
pub const NATIVE_MINT: Address = [
    6, 155, 136, 87, 254, 171, 129, 132, 251, 104, 127, 99, 70, 24, 192, 53,
    218, 196, 57, 220, 26, 235, 59, 85, 152, 160, 240, 0, 0, 0, 0, 1,
];

/// The default identity: all bytes zero.
pub open spec fn is_zero_key(k: Address) -> bool {
    forall|i: int| 0 <= i < 32 ==> #[trigger] k[i] == 0
}

pub open spec fn is_native_mint(mint: Address) -> bool {
    mint == NATIVE_MINT
}

/// Whether every byte of `k` is zero.
pub fn is_zero_address(k: &Address) -> (r: bool)
    ensures
        r == is_zero_key(*k),
{
    let mut i: usize = 0;
    while i < 32
        invariant
            i <= 32,
            forall|j: int| 0 <= j < i ==> k[j] == 0,
        decreases 32 - i,
    {
        if k[i] != 0 {
            return false;
        }
        i = i + 1;
    }
    true
}

/// Byte-wise equality of two identities.
pub fn same_address(a: &Address, b: &Address) -> (r: bool)
    ensures
        r == (*a == *b),
{
    let mut i: usize = 0;
    while i < 32
        invariant
            i <= 32,
            forall|j: int| 0 <= j < i ==> a[j] == b[j],
        decreases 32 - i,
    {
        if a[i] != b[i] {
            return false;
        }
        i = i + 1;
    }
    assert(*a =~= *b);
    true
}

/// Whether `mint` is the wrapped native gas asset.
pub fn is_native(mint: &Address) -> (r: bool)
    ensures
        r == is_native_mint(*mint),
{
    let native: Address = NATIVE_MINT;
    same_address(mint, &native)
}

/// Addresses of the bridge accounts that outbound transfers go through.
#[derive(Clone, Copy, Debug, PartialEq, Eq)]
pub struct OutboundBridgeAccounts {
    pub config: Address,
    pub authority_signer: Address,
    pub custody_signer: Address,
    pub emitter: Address,
    pub sequence: Address,
    pub wormhole_bridge: Address,
    pub wormhole_fee_collector: Address,
}

/// Addresses of the bridge accounts that inbound redemptions go through.
#[derive(Clone, Copy, Debug, PartialEq, Eq)]
pub struct InboundBridgeAccounts {
    pub config: Address,
    pub custody_signer: Address,
    pub mint_authority: Address,
}

/// Settings of the sending side.
#[derive(Clone, Copy, Debug, PartialEq, Eq)]
pub struct SenderConfig {
    pub owner: Address,
    pub paused: bool,
    pub relayer_fee_precision: u32,
    pub swap_rate_precision: u32,
    pub token_bridge: OutboundBridgeAccounts,
}

/// Settings of the redeeming side.
#[derive(Clone, Copy, Debug, PartialEq, Eq)]
pub struct RedeemerConfig {
    pub owner: Address,
    pub fee_recipient: Address,
    pub relayer_fee_precision: u32,
    pub swap_rate_precision: u32,
    pub token_bridge: InboundBridgeAccounts,
}

/// Who may administer the relay, and the owner-to-be of a pending handover.
#[derive(Clone, Copy, Debug, PartialEq, Eq)]
pub struct OwnerConfig {
    pub owner: Address,
    pub assistant: Address,
    pub pending_owner: Option<Address>,
}

impl OwnerConfig {
    pub open spec fn spec_is_authorized(&self, key: Address) -> bool {
        key == self.owner || key == self.assistant
    }

    /// The owner or the assistant.
    pub fn is_authorized(&self, key: &Address) -> (r: bool)
        ensures
            r == self.spec_is_authorized(*key),
    {
        same_address(key, &self.owner) || same_address(key, &self.assistant)
    }

    pub open spec fn spec_is_pending_owner(&self, key: Address) -> bool {
        self.pending_owner == Some(key)
    }

    /// Whether `key` is the owner-to-be of a pending handover.
    pub fn is_pending_owner(&self, key: &Address) -> (r: bool)
        ensures
            r == self.spec_is_pending_owner(*key),
    {
        match &self.pending_owner {
            Some(p) => same_address(key, p),
            None => false,
        }
    }
}

/// Registration of one token.
#[derive(Clone, Copy, Debug, PartialEq, Eq)]
pub struct RegisteredToken {
    /// USD value of one whole token, scaled by the swap-rate precision.
    pub swap_rate: u64,
    /// Most native gas units that one redemption may hand out for this token.
    pub max_native_swap_amount: u64,
    pub is_registered: bool,
}

impl RegisteredToken {
    /// Fully registered with a positive rate, or fully reset.
    pub open spec fn wf(&self) -> bool {
        if self.is_registered {
            self.swap_rate > 0
        } else {
            self.swap_rate == 0 && self.max_native_swap_amount == 0
        }
    }

    /// `wf`, and the entry of the native mint allows no native swap.
    pub open spec fn wf_for(&self, mint: Address) -> bool {
        self.wf() && (is_native_mint(mint) ==> self.max_native_swap_amount == 0)
    }

    /// The entry of a token that was never registered.
    pub fn unregistered() -> (r: RegisteredToken)
        ensures
            !r.is_registered,
            r.wf(),
    {
        RegisteredToken { swap_rate: 0, max_native_swap_amount: 0, is_registered: false }
    }
}

/// A registered contract on a foreign chain.
#[derive(Clone, Copy, Debug, PartialEq, Eq)]
pub struct ForeignContract {
    pub chain: u16,
    pub address: Address,
    pub token_bridge_foreign_endpoint: Address,
}

/// Flat relayer fee for one destination chain, in USD scaled by the
/// relayer-fee precision.
#[derive(Clone, Copy, Debug, PartialEq, Eq)]
pub struct RelayerFee {
    pub chain: u16,
    pub fee: u64,
}

} // verus!
