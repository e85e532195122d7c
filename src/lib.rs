//! A cross-chain token relay: fee and native-swap arithmetic, the relay
//! payload codec, the configuration registry with its two-step ownership
//! handshake, and the planning of outbound sends and inbound redemptions.
pub mod amount;
pub mod state;
pub mod fees;
pub mod message;
pub mod error;
pub mod ownership;
pub mod admin;
pub mod outbound;
pub mod inbound;
