//! A minimal escrow/dispatch contract core, verified with Verus.
//!
//! The contract receives two recognized fungible assets, forwards a
//! configurable share of each deposit to an external swap venue, and burns
//! the resulting balances (and any swap-failure refunds) at a fixed burn
//! address. This crate holds the funds-routing and reply-reconciliation
//! state machine on plain values: classification of an inbound transfer,
//! the split between swapped and retained amounts, the correlation-tagged
//! follow-up actions, and the owner-gated configuration updates. Host
//! concerns — persistent storage, balance queries, message
//! (de)serialization — stay outside and hand in plain values.

pub mod contract;
pub mod decimal;
pub mod error;
pub mod funds;
pub mod msg;
pub mod response;
pub mod state;

pub use crate::contract::{
    execute, handle_receive, handle_receive_uusd, handle_swap_reply, handle_update_swap_pool_address,
    handle_update_tax_rate, instantiate, query, reply, try_execute,
};
pub use crate::error::ContractError;
pub use crate::msg::{ExecuteMsg, InstantiateMsg, QueryMsg};
pub use crate::response::{Attribute, Coin, ContractMsg, ReplyOn, Response, SubMsg, SwapInstruction};
pub use crate::state::Config;
