//! Subscription orchestration for a multi-provider live-chat client.
//!
//! When a user joins or leaves a channel, three independent event sources —
//! a chat transport, a webhook-style event-notification service, and a
//! cosmetics pub-sub service — must be brought into a consistent subscribed
//! state.  This crate holds the verified core: the policy that decides which
//! event subscriptions a join requires, the per-channel ledger that makes an
//! exact replay (rejoin) possible, and the decision logic of the join, leave
//! and rejoin protocols.  The network calls themselves are made by the
//! surrounding application, which feeds their outcomes back into this core.

use vstd::prelude::*;

pub mod error;
pub mod ledger;
pub mod orchestrator;
pub mod policy;
pub mod session;
pub mod types;

verus! {

/// Envelope for payloads returned by the chat-platform API.
pub struct Response<T> {
    pub data: T,
}

} // verus!
