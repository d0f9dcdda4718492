//! Errors surfaced to the invoking shell by join, leave and rejoin.

use vstd::prelude::*;

verus! {

/// A structured failure of a join, leave or rejoin call.
#[derive(Debug, PartialEq, Eq)]
pub enum Error {
    /// Precondition failure: no auth token is set.  Fatal, raised before any
    /// other work is attempted.
    AccessTokenMissing,
    /// Precondition failure: no chat-transport connection.  Fatal, raised
    /// before any other work is attempted.
    ChatTransportMissing,
    /// A subscribe or unsubscribe call to the webhook event service failed;
    /// the payload carries the service's message.
    SubscriptionFailure(String),
}

} // verus!
