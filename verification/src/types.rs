//! The data model: channel identity, acting user, cosmetics scope, and the
//! event-subscription entries exchanged with the webhook event service and
//! the cosmetics service.

use vstd::prelude::*;

verus! {

/// Identifies a channel: `broadcaster_id` is the stable opaque id used by the
/// webhook event service, `login` the human-facing name used by the chat
/// transport.  Immutable once a join begins.
#[derive(Debug)]
pub struct ChannelIdentity {
    pub broadcaster_id: String,
    pub login: String,
}

/// The acting user at join time: their id and the caller-supplied moderator
/// flag.  Broadcaster status is derived — the user id equals the channel's
/// broadcaster id — and never stored.
#[derive(Debug)]
pub struct ActorContext {
    pub user_id: String,
    pub is_moderator: bool,
}

/// Optional cosmetics linkage of a join: the channel's emote-set id and the
/// broadcaster's id on the cosmetics service, either of which may be unknown.
#[derive(Debug)]
pub struct CosmeticsScope {
    pub emote_set_id: Option<String>,
    pub cosmetics_user_id: Option<String>,
}

/// The event types subscribed on the webhook event service.
#[derive(Clone, Copy, PartialEq, Eq, Structural, Debug)]
pub enum EventType {
    ChannelChatUserMessageHold,
    ChannelChatUserMessageUpdate,
    ChannelSubscriptionEnd,
    ChannelUpdate,
    StreamOffline,
    StreamOnline,
    AutomodMessageHold,
    AutomodMessageUpdate,
    ChannelModerate,
    ChannelSuspiciousUserMessage,
    ChannelSuspiciousUserUpdate,
    ChannelUnbanRequestCreate,
    ChannelUnbanRequestResolve,
    ChannelWarningAcknowledge,
    ChannelPointsAutomaticRewardRedemptionAdd,
    ChannelPointsCustomRewardRedemptionAdd,
    ChannelPollBegin,
    ChannelPollEnd,
    ChannelPollProgress,
    ChannelPredictionBegin,
    ChannelPredictionEnd,
    ChannelPredictionLock,
    ChannelPredictionProgress,
}

/// The scoped filter attached to an event subscription.  Its shape is fixed
/// by the event type: channel-wide events carry the broadcaster id alone,
/// user-directed events add the acting user's id, moderator events add the
/// acting user's id as moderator.
#[derive(PartialEq, Eq, Debug)]
pub enum Condition {
    Broadcaster { broadcaster_user_id: String },
    BroadcasterUser { broadcaster_user_id: String, user_id: String },
    BroadcasterModerator { broadcaster_user_id: String, moderator_user_id: String },
}

/// Mathematical value of a [`Condition`].
pub enum ConditionV {
    Broadcaster { broadcaster_user_id: Seq<char> },
    BroadcasterUser { broadcaster_user_id: Seq<char>, user_id: Seq<char> },
    BroadcasterModerator { broadcaster_user_id: Seq<char>, moderator_user_id: Seq<char> },
}

impl DeepView for Condition {
    type V = ConditionV;

    open spec fn deep_view(&self) -> ConditionV {
        match self {
            Condition::Broadcaster { broadcaster_user_id } => (ConditionV::Broadcaster {
                broadcaster_user_id: broadcaster_user_id@,
            }),
            Condition::BroadcasterUser { broadcaster_user_id, user_id } => (
            ConditionV::BroadcasterUser {
                broadcaster_user_id: broadcaster_user_id@,
                user_id: user_id@,
            }),
            Condition::BroadcasterModerator { broadcaster_user_id, moderator_user_id } => (
            ConditionV::BroadcasterModerator {
                broadcaster_user_id: broadcaster_user_id@,
                moderator_user_id: moderator_user_id@,
            }),
        }
    }
}

impl Clone for Condition {
    fn clone(&self) -> (res: Self)
        ensures
            res == *self,
    {
        match self {
            Condition::Broadcaster { broadcaster_user_id } => (Condition::Broadcaster {
                broadcaster_user_id: broadcaster_user_id.clone(),
            }),
            Condition::BroadcasterUser { broadcaster_user_id, user_id } => (
            Condition::BroadcasterUser {
                broadcaster_user_id: broadcaster_user_id.clone(),
                user_id: user_id.clone(),
            }),
            Condition::BroadcasterModerator { broadcaster_user_id, moderator_user_id } => (
            Condition::BroadcasterModerator {
                broadcaster_user_id: broadcaster_user_id.clone(),
                moderator_user_id: moderator_user_id.clone(),
            }),
        }
    }
}

/// One subscription on the webhook event service: an event type and its
/// scoped filter.  Two entries are equal iff both fields are equal.
#[derive(PartialEq, Eq, Debug)]
pub struct EventSubscriptionEntry {
    pub event_type: EventType,
    pub condition: Condition,
}

/// Mathematical value of an [`EventSubscriptionEntry`].
pub struct EntryV {
    pub event_type: EventType,
    pub condition: ConditionV,
}

impl DeepView for EventSubscriptionEntry {
    type V = EntryV;

    open spec fn deep_view(&self) -> EntryV {
        EntryV { event_type: self.event_type, condition: self.condition.deep_view() }
    }
}

impl Clone for EventSubscriptionEntry {
    fn clone(&self) -> (res: Self)
        ensures
            res == *self,
    {
        EventSubscriptionEntry { event_type: self.event_type, condition: self.condition.clone() }
    }
}

/// Copies a sequence of subscription entries, keeping every entry equal.
pub fn clone_entries(v: &Vec<EventSubscriptionEntry>) -> (r: Vec<EventSubscriptionEntry>)
    ensures
        r@ == v@,
{
    let mut r: Vec<EventSubscriptionEntry> = Vec::new();
    let n: usize = v.len();
    let mut i: usize = 0;
    while i < n
        invariant
            i <= n == v@.len(),
            r@ == v@.take(i as int),
        decreases n - i,
    {
        r.push(v[i].clone());
        proof {
            assert(v@.take(i + 1 as int) =~= v@.take(i as int).push(v@[i as int]));
        }
        i = i + 1;
    }
    proof {
        assert(v@.take(n as int) =~= v@);
    }
    r
}

/// Topics subscribed on the cosmetics service.
#[derive(Clone, Copy, PartialEq, Eq, Structural, Debug)]
pub enum CosmeticsTopic {
    CosmeticCreate,
    EntitlementCreate,
    EmoteSetAll,
    UserUpdate,
}

/// The scoped filter attached to a cosmetics subscription: either the whole
/// channel (by broadcaster id, on the chat platform) or a single object of
/// the cosmetics service (an emote set or a user).
#[derive(PartialEq, Eq, Debug)]
pub enum CosmeticsCondition {
    Channel { id: String },
    Object { object_id: String },
}

/// Mathematical value of a [`CosmeticsCondition`].
pub enum CosmeticsConditionV {
    Channel { id: Seq<char> },
    Object { object_id: Seq<char> },
}

impl DeepView for CosmeticsCondition {
    type V = CosmeticsConditionV;

    open spec fn deep_view(&self) -> CosmeticsConditionV {
        match self {
            CosmeticsCondition::Channel { id } => (CosmeticsConditionV::Channel { id: id@ }),
            CosmeticsCondition::Object { object_id } => (CosmeticsConditionV::Object {
                object_id: object_id@,
            }),
        }
    }
}

impl Clone for CosmeticsCondition {
    fn clone(&self) -> (res: Self)
        ensures
            res == *self,
    {
        match self {
            CosmeticsCondition::Channel { id } => (CosmeticsCondition::Channel {
                id: id.clone(),
            }),
            CosmeticsCondition::Object { object_id } => (CosmeticsCondition::Object {
                object_id: object_id.clone(),
            }),
        }
    }
}

/// One subscription on the cosmetics service.
#[derive(PartialEq, Eq, Debug)]
pub struct CosmeticsRequest {
    pub topic: CosmeticsTopic,
    pub condition: CosmeticsCondition,
}

/// Mathematical value of a [`CosmeticsRequest`].
pub struct CosmeticsRequestV {
    pub topic: CosmeticsTopic,
    pub condition: CosmeticsConditionV,
}

impl DeepView for CosmeticsRequest {
    type V = CosmeticsRequestV;

    open spec fn deep_view(&self) -> CosmeticsRequestV {
        CosmeticsRequestV { topic: self.topic, condition: self.condition.deep_view() }
    }
}

impl Clone for CosmeticsRequest {
    fn clone(&self) -> (res: Self)
        ensures
            res == *self,
    {
        CosmeticsRequest { topic: self.topic, condition: self.condition.clone() }
    }
}

} // verus!
