//! The subscription policy: which event subscriptions a channel join
//! requires, as a pure function of the channel, the acting user's privilege
//! level, and the cosmetics scope.
//!
//! The webhook event-service set is built from three additive tiers: a base
//! tier that every join gets, a moderator tier gated on the caller-supplied
//! moderator flag, and a broadcaster tier gated on the acting user being the
//! channel's broadcaster.  The cosmetics set has two always-present topics
//! and up to two optional ones.

use vstd::prelude::*;

use crate::types::ActorContext;
use crate::types::ChannelIdentity;
use crate::types::Condition;
use crate::types::ConditionV;
use crate::types::CosmeticsCondition;
use crate::types::CosmeticsConditionV;
use crate::types::CosmeticsRequest;
use crate::types::CosmeticsRequestV;
use crate::types::CosmeticsScope;
use crate::types::CosmeticsTopic;
use crate::types::EntryV;
use crate::types::EventSubscriptionEntry;
use crate::types::EventType;

verus! {

/// The base tier, part of every join: user-directed moderation-hold and
/// moderation-update events scoped to the channel and the acting user, and
/// four channel-wide events scoped to the channel alone.
pub open spec fn base_policy(id: Seq<char>, user: Seq<char>) -> Seq<EntryV> {
    seq![
        EntryV {
            event_type: EventType::ChannelChatUserMessageHold,
            condition: ConditionV::BroadcasterUser { broadcaster_user_id: id, user_id: user },
        },
        EntryV {
            event_type: EventType::ChannelChatUserMessageUpdate,
            condition: ConditionV::BroadcasterUser { broadcaster_user_id: id, user_id: user },
        },
        EntryV {
            event_type: EventType::ChannelSubscriptionEnd,
            condition: ConditionV::Broadcaster { broadcaster_user_id: id },
        },
        EntryV {
            event_type: EventType::ChannelUpdate,
            condition: ConditionV::Broadcaster { broadcaster_user_id: id },
        },
        EntryV {
            event_type: EventType::StreamOffline,
            condition: ConditionV::Broadcaster { broadcaster_user_id: id },
        },
        EntryV {
            event_type: EventType::StreamOnline,
            condition: ConditionV::Broadcaster { broadcaster_user_id: id },
        },
    ]
}

/// The moderator tier, included iff the acting user joined as a moderator:
/// eight moderation events scoped to the channel and the acting user as
/// moderator.
pub open spec fn moderator_policy(id: Seq<char>, user: Seq<char>) -> Seq<EntryV> {
    seq![
        EntryV {
            event_type: EventType::AutomodMessageHold,
            condition: ConditionV::BroadcasterModerator {
                broadcaster_user_id: id,
                moderator_user_id: user,
            },
        },
        EntryV {
            event_type: EventType::AutomodMessageUpdate,
            condition: ConditionV::BroadcasterModerator {
                broadcaster_user_id: id,
                moderator_user_id: user,
            },
        },
        EntryV {
            event_type: EventType::ChannelModerate,
            condition: ConditionV::BroadcasterModerator {
                broadcaster_user_id: id,
                moderator_user_id: user,
            },
        },
        EntryV {
            event_type: EventType::ChannelSuspiciousUserMessage,
            condition: ConditionV::BroadcasterModerator {
                broadcaster_user_id: id,
                moderator_user_id: user,
            },
        },
        EntryV {
            event_type: EventType::ChannelSuspiciousUserUpdate,
            condition: ConditionV::BroadcasterModerator {
                broadcaster_user_id: id,
                moderator_user_id: user,
            },
        },
        EntryV {
            event_type: EventType::ChannelUnbanRequestCreate,
            condition: ConditionV::BroadcasterModerator {
                broadcaster_user_id: id,
                moderator_user_id: user,
            },
        },
        EntryV {
            event_type: EventType::ChannelUnbanRequestResolve,
            condition: ConditionV::BroadcasterModerator {
                broadcaster_user_id: id,
                moderator_user_id: user,
            },
        },
        EntryV {
            event_type: EventType::ChannelWarningAcknowledge,
            condition: ConditionV::BroadcasterModerator {
                broadcaster_user_id: id,
                moderator_user_id: user,
            },
        },
    ]
}

/// The broadcaster tier, included iff the acting user is the channel's
/// broadcaster: reward redemptions, polls and predictions, scoped to the
/// channel alone.
pub open spec fn broadcaster_policy(id: Seq<char>) -> Seq<EntryV> {
    seq![
        EntryV {
            event_type: EventType::ChannelPointsAutomaticRewardRedemptionAdd,
            condition: ConditionV::Broadcaster { broadcaster_user_id: id },
        },
        EntryV {
            event_type: EventType::ChannelPointsCustomRewardRedemptionAdd,
            condition: ConditionV::Broadcaster { broadcaster_user_id: id },
        },
        EntryV {
            event_type: EventType::ChannelPollBegin,
            condition: ConditionV::Broadcaster { broadcaster_user_id: id },
        },
        EntryV {
            event_type: EventType::ChannelPollEnd,
            condition: ConditionV::Broadcaster { broadcaster_user_id: id },
        },
        EntryV {
            event_type: EventType::ChannelPollProgress,
            condition: ConditionV::Broadcaster { broadcaster_user_id: id },
        },
        EntryV {
            event_type: EventType::ChannelPredictionBegin,
            condition: ConditionV::Broadcaster { broadcaster_user_id: id },
        },
        EntryV {
            event_type: EventType::ChannelPredictionEnd,
            condition: ConditionV::Broadcaster { broadcaster_user_id: id },
        },
        EntryV {
            event_type: EventType::ChannelPredictionLock,
            condition: ConditionV::Broadcaster { broadcaster_user_id: id },
        },
        EntryV {
            event_type: EventType::ChannelPredictionProgress,
            condition: ConditionV::Broadcaster { broadcaster_user_id: id },
        },
    ]
}

/// The full webhook event-service policy: the base tier, then the moderator
/// tier iff the moderator flag is set, then the broadcaster tier iff the
/// acting user is the broadcaster.
pub open spec fn full_policy(id: Seq<char>, user: Seq<char>, is_moderator: bool) -> Seq<EntryV> {
    base_policy(id, user) + (if is_moderator {
        moderator_policy(id, user)
    } else {
        Seq::<EntryV>::empty()
    }) + (if user == id {
        broadcaster_policy(id)
    } else {
        Seq::<EntryV>::empty()
    })
}

/// The cosmetics-service policy: `cosmetic.create` and `entitlement.create`
/// always, scoped to the channel; the emote-set topic iff an emote-set id is
/// supplied; the user-update topic iff a cosmetics user id is supplied.
pub open spec fn cosmetics_policy(
    id: Seq<char>,
    emote_set_id: Option<Seq<char>>,
    cosmetics_user_id: Option<Seq<char>>,
) -> Seq<CosmeticsRequestV> {
    seq![
        CosmeticsRequestV {
            topic: CosmeticsTopic::CosmeticCreate,
            condition: CosmeticsConditionV::Channel { id: id },
        },
        CosmeticsRequestV {
            topic: CosmeticsTopic::EntitlementCreate,
            condition: CosmeticsConditionV::Channel { id: id },
        },
    ] + (match emote_set_id {
        Some(set_id) => seq![
            CosmeticsRequestV {
                topic: CosmeticsTopic::EmoteSetAll,
                condition: CosmeticsConditionV::Object { object_id: set_id },
            },
        ],
        None => Seq::<CosmeticsRequestV>::empty(),
    }) + (match cosmetics_user_id {
        Some(user_id) => seq![
            CosmeticsRequestV {
                topic: CosmeticsTopic::UserUpdate,
                condition: CosmeticsConditionV::Object { object_id: user_id },
            },
        ],
        None => Seq::<CosmeticsRequestV>::empty(),
    })
}

/// Builds the channel-wide filter: the broadcaster id alone.
pub fn channel_condition(identity: &ChannelIdentity) -> (c: Condition)
    ensures
        c.deep_view() == (ConditionV::Broadcaster {
            broadcaster_user_id: identity.broadcaster_id@,
        }),
{
    Condition::Broadcaster { broadcaster_user_id: identity.broadcaster_id.clone() }
}

/// Builds the user-directed filter: the broadcaster id plus the acting
/// user's id.
pub fn user_condition(identity: &ChannelIdentity, actor: &ActorContext) -> (c: Condition)
    ensures
        c.deep_view() == (ConditionV::BroadcasterUser {
            broadcaster_user_id: identity.broadcaster_id@,
            user_id: actor.user_id@,
        }),
{
    Condition::BroadcasterUser {
        broadcaster_user_id: identity.broadcaster_id.clone(),
        user_id: actor.user_id.clone(),
    }
}

/// Builds the moderator filter: the broadcaster id plus the acting user's id
/// as moderator.
pub fn moderator_condition(identity: &ChannelIdentity, actor: &ActorContext) -> (c: Condition)
    ensures
        c.deep_view() == (ConditionV::BroadcasterModerator {
            broadcaster_user_id: identity.broadcaster_id@,
            moderator_user_id: actor.user_id@,
        }),
{
    Condition::BroadcasterModerator {
        broadcaster_user_id: identity.broadcaster_id.clone(),
        moderator_user_id: actor.user_id.clone(),
    }
}

fn push_base_entries(
    entries: &mut Vec<EventSubscriptionEntry>,
    identity: &ChannelIdentity,
    actor: &ActorContext,
)
    ensures
        final(entries).deep_view() == old(entries).deep_view() + base_policy(
            identity.broadcaster_id@,
            actor.user_id@,
        ),
{
    entries.push(
        EventSubscriptionEntry {
            event_type: EventType::ChannelChatUserMessageHold,
            condition: user_condition(identity, actor),
        },
    );
    entries.push(
        EventSubscriptionEntry {
            event_type: EventType::ChannelChatUserMessageUpdate,
            condition: user_condition(identity, actor),
        },
    );
    entries.push(
        EventSubscriptionEntry {
            event_type: EventType::ChannelSubscriptionEnd,
            condition: channel_condition(identity),
        },
    );
    entries.push(
        EventSubscriptionEntry {
            event_type: EventType::ChannelUpdate,
            condition: channel_condition(identity),
        },
    );
    entries.push(
        EventSubscriptionEntry {
            event_type: EventType::StreamOffline,
            condition: channel_condition(identity),
        },
    );
    entries.push(
        EventSubscriptionEntry {
            event_type: EventType::StreamOnline,
            condition: channel_condition(identity),
        },
    );
    proof {
        assert(entries.deep_view() =~= old(entries).deep_view() + base_policy(
            identity.broadcaster_id@,
            actor.user_id@,
        ));
    }
}

fn push_moderator_entries(
    entries: &mut Vec<EventSubscriptionEntry>,
    identity: &ChannelIdentity,
    actor: &ActorContext,
)
    ensures
        final(entries).deep_view() == old(entries).deep_view() + moderator_policy(
            identity.broadcaster_id@,
            actor.user_id@,
        ),
{
    entries.push(
        EventSubscriptionEntry {
            event_type: EventType::AutomodMessageHold,
            condition: moderator_condition(identity, actor),
        },
    );
    entries.push(
        EventSubscriptionEntry {
            event_type: EventType::AutomodMessageUpdate,
            condition: moderator_condition(identity, actor),
        },
    );
    entries.push(
        EventSubscriptionEntry {
            event_type: EventType::ChannelModerate,
            condition: moderator_condition(identity, actor),
        },
    );
    entries.push(
        EventSubscriptionEntry {
            event_type: EventType::ChannelSuspiciousUserMessage,
            condition: moderator_condition(identity, actor),
        },
    );
    entries.push(
        EventSubscriptionEntry {
            event_type: EventType::ChannelSuspiciousUserUpdate,
            condition: moderator_condition(identity, actor),
        },
    );
    entries.push(
        EventSubscriptionEntry {
            event_type: EventType::ChannelUnbanRequestCreate,
            condition: moderator_condition(identity, actor),
        },
    );
    entries.push(
        EventSubscriptionEntry {
            event_type: EventType::ChannelUnbanRequestResolve,
            condition: moderator_condition(identity, actor),
        },
    );
    entries.push(
        EventSubscriptionEntry {
            event_type: EventType::ChannelWarningAcknowledge,
            condition: moderator_condition(identity, actor),
        },
    );
    proof {
        assert(entries.deep_view() =~= old(entries).deep_view() + moderator_policy(
            identity.broadcaster_id@,
            actor.user_id@,
        ));
    }
}

fn push_broadcaster_entries(entries: &mut Vec<EventSubscriptionEntry>, identity: &ChannelIdentity)
    ensures
        final(entries).deep_view() == old(entries).deep_view() + broadcaster_policy(
            identity.broadcaster_id@,
        ),
{
    entries.push(
        EventSubscriptionEntry {
            event_type: EventType::ChannelPointsAutomaticRewardRedemptionAdd,
            condition: channel_condition(identity),
        },
    );
    entries.push(
        EventSubscriptionEntry {
            event_type: EventType::ChannelPointsCustomRewardRedemptionAdd,
            condition: channel_condition(identity),
        },
    );
    entries.push(
        EventSubscriptionEntry {
            event_type: EventType::ChannelPollBegin,
            condition: channel_condition(identity),
        },
    );
    entries.push(
        EventSubscriptionEntry {
            event_type: EventType::ChannelPollEnd,
            condition: channel_condition(identity),
        },
    );
    entries.push(
        EventSubscriptionEntry {
            event_type: EventType::ChannelPollProgress,
            condition: channel_condition(identity),
        },
    );
    entries.push(
        EventSubscriptionEntry {
            event_type: EventType::ChannelPredictionBegin,
            condition: channel_condition(identity),
        },
    );
    entries.push(
        EventSubscriptionEntry {
            event_type: EventType::ChannelPredictionEnd,
            condition: channel_condition(identity),
        },
    );
    entries.push(
        EventSubscriptionEntry {
            event_type: EventType::ChannelPredictionLock,
            condition: channel_condition(identity),
        },
    );
    entries.push(
        EventSubscriptionEntry {
            event_type: EventType::ChannelPredictionProgress,
            condition: channel_condition(identity),
        },
    );
    proof {
        assert(entries.deep_view() =~= old(entries).deep_view() + broadcaster_policy(
            identity.broadcaster_id@,
        ));
    }
}

/// Computes the full ordered webhook event-service subscription set for a
/// join: the base tier, the moderator tier iff the actor joined as a
/// moderator, and the broadcaster tier iff the actor is the channel's
/// broadcaster.  Pure: no state, no failure mode.
pub fn compute(identity: &ChannelIdentity, actor: &ActorContext) -> (r: Vec<
    EventSubscriptionEntry,
>)
    ensures
        r.deep_view() == full_policy(identity.broadcaster_id@, actor.user_id@, actor.is_moderator),
{
    let mut entries: Vec<EventSubscriptionEntry> = Vec::new();
    push_base_entries(&mut entries, identity, actor);
    if actor.is_moderator {
        push_moderator_entries(&mut entries, identity, actor);
    }
    if actor.user_id == identity.broadcaster_id {
        push_broadcaster_entries(&mut entries, identity);
    }
    proof {
        assert(entries.deep_view() =~= full_policy(
            identity.broadcaster_id@,
            actor.user_id@,
            actor.is_moderator,
        ));
    }
    entries
}

/// Computes the ordered cosmetics-service subscription set for a join: the
/// two channel-wide topics always, the emote-set topic iff an emote-set id
/// is supplied, the user-update topic iff a cosmetics user id is supplied.
/// Pure: no state, no failure mode.
pub fn compute_cosmetics(identity: &ChannelIdentity, scope: &CosmeticsScope) -> (r: Vec<
    CosmeticsRequest,
>)
    ensures
        r.deep_view() == cosmetics_policy(
            identity.broadcaster_id@,
            scope.emote_set_id.deep_view(),
            scope.cosmetics_user_id.deep_view(),
        ),
{
    let mut requests: Vec<CosmeticsRequest> = Vec::new();
    requests.push(
        CosmeticsRequest {
            topic: CosmeticsTopic::CosmeticCreate,
            condition: CosmeticsCondition::Channel { id: identity.broadcaster_id.clone() },
        },
    );
    requests.push(
        CosmeticsRequest {
            topic: CosmeticsTopic::EntitlementCreate,
            condition: CosmeticsCondition::Channel { id: identity.broadcaster_id.clone() },
        },
    );
    match &scope.emote_set_id {
        Some(set_id) => {
            requests.push(
                CosmeticsRequest {
                    topic: CosmeticsTopic::EmoteSetAll,
                    condition: CosmeticsCondition::Object { object_id: set_id.clone() },
                },
            );
        },
        None => {},
    }
    match &scope.cosmetics_user_id {
        Some(user_id) => {
            requests.push(
                CosmeticsRequest {
                    topic: CosmeticsTopic::UserUpdate,
                    condition: CosmeticsCondition::Object { object_id: user_id.clone() },
                },
            );
        },
        None => {},
    }
    proof {
        assert(requests.deep_view() =~= cosmetics_policy(
            identity.broadcaster_id@,
            scope.emote_set_id.deep_view(),
            scope.cosmetics_user_id.deep_view(),
        ));
    }
    requests
}

/// Law: the full policy is exactly the base tier, plus the moderator tier
/// iff the moderator flag is set, plus the broadcaster tier iff the acting
/// user is the broadcaster.
pub proof fn lemma_policy_tiers(id: Seq<char>, user: Seq<char>, is_moderator: bool)
    ensures
        is_moderator && user == id ==> full_policy(id, user, is_moderator) == base_policy(id, user)
            + moderator_policy(id, user) + broadcaster_policy(id),
        is_moderator && user != id ==> full_policy(id, user, is_moderator) == base_policy(id, user)
            + moderator_policy(id, user),
        !is_moderator && user == id ==> full_policy(id, user, is_moderator) == base_policy(id, user)
            + broadcaster_policy(id),
        !is_moderator && user != id ==> full_policy(id, user, is_moderator) == base_policy(
            id,
            user,
        ),
{
    if is_moderator && user != id {
        assert(full_policy(id, user, is_moderator) =~= base_policy(id, user) + moderator_policy(
            id,
            user,
        ));
    }
    if !is_moderator && user == id {
        assert(full_policy(id, user, is_moderator) =~= base_policy(id, user) + broadcaster_policy(
            id,
        ));
    }
    if !is_moderator && user != id {
        assert(full_policy(id, user, is_moderator) =~= base_policy(id, user));
    }
}

/// Law: the tier sizes are fixed — six base entries, eight moderator
/// entries, nine broadcaster entries, twenty-three in all for a
/// moderator-broadcaster.
pub proof fn lemma_tier_counts(id: Seq<char>, user: Seq<char>)
    ensures
        base_policy(id, user).len() == 6,
        moderator_policy(id, user).len() == 8,
        broadcaster_policy(id).len() == 9,
        user == id ==> full_policy(id, user, true).len() == 23,
{
}

/// Law: no two entries of the full policy are equal — the tiers never
/// produce a duplicate (event type, condition) pair, whatever the privilege
/// combination.
pub proof fn lemma_policy_no_duplicates(id: Seq<char>, user: Seq<char>, is_moderator: bool)
    ensures
        forall|i: int, j: int|
            0 <= i < j < full_policy(id, user, is_moderator).len() ==> full_policy(
                id,
                user,
                is_moderator,
            )[i] != full_policy(id, user, is_moderator)[j],
{
    let p = full_policy(id, user, is_moderator);
    assert forall|i: int, j: int| 0 <= i < j < p.len() implies p[i] != p[j] by {
        assert(p[i].event_type != p[j].event_type);
    }
}

} // verus!
