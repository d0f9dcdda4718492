use chat_subs::policy::compute;
use chat_subs::policy::compute_cosmetics;
use chat_subs::types::ActorContext;
use chat_subs::types::ChannelIdentity;
use chat_subs::types::Condition;
use chat_subs::types::CosmeticsCondition;
use chat_subs::types::CosmeticsScope;
use chat_subs::types::CosmeticsTopic;
use chat_subs::types::EventType;

fn identity(id: &str, login: &str) -> ChannelIdentity {
    ChannelIdentity { broadcaster_id: id.to_string(), login: login.to_string() }
}

fn actor(user_id: &str, is_moderator: bool) -> ActorContext {
    ActorContext { user_id: user_id.to_string(), is_moderator }
}

#[test]
fn viewer_gets_base_tier_only() {
    let entries = compute(&identity("123", "foo"), &actor("456", false));
    assert_eq!(entries.len(), 6);
    assert_eq!(entries[0].event_type, EventType::ChannelChatUserMessageHold);
    assert_eq!(
        entries[0].condition,
        Condition::BroadcasterUser {
            broadcaster_user_id: "123".to_string(),
            user_id: "456".to_string(),
        }
    );
    assert_eq!(entries[2].event_type, EventType::ChannelSubscriptionEnd);
    assert_eq!(
        entries[2].condition,
        Condition::Broadcaster { broadcaster_user_id: "123".to_string() }
    );
    assert_eq!(entries[5].event_type, EventType::StreamOnline);
}

#[test]
fn moderator_gets_base_plus_moderator_tiers() {
    let entries = compute(&identity("123", "foo"), &actor("456", true));
    assert_eq!(entries.len(), 6 + 8);
    assert_eq!(entries[6].event_type, EventType::AutomodMessageHold);
    assert_eq!(
        entries[6].condition,
        Condition::BroadcasterModerator {
            broadcaster_user_id: "123".to_string(),
            moderator_user_id: "456".to_string(),
        }
    );
    assert_eq!(entries[13].event_type, EventType::ChannelWarningAcknowledge);
    assert!(!entries
        .iter()
        .any(|e| e.event_type == EventType::ChannelPollBegin));
}

#[test]
fn broadcaster_gets_base_plus_broadcaster_tiers() {
    let entries = compute(&identity("123", "foo"), &actor("123", false));
    assert_eq!(entries.len(), 6 + 9);
    assert_eq!(
        entries[6].event_type,
        EventType::ChannelPointsAutomaticRewardRedemptionAdd
    );
    assert_eq!(
        entries[6].condition,
        Condition::Broadcaster { broadcaster_user_id: "123".to_string() }
    );
    assert_eq!(entries[14].event_type, EventType::ChannelPredictionProgress);
    assert!(!entries
        .iter()
        .any(|e| e.event_type == EventType::AutomodMessageHold));
}

#[test]
fn moderator_broadcaster_gets_all_23_entries() {
    let entries = compute(&identity("123", "foo"), &actor("123", true));
    assert_eq!(entries.len(), 23);
}

#[test]
fn tiers_never_produce_duplicate_pairs() {
    let entries = compute(&identity("123", "foo"), &actor("123", true));
    for i in 0..entries.len() {
        for j in 0..entries.len() {
            if i != j {
                assert_ne!(entries[i], entries[j]);
            }
        }
    }
}

#[test]
fn cosmetics_without_scope_gets_the_two_channel_topics() {
    let scope = CosmeticsScope { emote_set_id: None, cosmetics_user_id: None };
    let requests = compute_cosmetics(&identity("123", "foo"), &scope);
    assert_eq!(requests.len(), 2);
    assert_eq!(requests[0].topic, CosmeticsTopic::CosmeticCreate);
    assert_eq!(
        requests[0].condition,
        CosmeticsCondition::Channel { id: "123".to_string() }
    );
    assert_eq!(requests[1].topic, CosmeticsTopic::EntitlementCreate);
    assert_eq!(
        requests[1].condition,
        CosmeticsCondition::Channel { id: "123".to_string() }
    );
}

#[test]
fn cosmetics_with_emote_set_only_gets_three_topics() {
    let scope = CosmeticsScope {
        emote_set_id: Some("ab12".to_string()),
        cosmetics_user_id: None,
    };
    let requests = compute_cosmetics(&identity("123", "foo"), &scope);
    assert_eq!(requests.len(), 3);
    assert_eq!(requests[2].topic, CosmeticsTopic::EmoteSetAll);
    assert_eq!(
        requests[2].condition,
        CosmeticsCondition::Object { object_id: "ab12".to_string() }
    );
    assert!(!requests
        .iter()
        .any(|r| r.topic == CosmeticsTopic::UserUpdate));
}

#[test]
fn cosmetics_with_full_scope_gets_four_topics() {
    let scope = CosmeticsScope {
        emote_set_id: Some("ab12".to_string()),
        cosmetics_user_id: Some("stv9".to_string()),
    };
    let requests = compute_cosmetics(&identity("123", "foo"), &scope);
    assert_eq!(requests.len(), 4);
    assert_eq!(requests[3].topic, CosmeticsTopic::UserUpdate);
    assert_eq!(
        requests[3].condition,
        CosmeticsCondition::Object { object_id: "stv9".to_string() }
    );
}
