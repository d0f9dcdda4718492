use chat_subs::error::Error;
use chat_subs::orchestrator::EventSubOutcome;
use chat_subs::orchestrator::JoinRequest;
use chat_subs::orchestrator::Orchestrator;
use chat_subs::policy::compute;
use chat_subs::session::get_access_token;
use chat_subs::session::set_access_token;
use chat_subs::session::SessionSnapshot;
use chat_subs::session::TokenData;
use chat_subs::types::ActorContext;
use chat_subs::types::ChannelIdentity;

fn token(user_id: &str) -> TokenData {
    TokenData { user_id: user_id.to_string(), access_token: "tok-9f3b".to_string() }
}

fn session(user_id: &str, has_chat: bool, has_eventsub: bool, has_cosmetics: bool) -> SessionSnapshot {
    SessionSnapshot { token: Some(token(user_id)), has_chat, has_eventsub, has_cosmetics }
}

fn request(id: &str, login: &str, is_mod: bool, set_id: Option<&str>, stv_id: Option<&str>) -> JoinRequest {
    JoinRequest {
        id: id.to_string(),
        login: login.to_string(),
        is_mod,
        set_id: set_id.map(|s| s.to_string()),
        stv_id: stv_id.map(|s| s.to_string()),
    }
}

#[test]
fn join_without_token_fails_before_any_work() {
    let mut orch = Orchestrator::new();
    let sess = SessionSnapshot { token: None, has_chat: true, has_eventsub: true, has_cosmetics: true };
    let r = orch.join(&sess, &request("123", "foo", false, None, None));
    assert_eq!(r.unwrap_err(), Error::AccessTokenMissing);
    assert!(orch.recorded(&"foo".to_string()).is_none());
}

#[test]
fn join_without_chat_transport_fails_before_any_work() {
    let mut orch = Orchestrator::new();
    let sess = session("456", false, true, true);
    let r = orch.join(&sess, &request("123", "foo", false, None, None));
    assert_eq!(r.unwrap_err(), Error::ChatTransportMissing);
    assert!(orch.recorded(&"foo".to_string()).is_none());
}

#[test]
fn moderator_broadcaster_join_submits_one_23_entry_batch_and_joins_chat() {
    let mut orch = Orchestrator::new();
    let sess = session("123", true, true, false);
    let plan = orch
        .join(&sess, &request("123", "foo", true, None, None))
        .unwrap();
    assert_eq!(plan.chat_login, "foo");
    let batch = plan.eventsub.expect("event service is configured");
    assert_eq!(batch.len(), 23);
    let expected = compute(
        &ChannelIdentity { broadcaster_id: "123".to_string(), login: "foo".to_string() },
        &ActorContext { user_id: "123".to_string(), is_moderator: true },
    );
    assert_eq!(batch, expected);
    assert!(plan.cosmetics.is_none());
    assert_eq!(orch.recorded(&"foo".to_string()).unwrap(), &expected);
}

#[test]
fn viewer_join_with_emote_set_gets_three_cosmetics_calls_and_no_user_update() {
    let mut orch = Orchestrator::new();
    let sess = session("456", true, false, true);
    let plan = orch
        .join(&sess, &request("123", "foo", false, Some("ab12"), None))
        .unwrap();
    assert!(plan.eventsub.is_none());
    let cosmetics = plan.cosmetics.expect("cosmetics service is configured");
    assert_eq!(cosmetics.len(), 3);
    assert!(!cosmetics
        .iter()
        .any(|r| r.topic == chat_subs::types::CosmeticsTopic::UserUpdate));
    assert!(orch.recorded(&"foo".to_string()).is_none());
}

#[test]
fn join_replaces_the_prior_ledger_record() {
    let mut orch = Orchestrator::new();
    let login = "foo".to_string();
    orch.join(&session("123", true, true, false), &request("123", "foo", true, None, None))
        .unwrap();
    assert_eq!(orch.recorded(&login).unwrap().len(), 23);
    orch.join(&session("456", true, true, false), &request("123", "foo", false, None, None))
        .unwrap();
    assert_eq!(orch.recorded(&login).unwrap().len(), 6);
}

#[test]
fn leave_propagates_unsubscribe_failure_and_keeps_everything() {
    let mut orch = Orchestrator::new();
    let login = "foo".to_string();
    let sess = session("123", true, true, true);
    orch.join(&sess, &request("123", "foo", true, None, None)).unwrap();
    let r = orch.leave(&sess, &login, EventSubOutcome::Failed("boom".to_string()));
    assert_eq!(r.unwrap_err(), Error::SubscriptionFailure("boom".to_string()));
    // The chat part is never reached: no actions were returned, and the
    // ledger still holds the channel.
    assert!(orch.recorded(&login).is_some());
}

#[test]
fn successful_leave_clears_the_ledger_and_hands_back_the_remaining_steps() {
    let mut orch = Orchestrator::new();
    let login = "foo".to_string();
    let sess = session("123", true, true, true);
    let plan = orch.join(&sess, &request("123", "foo", true, None, None)).unwrap();
    let actions = orch
        .leave(&sess, &login, EventSubOutcome::TornDown(plan.eventsub.unwrap()))
        .unwrap();
    assert!(actions.teardown_cosmetics);
    assert!(actions.part_chat);
    assert!(orch.recorded(&login).is_none());
}

#[test]
fn leave_without_eventsub_still_parts_chat() {
    let mut orch = Orchestrator::new();
    let login = "foo".to_string();
    let sess = session("123", true, false, false);
    let actions = orch.leave(&sess, &login, EventSubOutcome::NotConfigured).unwrap();
    assert!(actions.part_chat);
    assert!(!actions.teardown_cosmetics);
}

#[test]
fn rejoin_replays_exactly_the_torn_down_set() {
    let orch = Orchestrator::new();
    let login = "foo".to_string();
    let torn_down = compute(
        &ChannelIdentity { broadcaster_id: "123".to_string(), login: "foo".to_string() },
        &ActorContext { user_id: "123".to_string(), is_moderator: true },
    );
    let expected = compute(
        &ChannelIdentity { broadcaster_id: "123".to_string(), login: "foo".to_string() },
        &ActorContext { user_id: "123".to_string(), is_moderator: true },
    );
    let plan = orch.rejoin(&login, EventSubOutcome::TornDown(torn_down)).unwrap();
    assert_eq!(plan.chat_login, "foo");
    assert_eq!(plan.resubscribe.unwrap(), expected);
}

#[test]
fn rejoin_propagates_unsubscribe_failure() {
    let orch = Orchestrator::new();
    let r = orch.rejoin(&"foo".to_string(), EventSubOutcome::Failed("down".to_string()));
    assert_eq!(r.unwrap_err(), Error::SubscriptionFailure("down".to_string()));
}

#[test]
fn rejoin_without_eventsub_degrades_to_chat_only() {
    let orch = Orchestrator::new();
    let plan = orch.rejoin(&"foo".to_string(), EventSubOutcome::NotConfigured).unwrap();
    assert_eq!(plan.chat_login, "foo");
    assert!(plan.resubscribe.is_none());
}

#[test]
fn leave_then_rejoin_degrades_to_chat_only_without_crashing() {
    let mut orch = Orchestrator::new();
    let login = "foo".to_string();
    let sess = session("123", true, true, false);
    let plan = orch.join(&sess, &request("123", "foo", true, None, None)).unwrap();
    orch.leave(&sess, &login, EventSubOutcome::TornDown(plan.eventsub.unwrap()))
        .unwrap();
    // The service now holds nothing and the ledger record is gone, so the
    // rejoin has nothing to replay.
    let plan = orch.rejoin(&login, EventSubOutcome::TornDown(Vec::new())).unwrap();
    assert_eq!(plan.resubscribe.unwrap(), Vec::new());
}

#[test]
fn rejoin_falls_back_to_the_ledger_when_the_service_returns_nothing() {
    let mut orch = Orchestrator::new();
    let login = "foo".to_string();
    let sess = session("456", true, true, false);
    orch.join(&sess, &request("123", "foo", false, None, None)).unwrap();
    let recorded = orch.recorded(&login).unwrap().clone();
    let plan = orch.rejoin(&login, EventSubOutcome::TornDown(Vec::new())).unwrap();
    assert_eq!(plan.resubscribe.unwrap(), recorded);
}

#[test]
fn rejoin_commit_replaces_the_ledger_record() {
    let mut orch = Orchestrator::new();
    let login = "foo".to_string();
    let entries = compute(
        &ChannelIdentity { broadcaster_id: "123".to_string(), login: "foo".to_string() },
        &ActorContext { user_id: "456".to_string(), is_moderator: false },
    );
    orch.rejoin_commit(&login, entries);
    assert_eq!(orch.recorded(&login).unwrap().len(), 6);
}

#[test]
fn get_access_token_reports_presence_and_absence() {
    let sess = session("123", true, true, true);
    assert_eq!(get_access_token(&sess).unwrap().user_id, "123");
    let empty = SessionSnapshot { token: None, has_chat: true, has_eventsub: true, has_cosmetics: true };
    assert_eq!(get_access_token(&empty).unwrap_err(), Error::AccessTokenMissing);
}

#[test]
fn failed_token_exchange_returns_nothing_and_clears_the_stored_token() {
    let mut sess = session("123", true, true, true);
    let info = set_access_token(&mut sess, None);
    assert!(info.is_none());
    assert!(sess.token.is_none());
}

#[test]
fn successful_token_exchange_stores_the_token_and_reports_it() {
    let mut sess = SessionSnapshot { token: None, has_chat: true, has_eventsub: false, has_cosmetics: false };
    let info = set_access_token(&mut sess, Some(token("123"))).unwrap();
    assert_eq!(info.user_id().as_str(), "123");
    assert_eq!(info.access_token().as_str(), "tok-9f3b");
    assert_eq!(sess.token.as_ref().unwrap().user_id, "123");
}

#[test]
fn fetch_user_emotes_targets_the_token_user_or_nobody() {
    let sess = session("123", true, true, true);
    assert_eq!(chat_subs::session::fetch_user_emotes(&sess).unwrap().as_str(), "123");
    let empty = SessionSnapshot { token: None, has_chat: false, has_eventsub: false, has_cosmetics: false };
    assert!(chat_subs::session::fetch_user_emotes(&empty).is_none());
}

#[test]
fn response_carries_its_payload() {
    let r = chat_subs::Response { data: vec![1u32, 2, 3] };
    assert_eq!(r.data.len(), 3);
}
