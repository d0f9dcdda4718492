//! The orchestration protocol for join, leave and rejoin across the three
//! event sources.  The orchestrator owns the subscription ledger and makes
//! every decision; the surrounding application performs the network calls
//! and feeds their outcomes back in.
//!
//! Join is asymmetric by design: the chat join is issued whatever becomes of
//! the event-service and cosmetics fan-out, whose failures are logged and
//! swallowed.  Leave is strict: a failed event-service unsubscribe fails the
//! call before the chat part is reached.  Rejoin replays the set the event
//! service reports torn down — not the recomputed policy — so the privilege
//! context of the original join is preserved.

use vstd::prelude::*;
use vstd::multiset::Multiset;

use crate::error::Error;
use crate::ledger::SubscriptionLedger;
use crate::policy;
use crate::session::SessionSnapshot;
use crate::types::clone_entries;
use crate::types::ActorContext;
use crate::types::ChannelIdentity;
use crate::types::CosmeticsRequest;
use crate::types::CosmeticsScope;
use crate::types::EntryV;
use crate::types::EventSubscriptionEntry;

verus! {

/// A join request as the invoking shell hands it over: the channel's stable
/// id and login, the caller-supplied moderator flag, and the optional
/// cosmetics scope (emote-set id and cosmetics user id).
#[derive(Debug)]
pub struct JoinRequest {
    pub id: String,
    pub login: String,
    pub is_mod: bool,
    pub set_id: Option<String>,
    pub stv_id: Option<String>,
}

/// What a join must do: always join the chat transport; submit the batched
/// event-service set iff that provider is configured; issue the cosmetics
/// subscriptions iff that provider is configured.  The two provider batches
/// are dispatched as one detached best-effort unit whose failures are logged
/// and never fail the join.
#[derive(Debug)]
pub struct JoinPlan {
    pub chat_login: String,
    pub eventsub: Option<Vec<EventSubscriptionEntry>>,
    pub cosmetics: Option<Vec<CosmeticsRequest>>,
}

/// The outcome of an event-service unsubscribe, as the application reports
/// it back: the provider was never configured, the teardown succeeded and
/// returned the entries actually removed, or the call failed with the
/// service's message.
#[derive(Debug)]
pub enum EventSubOutcome {
    NotConfigured,
    TornDown(Vec<EventSubscriptionEntry>),
    Failed(String),
}

/// What remains to do after a leave's strict unsubscribe succeeded: tear the
/// cosmetics subscriptions down (best-effort) iff that provider is present,
/// then part the chat transport iff it is present.
#[derive(Debug)]
pub struct LeaveActions {
    pub teardown_cosmetics: bool,
    pub part_chat: bool,
}

/// What a rejoin must do: resubmit exactly the given entries to the event
/// service (none when that provider holds nothing to replay — the rejoin
/// degrades to a plain chat join), then rejoin the chat transport.
#[derive(Debug)]
pub struct RejoinPlan {
    pub chat_login: String,
    pub resubscribe: Option<Vec<EventSubscriptionEntry>>,
}

/// The set a rejoin replays: the entries the event service reports torn
/// down; when that set is empty but a local record exists, the ledger's
/// record serves as the fallback.
pub open spec fn replay_entries(fetched: Seq<EntryV>, recorded: Option<Seq<EntryV>>) -> Seq<
    EntryV,
> {
    if fetched.len() == 0 && recorded is Some && recorded.unwrap().len() > 0 {
        recorded.unwrap()
    } else {
        fetched
    }
}

/// The join/leave/rejoin orchestrator.  It owns the per-channel subscription
/// ledger; its view is the ledger's map from login to recorded entries.
pub struct Orchestrator {
    ledger: SubscriptionLedger,
}

impl View for Orchestrator {
    type V = Map<Seq<char>, Seq<EntryV>>;

    closed spec fn view(&self) -> Map<Seq<char>, Seq<EntryV>> {
        self.ledger@
    }
}

impl Orchestrator {
    /// A fresh orchestrator: no channel has a recorded subscription set.
    pub fn new() -> (r: Orchestrator)
        ensures
            r@ == Map::<Seq<char>, Seq<EntryV>>::empty(),
    {
        Orchestrator { ledger: SubscriptionLedger::new() }
    }

    /// Decides a join.  Fails before any work when the token or the chat
    /// transport is missing.  Otherwise the plan joins the chat under the
    /// requested login and carries the policy-computed batch for each
    /// configured provider; the event-service batch is recorded in the
    /// ledger, replacing the channel's prior record.
    pub fn join(&mut self, session: &SessionSnapshot, req: &JoinRequest) -> (r: Result<
        JoinPlan,
        Error,
    >)
        ensures
            session.token is None ==> r == Err::<JoinPlan, Error>(Error::AccessTokenMissing)
                && final(self)@ == old(self)@,
            session.token is Some && !session.has_chat ==> r == Err::<JoinPlan, Error>(
                Error::ChatTransportMissing,
            ) && final(self)@ == old(self)@,
            session.token is Some && session.has_chat ==> ({
                let user = session.token->Some_0.user_id@;
                let entries = policy::full_policy(req.id@, user, req.is_mod);
                &&& r is Ok
                &&& r->Ok_0.chat_login@ == req.login@
                &&& (r->Ok_0.eventsub is Some <==> session.has_eventsub)
                &&& (session.has_eventsub ==> r->Ok_0.eventsub->Some_0.deep_view() == entries)
                &&& (r->Ok_0.cosmetics is Some <==> session.has_cosmetics)
                &&& (session.has_cosmetics ==> r->Ok_0.cosmetics->Some_0.deep_view()
                    == policy::cosmetics_policy(
                    req.id@,
                    req.set_id.deep_view(),
                    req.stv_id.deep_view(),
                ))
                &&& final(self)@ == if session.has_eventsub {
                    old(self)@.insert(req.login@, entries)
                } else {
                    old(self)@
                }
            }),
    {
        let token = match crate::session::get_access_token(session) {
            Ok(t) => t,
            Err(e) => {
                return Err(e);
            },
        };
        if !session.has_chat {
            return Err(Error::ChatTransportMissing);
        }
        let identity = ChannelIdentity {
            broadcaster_id: req.id.clone(),
            login: req.login.clone(),
        };
        let actor = ActorContext { user_id: token.user_id.clone(), is_moderator: req.is_mod };
        let eventsub = if session.has_eventsub {
            let entries = policy::compute(&identity, &actor);
            self.ledger.record(&req.login, clone_entries(&entries));
            Some(entries)
        } else {
            None
        };
        let cosmetics = if session.has_cosmetics {
            let scope = CosmeticsScope {
                emote_set_id: clone_opt_string(&req.set_id),
                cosmetics_user_id: clone_opt_string(&req.stv_id),
            };
            Some(policy::compute_cosmetics(&identity, &scope))
        } else {
            None
        };
        Ok(JoinPlan { chat_login: req.login.clone(), eventsub, cosmetics })
    }

    /// Decides a leave, given the outcome of the strict event-service
    /// unsubscribe that must come first.  A failed unsubscribe fails the
    /// leave — webhook subscriptions must never leak silently — and nothing
    /// further is done: no cosmetics teardown, no chat part, ledger kept.
    /// Otherwise the channel's ledger record is cleared and the remaining
    /// best-effort actions are returned.
    pub fn leave(&mut self, session: &SessionSnapshot, login: &String, unsubscribe: EventSubOutcome)
        -> (r: Result<LeaveActions, Error>)
        requires
            (unsubscribe is NotConfigured) == !session.has_eventsub,
        ensures
            unsubscribe matches EventSubOutcome::Failed(m) ==> r == Err::<LeaveActions, Error>(
                Error::SubscriptionFailure(m),
            ) && final(self)@ == old(self)@,
            !(unsubscribe is Failed) ==> ({
                &&& r is Ok
                &&& r->Ok_0.teardown_cosmetics == session.has_cosmetics
                &&& r->Ok_0.part_chat == session.has_chat
                &&& final(self)@ == old(self)@.remove(login@)
            }),
    {
        match unsubscribe {
            EventSubOutcome::Failed(m) => Err(Error::SubscriptionFailure(m)),
            _ => {
                self.ledger.clear(login);
                Ok(
                    LeaveActions {
                        teardown_cosmetics: session.has_cosmetics,
                        part_chat: session.has_chat,
                    },
                )
            },
        }
    }

    /// Decides a rejoin, given the outcome of the event-service unsubscribe
    /// whose returned set is the source of truth for what was active.  A
    /// failed unsubscribe fails the rejoin.  An unconfigured provider
    /// degrades the rejoin to a plain chat join.  Otherwise the plan
    /// resubmits exactly the torn-down set — falling back to the ledger's
    /// record when the service returned nothing but a record exists — and
    /// rejoins the chat only after that replay succeeds.
    pub fn rejoin(&self, login: &String, fetched: EventSubOutcome) -> (r: Result<RejoinPlan, Error>)
        ensures
            fetched matches EventSubOutcome::Failed(m) ==> r == Err::<RejoinPlan, Error>(
                Error::SubscriptionFailure(m),
            ),
            fetched is NotConfigured ==> ({
                &&& r is Ok
                &&& r->Ok_0.chat_login@ == login@
                &&& r->Ok_0.resubscribe is None
            }),
            fetched matches EventSubOutcome::TornDown(entries) ==> ({
                &&& r is Ok
                &&& r->Ok_0.chat_login@ == login@
                &&& r->Ok_0.resubscribe is Some
                &&& r->Ok_0.resubscribe->Some_0.deep_view() == replay_entries(
                    entries.deep_view(),
                    if self@.contains_key(login@) {
                        Some(self@[login@])
                    } else {
                        None::<Seq<EntryV>>
                    },
                )
            }),
    {
        match fetched {
            EventSubOutcome::Failed(m) => Err(Error::SubscriptionFailure(m)),
            EventSubOutcome::NotConfigured => Ok(
                RejoinPlan { chat_login: login.clone(), resubscribe: None },
            ),
            EventSubOutcome::TornDown(entries) => {
                let resub = if entries.len() == 0 {
                    match self.ledger.get(login) {
                        Some(rec) => {
                            if rec.len() > 0 {
                                clone_entries(rec)
                            } else {
                                entries
                            }
                        },
                        None => entries,
                    }
                } else {
                    entries
                };
                Ok(RejoinPlan { chat_login: login.clone(), resubscribe: Some(resub) })
            },
        }
    }

    /// Records the set a rejoin just replayed, replacing the channel's
    /// ledger record, once the event service accepted it.
    pub fn rejoin_commit(&mut self, login: &String, entries: Vec<EventSubscriptionEntry>)
        ensures
            final(self)@ == old(self)@.insert(login@, entries.deep_view()),
    {
        self.ledger.record(login, entries);
    }

    /// The channel's recorded entries, or `None` when the channel has no
    /// record.
    pub fn recorded(&self, login: &String) -> (r: Option<&Vec<EventSubscriptionEntry>>)
        ensures
            match r {
                Some(entries) => self@.contains_key(login@) && entries.deep_view() == self@[login@],
                None => !self@.contains_key(login@),
            },
    {
        self.ledger.get(login)
    }
}

/// Copies an optional string, keeping it equal.
fn clone_opt_string(o: &Option<String>) -> (r: Option<String>)
    ensures
        r == *o,
{
    match o {
        Some(s) => Some(s.clone()),
        None => None,
    }
}

/// Abstract state of the webhook event service: the multiset of entries it
/// holds for a channel.  Per the collaborator contract, `unsubscribe_all`
/// tears the channel's whole set down and returns it, and `subscribe_all`
/// adds a batch; a multiset, because the remote set carries no order.
pub open spec fn remote_entries(
    remote: Map<Seq<char>, Multiset<EntryV>>,
    login: Seq<char>,
) -> Multiset<EntryV> {
    if remote.contains_key(login) {
        remote[login]
    } else {
        Multiset::empty()
    }
}

/// The event service's state after `unsubscribe_all` for a channel: the
/// channel holds nothing.
pub open spec fn remote_after_unsubscribe(
    remote: Map<Seq<char>, Multiset<EntryV>>,
    login: Seq<char>,
) -> Map<Seq<char>, Multiset<EntryV>> {
    remote.insert(login, Multiset::empty())
}

/// The event service's state after a batched `subscribe_all` for a channel:
/// the batch is added to whatever the channel held.
pub open spec fn remote_after_subscribe(
    remote: Map<Seq<char>, Multiset<EntryV>>,
    login: Seq<char>,
    batch: Multiset<EntryV>,
) -> Map<Seq<char>, Multiset<EntryV>> {
    remote.insert(login, remote_entries(remote, login).add(batch))
}

/// Law: rejoin is idempotent with respect to the remote subscription set.
/// Whatever set the event service holds for the channel, tearing it down and
/// resubmitting the replay set leaves the service exactly where it was —
/// order-independent, and independent of any privilege change since the
/// original join.  The one excluded corner: the service holds nothing while
/// the ledger still has a non-empty record, where the replay deliberately
/// restores the recorded set instead.
pub proof fn lemma_rejoin_restores_remote(
    remote: Map<Seq<char>, Multiset<EntryV>>,
    login: Seq<char>,
    fetched: Seq<EntryV>,
    recorded: Option<Seq<EntryV>>,
)
    requires
        remote.contains_key(login),
        fetched.to_multiset() == remote[login],
        fetched.len() > 0 || recorded is None || recorded.unwrap().len() == 0,
    ensures
        remote_after_subscribe(
            remote_after_unsubscribe(remote, login),
            login,
            replay_entries(fetched, recorded).to_multiset(),
        ) == remote,
{
    let replay = replay_entries(fetched, recorded);
    assert(replay == fetched);
    let after_unsub = remote_after_unsubscribe(remote, login);
    assert(remote_entries(after_unsub, login) =~= Multiset::<EntryV>::empty());
    assert(Multiset::<EntryV>::empty().add(fetched.to_multiset()) =~= fetched.to_multiset());
    assert(remote_after_subscribe(after_unsub, login, replay.to_multiset()) =~= remote);
}

/// Law: a leave followed by a rejoin on the same channel, with no
/// intervening join, has nothing to replay.  After the leave the event
/// service holds no entries for the channel and the ledger holds no record,
/// so the set the service then reports torn down is empty, the replay set is
/// empty, and the rejoin degrades to a plain chat join — it cannot fail for
/// want of entries and cannot resurrect any.
pub proof fn lemma_leave_then_rejoin_degrades(
    remote: Map<Seq<char>, Multiset<EntryV>>,
    login: Seq<char>,
    fetched: Seq<EntryV>,
)
    requires
        remote_entries(remote, login).len() == 0,
        fetched.to_multiset() == remote_entries(remote, login),
    ensures
        fetched.len() == 0,
        replay_entries(fetched, None) == fetched,
        replay_entries(fetched, None).len() == 0,
{
    fetched.to_multiset_ensures();
}

} // verus!
