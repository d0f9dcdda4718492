//! The subscription ledger: the per-channel record of the event-service
//! subscriptions last submitted for a channel, sufficient to replay them
//! verbatim on a rejoin.  It maps a channel's login to an ordered sequence
//! of entries; a record is replaced wholesale on join and rejoin and removed
//! entirely on leave.

use vstd::prelude::*;

use crate::types::clone_entries;
use crate::types::EntryV;
use crate::types::EventSubscriptionEntry;

verus! {

/// Looks a login up in an association list, the most recent binding winning.
spec fn lookup(s: Seq<(String, Vec<EventSubscriptionEntry>)>, login: Seq<char>) -> Option<
    Seq<EntryV>,
>
    decreases s.len(),
{
    if s.len() == 0 {
        None
    } else if s.last().0@ == login {
        Some(s.last().1.deep_view())
    } else {
        lookup(s.drop_last(), login)
    }
}

/// The per-channel record of currently-active webhook subscriptions, viewed
/// as a map from login to the entry sequence last recorded for it.
pub struct SubscriptionLedger {
    records: Vec<(String, Vec<EventSubscriptionEntry>)>,
}

impl View for SubscriptionLedger {
    type V = Map<Seq<char>, Seq<EntryV>>;

    closed spec fn view(&self) -> Map<Seq<char>, Seq<EntryV>> {
        Map::new(
            |login: Seq<char>| lookup(self.records@, login) is Some,
            |login: Seq<char>| lookup(self.records@, login).unwrap(),
        )
    }
}

impl SubscriptionLedger {
    /// An empty ledger: no channel has a record.
    pub fn new() -> (l: SubscriptionLedger)
        ensures
            l@ == Map::<Seq<char>, Seq<EntryV>>::empty(),
    {
        let l = SubscriptionLedger { records: Vec::new() };
        proof {
            assert(l@ =~= Map::<Seq<char>, Seq<EntryV>>::empty());
        }
        l
    }

    /// Removes the channel's record, if any; every other channel's record is
    /// kept.
    pub fn clear(&mut self, login: &String)
        ensures
            final(self)@ == old(self)@.remove(login@),
    {
        let n: usize = self.records.len();
        let mut kept: Vec<(String, Vec<EventSubscriptionEntry>)> = Vec::new();
        let mut i: usize = 0;
        while i < n
            invariant
                i <= n == self.records@.len(),
                forall|k: Seq<char>|
                    #[trigger] lookup(kept@, k) == if k == login@ {
                        None::<Seq<EntryV>>
                    } else {
                        lookup(self.records@.take(i as int), k)
                    },
            decreases n - i,
        {
            let pair = &self.records[i];
            let ghost prev_kept = kept@;
            if !(pair.0 == *login) {
                kept.push((pair.0.clone(), clone_entries(&pair.1)));
            }
            proof {
                let next = self.records@.take(i as int + 1);
                assert(next.drop_last() =~= self.records@.take(i as int));
                assert(next.last() == self.records@[i as int]);
                if pair.0@ != login@ {
                    assert(kept@.drop_last() =~= prev_kept);
                    assert(kept@.last().0@ == self.records@[i as int].0@);
                    assert(kept@.last().1.deep_view() =~= self.records@[i as int].1.deep_view());
                }
                assert forall|k: Seq<char>|
                    #[trigger] lookup(kept@, k) == if k == login@ {
                        None::<Seq<EntryV>>
                    } else {
                        lookup(next, k)
                    } by {
                    if pair.0@ == login@ {
                        if k != login@ {
                            assert(lookup(next, k) == lookup(next.drop_last(), k));
                        }
                    } else {
                        if k == kept@.last().0@ {
                            assert(lookup(kept@, k) == Some(kept@.last().1.deep_view()));
                            assert(lookup(next, k) == Some(next.last().1.deep_view()));
                        } else {
                            assert(lookup(kept@, k) == lookup(prev_kept, k));
                            if k != login@ {
                                assert(lookup(next, k) == lookup(next.drop_last(), k));
                            }
                        }
                    }
                };
            }
            i = i + 1;
        }
        proof {
            assert(self.records@.take(n as int) =~= self.records@);
        }
        self.records = kept;
        proof {
            assert(self@ =~= old(self)@.remove(login@));
        }
    }

    /// Replaces the channel's record wholesale with the given entries.
    pub fn record(&mut self, login: &String, entries: Vec<EventSubscriptionEntry>)
        ensures
            final(self)@ == old(self)@.insert(login@, entries.deep_view()),
    {
        self.clear(login);
        let ghost cleared = self.records@;
        let ghost mid = self@;
        let ghost entries_view = entries.deep_view();
        self.records.push((login.clone(), entries));
        proof {
            assert(self.records@.drop_last() =~= cleared);
            assert(self.records@.last().0@ == login@);
            assert(self.records@.last().1.deep_view() =~= entries_view);
            let ghost result = old(self)@.insert(login@, entries_view);
            assert forall|k: Seq<char>|
                #[trigger] self@.contains_key(k) == result.contains_key(k) && (
                self@.contains_key(k) ==> self@[k] == result[k]) by {
                if k == login@ {
                    assert(lookup(self.records@, k) == Some(self.records@.last().1.deep_view()));
                    assert(self@.contains_key(k) && self@[k] == entries_view);
                } else {
                    assert(lookup(self.records@, k) == lookup(cleared, k));
                    assert(mid.contains_key(k) == (lookup(cleared, k) is Some));
                    assert(self@.contains_key(k) == mid.contains_key(k));
                    if mid.contains_key(k) {
                        assert(mid[k] == lookup(cleared, k).unwrap());
                        assert(self@[k] == mid[k]);
                        assert(result[k] == old(self)@.remove(login@)[k]);
                    }
                }
            };
            assert(self@ =~= result);
        }
    }

    /// Returns the channel's recorded entries, or `None` when the channel
    /// has no record.
    pub fn get(&self, login: &String) -> (r: Option<&Vec<EventSubscriptionEntry>>)
        ensures
            match r {
                Some(entries) => self@.contains_key(login@) && entries.deep_view() == self@[login@],
                None => !self@.contains_key(login@),
            },
    {
        let n: usize = self.records.len();
        let mut i: usize = n;
        proof {
            assert(self.records@.take(n as int) =~= self.records@);
        }
        while i > 0
            invariant
                i <= n == self.records@.len(),
                lookup(self.records@, login@) == lookup(self.records@.take(i as int), login@),
            decreases i,
        {
            let j: usize = i - 1;
            let pair = &self.records[j];
            proof {
                assert(self.records@.take(i as int).drop_last() =~= self.records@.take(j as int));
                assert(self.records@.take(i as int).last() == self.records@[j as int]);
            }
            if pair.0 == *login {
                return Some(&pair.1);
            }
            i = j;
        }
        proof {
            assert(self.records@.take(0) =~= Seq::<(String, Vec<EventSubscriptionEntry>)>::empty());
        }
        None
    }
}

} // verus!
