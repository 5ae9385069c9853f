//! The event relay: topic subscriptions on the push channel, and the mapping
//! from a delivered push message to the one named UI event it produces.
//!
//! The relay never looks inside a message's payload: routing goes by the
//! topic alone, and the payload is handed on unchanged. Delivery to the UI
//! boundary, like the push channel itself, is I/O and happens outside the
//! library.

use vstd::prelude::*;

use crate::text::str_eq;

verus! {

/// One topic subscription: a push-channel topic paired with the name of the
/// UI event its messages are republished under.
pub struct Subscription {
    pub topic: String,
    pub event: String,
}

/// The relay's subscription table, in registration order.
pub struct Relay {
    pub subs: Vec<Subscription>,
}

/// The index of the first subscription whose topic equals `topic`, or `None`
/// when no subscription matches.
pub open spec fn spec_route(subs: Seq<Subscription>, topic: Seq<char>) -> Option<int>
    decreases subs.len(),
{
    if subs.len() == 0 {
        None
    } else if subs[0].topic@ == topic {
        Some(0)
    } else {
        match spec_route(subs.drop_first(), topic) {
            None => None,
            Some(i) => Some(i + 1),
        }
    }
}

/// What [`spec_route`] finds: a match is in bounds, matches the topic, and is
/// the first to do so; `None` means nothing matches.
pub proof fn lemma_route_characterization(subs: Seq<Subscription>, topic: Seq<char>)
    ensures
        match spec_route(subs, topic) {
            Some(i) => 0 <= i < subs.len() && subs[i].topic@ == topic && (forall|j: int|
                0 <= j < i ==> subs[j].topic@ != topic),
            None => forall|j: int| 0 <= j < subs.len() ==> subs[j].topic@ != topic,
        },
    decreases subs.len(),
{
    if subs.len() > 0 {
        let rest = subs.drop_first();
        lemma_route_characterization(rest, topic);
        if subs[0].topic@ != topic {
            match spec_route(rest, topic) {
                Some(i) => {
                    assert(subs[i + 1] == rest[i]);
                    assert forall|j: int| 0 <= j < i + 1 implies subs[j].topic@ != topic by {
                        if j > 0 {
                            assert(rest[j - 1] == subs[j]);
                        }
                    }
                },
                None => {
                    assert forall|j: int| 0 <= j < subs.len() implies subs[j].topic@ != topic by {
                        if j > 0 {
                            assert(rest[j - 1] == subs[j]);
                        }
                    }
                },
            }
        }
    }
}

impl Relay {
    /// An empty relay: no topic is subscribed.
    pub fn new() -> (r: Relay)
        ensures
            r.subs@.len() == 0,
    {
        Relay { subs: Vec::new() }
    }

    /// Register one subscription at the end of the table.
    pub fn subscribe(&mut self, topic: String, event: String)
        ensures
            final(self).subs@ == old(self).subs@.push(
                (Subscription { topic: topic, event: event }),
            ),
    {
        self.subs.push(Subscription { topic, event });
    }

    /// The index of the subscription a message on `topic` is routed to:
    /// the first whose topic matches, or `None` when the topic is not
    /// subscribed.
    pub fn route(&self, topic: &str) -> (r: Option<usize>)
        ensures
            r is Some <==> spec_route(self.subs@, topic@) is Some,
            r matches Some(i) ==> spec_route(self.subs@, topic@) == Some(i as int),
    {
        let n = self.subs.len();
        let mut i: usize = 0;
        while i < n
            invariant
                i <= n,
                n == self.subs@.len(),
                forall|j: int| 0 <= j < i ==> self.subs@[j].topic@ != topic@,
            decreases n - i,
        {
            if str_eq(self.subs[i].topic.as_str(), topic) {
                proof {
                    lemma_route_characterization(self.subs@, topic@);
                }
                return Some(i);
            }
            i += 1;
        }
        proof {
            lemma_route_characterization(self.subs@, topic@);
        }
        None
    }

    /// Turn one delivered push message into the one UI event it produces:
    /// the event name of the first matching subscription, carrying the
    /// message's payload unchanged — or nothing, when the topic is not
    /// subscribed.
    pub fn deliver<V>(&self, topic: &str, payload: V) -> (r: Option<(String, V)>)
        ensures
            r is Some <==> spec_route(self.subs@, topic@) is Some,
            r matches Some((name, p)) ==> {
                &&& spec_route(self.subs@, topic@) matches Some(i) && name@
                    == self.subs@[i].event@
                &&& p == payload
            },
    {
        match self.route(topic) {
            Some(i) => {
                proof {
                    lemma_route_characterization(self.subs@, topic@);
                }
                Some((self.subs[i].event.clone(), payload))
            },
            None => None,
        }
    }
}

/// Law: when the subscribed topics are pairwise distinct, a message on a
/// subscribed topic is routed to exactly that subscription — no other and no
/// duplicate.
pub proof fn lemma_route_subscribed(subs: Seq<Subscription>, topic: Seq<char>, i: int)
    requires
        0 <= i < subs.len(),
        subs[i].topic@ == topic,
        forall|j: int, k: int| 0 <= j < k < subs.len() ==> subs[j].topic@ != subs[k].topic@,
    ensures
        spec_route(subs, topic) == Some(i),
{
    lemma_route_characterization(subs, topic);
}

/// The fixed subscription table of the companion: champion-select and
/// game-flow session updates, republished as the `champ-select` and
/// `gameflow` UI events. It is built anew on every reconnect; subscriptions
/// never survive a disconnect.
pub fn default_subscriptions() -> (r: Relay)
    ensures
        r.subs@.len() == 2,
        r.subs@[0].topic@ == "/lol-champ-select/v1/session"@,
        r.subs@[0].event@ == "champ-select"@,
        r.subs@[1].topic@ == "/lol-gameflow/v1/session"@,
        r.subs@[1].event@ == "gameflow"@,
        r.subs@[0].topic@ != r.subs@[1].topic@,
{
    proof {
        reveal_strlit("/lol-champ-select/v1/session");
        reveal_strlit("/lol-gameflow/v1/session");
    }
    let mut relay = Relay::new();
    relay.subscribe(
        String::from_str("/lol-champ-select/v1/session"),
        String::from_str("champ-select"),
    );
    relay.subscribe(String::from_str("/lol-gameflow/v1/session"), String::from_str("gameflow"));
    proof {
        assert("/lol-champ-select/v1/session"@.len() == 28);
        assert("/lol-gameflow/v1/session"@.len() == 24);
    }
    relay
}

} // verus!
