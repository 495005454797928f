use vstd::prelude::*;

use crate::mode::SubscribeMode;

verus! {

/// No topic occurs twice in a list of subscriptions.
pub open spec fn topics_distinct(s: Seq<(String, SubscribeMode)>) -> bool {
    forall|i: int, j: int|
        0 <= i < s.len() && 0 <= j < s.len() && i != j ==> (#[trigger] s[i]).0@ != (#[trigger] s[j]).0@
}

/// The list holds an entry for `topic`.
pub open spec fn lists_topic(s: Seq<(String, SubscribeMode)>, topic: Seq<char>) -> bool {
    exists|i: int| 0 <= i < s.len() && (#[trigger] s[i]).0@ == topic
}

/// The map from topic to mode that a list of subscriptions describes.
pub open spec fn subscription_map(s: Seq<(String, SubscribeMode)>) -> Map<Seq<char>, SubscribeMode> {
    Map::new(
        |topic: Seq<char>| lists_topic(s, topic),
        |topic: Seq<char>| s[choose|i: int| 0 <= i < s.len() && (#[trigger] s[i]).0@ == topic].1,
    )
}

/// In a list without repeated topics, entry `i` is what the map holds for its topic.
pub proof fn lemma_subscription_map_at(s: Seq<(String, SubscribeMode)>, i: int)
    requires
        topics_distinct(s),
        0 <= i < s.len(),
    ensures
        subscription_map(s).contains_key(s[i].0@),
        subscription_map(s)[s[i].0@] == s[i].1,
{
    let topic = s[i].0@;
    assert(lists_topic(s, topic));
    let j = choose|j: int| 0 <= j < s.len() && (#[trigger] s[j]).0@ == topic;
    assert(s[j].0@ == topic);
    assert(j == i);
}

/// A list without repeated topics has as many entries as its map has topics.
pub proof fn lemma_subscription_map_len(s: Seq<(String, SubscribeMode)>)
    requires
        topics_distinct(s),
    ensures
        subscription_map(s).dom().finite(),
        subscription_map(s).dom().len() == s.len(),
    decreases s.len(),
{
    if s.len() == 0 {
        assert(subscription_map(s).dom() =~= Set::<Seq<char>>::empty());
    } else {
        let init = s.drop_last();
        let last = s.last().0@;
        assert forall|i: int, j: int|
            0 <= i < init.len() && 0 <= j < init.len() && i != j implies (#[trigger] init[i]).0@
            != (#[trigger] init[j]).0@ by {
            assert(init[i] == s[i]);
            assert(init[j] == s[j]);
        }
        lemma_subscription_map_len(init);
        assert forall|topic: Seq<char>|
            #[trigger] subscription_map(s).dom().contains(topic) <==> subscription_map(
                init,
            ).dom().insert(last).contains(topic) by {
            if lists_topic(s, topic) && topic != last {
                let i = choose|i: int| 0 <= i < s.len() && (#[trigger] s[i]).0@ == topic;
                assert(init[i] == s[i]);
            }
            if lists_topic(init, topic) {
                let i = choose|i: int| 0 <= i < init.len() && (#[trigger] init[i]).0@ == topic;
                assert(init[i] == s[i]);
            }
            if topic == last {
                assert(s[s.len() - 1].0@ == last);
            }
        }
        assert(subscription_map(s).dom() =~= subscription_map(init).dom().insert(last));
        if subscription_map(init).dom().contains(last) {
            let i = choose|i: int| 0 <= i < init.len() && (#[trigger] init[i]).0@ == last;
            assert(init[i] == s[i]);
            assert(s[i].0@ == s[s.len() - 1].0@);
        }
    }
}

/// The mode recorded for `topic`, if any.
pub open spec fn tracked_mode(m: Map<Seq<char>, SubscribeMode>, topic: Seq<char>) -> Option<
    SubscribeMode,
> {
    if m.contains_key(topic) {
        Some(m[topic])
    } else {
        None
    }
}

/// Tracks which topics the client is subscribed to, and in which mode, so
/// that the subscriptions can be sent again after a reconnect.
pub struct SubscriptionTracker {
    entries: Vec<(String, SubscribeMode)>,
}

impl View for SubscriptionTracker {
    type V = Map<Seq<char>, SubscribeMode>;

    closed spec fn view(&self) -> Map<Seq<char>, SubscribeMode> {
        subscription_map(self.entries@)
    }
}

impl SubscriptionTracker {
    #[verifier::type_invariant]
    closed spec fn inv(self) -> bool {
        topics_distinct(self.entries@)
    }

    /// Index of the entry for `topic`, if there is one.
    fn find(&self, topic: &String) -> (found: Option<usize>)
        ensures
            match found {
                Some(i) => i < self.entries@.len() && self.entries@[i as int].0@ == topic@,
                None => !lists_topic(self.entries@, topic@),
            },
    {
        let n = self.entries.len();
        let mut i: usize = 0;
        while i < n
            invariant
                n == self.entries@.len(),
                i <= n,
                forall|j: int| 0 <= j < i ==> (#[trigger] self.entries@[j]).0@ != topic@,
            decreases n - i,
        {
            if self.entries[i].0 == *topic {
                return Some(i);
            }
            i = i + 1;
        }
        None
    }

    /// Creates a tracker with no subscriptions.
    pub fn new() -> (tracker: Self)
        ensures
            tracker@ == Map::<Seq<char>, SubscribeMode>::empty(),
    {
        let tracker = SubscriptionTracker { entries: Vec::new() };
        assert(tracker@ =~= Map::<Seq<char>, SubscribeMode>::empty());
        tracker
    }

    /// Records a subscription, or changes the mode of an existing one.
    pub fn add(&mut self, topic: &str, mode: SubscribeMode)
        ensures
            final(self)@ == old(self)@.insert(topic@, mode),
    {
        proof {
            use_type_invariant(&*self);
        }
        let key = String::from_str(topic);
        let ghost before = self.entries@;
        match self.find(&key) {
            Some(i) => {
                let ghost after = before.update(i as int, (key, mode));
                assert forall|a: int, b: int|
                    0 <= a < after.len() && 0 <= b < after.len() && a != b implies (
                    #[trigger] after[a]).0@ != (#[trigger] after[b]).0@ by {
                    assert(before[a].0@ == after[a].0@);
                    assert(before[b].0@ == after[b].0@);
                }
                assert forall|t: Seq<char>|
                    subscription_map(after).contains_key(t) implies subscription_map(
                    before,
                ).insert(topic@, mode).contains_key(t) && subscription_map(after)[t]
                    == subscription_map(before).insert(topic@, mode)[t] by {
                    let j = choose|j: int| 0 <= j < after.len() && (#[trigger] after[j]).0@ == t;
                    lemma_subscription_map_at(after, j);
                    if j != i {
                        assert(after[j] == before[j]);
                        lemma_subscription_map_at(before, j);
                    }
                }
                assert forall|t: Seq<char>|
                    subscription_map(before).insert(topic@, mode).contains_key(
                        t,
                    ) implies subscription_map(after).contains_key(t) by {
                    if t == topic@ {
                        lemma_subscription_map_at(after, i as int);
                    } else {
                        let j = choose|j: int|
                            0 <= j < before.len() && (#[trigger] before[j]).0@ == t;
                        assert(after[j] == before[j]);
                        lemma_subscription_map_at(after, j);
                    }
                }
                let mut entries: Vec<(String, SubscribeMode)> = Vec::new();
                std::mem::swap(&mut entries, &mut self.entries);
                entries.set(i, (key, mode));
                assert(entries@ == after);
                self.entries = entries;
                assert(subscription_map(after) =~= subscription_map(before).insert(topic@, mode));
            },
            None => {
                let ghost after = before.push((key, mode));
                assert forall|a: int, b: int|
                    0 <= a < after.len() && 0 <= b < after.len() && a != b implies (
                    #[trigger] after[a]).0@ != (#[trigger] after[b]).0@ by {
                    if a < before.len() {
                        assert(after[a] == before[a]);
                    }
                    if b < before.len() {
                        assert(after[b] == before[b]);
                    }
                }
                assert forall|t: Seq<char>|
                    subscription_map(after).contains_key(t) implies subscription_map(
                    before,
                ).insert(topic@, mode).contains_key(t) && subscription_map(after)[t]
                    == subscription_map(before).insert(topic@, mode)[t] by {
                    let j = choose|j: int| 0 <= j < after.len() && (#[trigger] after[j]).0@ == t;
                    lemma_subscription_map_at(after, j);
                    if j < before.len() {
                        assert(after[j] == before[j]);
                        lemma_subscription_map_at(before, j);
                    }
                }
                assert forall|t: Seq<char>|
                    subscription_map(before).insert(topic@, mode).contains_key(
                        t,
                    ) implies subscription_map(after).contains_key(t) by {
                    if t == topic@ {
                        lemma_subscription_map_at(after, before.len() as int);
                    } else {
                        let j = choose|j: int|
                            0 <= j < before.len() && (#[trigger] before[j]).0@ == t;
                        assert(after[j] == before[j]);
                        lemma_subscription_map_at(after, j);
                    }
                }
                let mut entries: Vec<(String, SubscribeMode)> = Vec::new();
                std::mem::swap(&mut entries, &mut self.entries);
                entries.push((key, mode));
                self.entries = entries;
                assert(subscription_map(after) =~= subscription_map(before).insert(topic@, mode));
            },
        }
    }

    /// Removes the subscription to `topic`; returns whether there was one.
    pub fn remove(&mut self, topic: &str) -> (existed: bool)
        ensures
            existed == old(self)@.contains_key(topic@),
            final(self)@ == old(self)@.remove(topic@),
    {
        proof {
            use_type_invariant(&*self);
        }
        let key = String::from_str(topic);
        let ghost before = self.entries@;
        match self.find(&key) {
            Some(i) => {
                let ghost after = before.remove(i as int);
                proof {
                    lemma_subscription_map_at(before, i as int);
                }
                assert forall|a: int, b: int|
                    0 <= a < after.len() && 0 <= b < after.len() && a != b implies (
                    #[trigger] after[a]).0@ != (#[trigger] after[b]).0@ by {
                    let a2 = if a < i { a } else { a + 1 };
                    let b2 = if b < i { b } else { b + 1 };
                    assert(after[a] == before[a2]);
                    assert(after[b] == before[b2]);
                }
                assert forall|t: Seq<char>|
                    subscription_map(after).contains_key(t) implies subscription_map(
                    before,
                ).remove(topic@).contains_key(t) && subscription_map(after)[t]
                    == subscription_map(before).remove(topic@)[t] by {
                    let j = choose|j: int| 0 <= j < after.len() && (#[trigger] after[j]).0@ == t;
                    let j2 = if j < i { j } else { j + 1 };
                    assert(after[j] == before[j2]);
                    lemma_subscription_map_at(after, j);
                    lemma_subscription_map_at(before, j2);
                    assert(j2 != i);
                }
                assert forall|t: Seq<char>|
                    subscription_map(before).remove(topic@).contains_key(
                        t,
                    ) implies subscription_map(after).contains_key(t) by {
                    let j = choose|j: int| 0 <= j < before.len() && (#[trigger] before[j]).0@ == t;
                    assert(j != i);
                    let j2 = if j < i { j } else { j - 1 };
                    assert(after[j2] == before[j]);
                    lemma_subscription_map_at(after, j2);
                }
                let mut entries: Vec<(String, SubscribeMode)> = Vec::new();
                std::mem::swap(&mut entries, &mut self.entries);
                entries.remove(i);
                self.entries = entries;
                assert(subscription_map(after) =~= subscription_map(before).remove(topic@));
                true
            },
            None => {
                assert(subscription_map(before) =~= subscription_map(before).remove(topic@));
                false
            },
        }
    }

    /// The mode of the subscription to `topic`, if there is one.
    pub fn get(&self, topic: &str) -> (mode: Option<SubscribeMode>)
        ensures
            mode == tracked_mode(self@, topic@),
    {
        proof {
            use_type_invariant(self);
        }
        let key = String::from_str(topic);
        match self.find(&key) {
            Some(i) => {
                proof {
                    lemma_subscription_map_at(self.entries@, i as int);
                }
                Some(self.entries[i].1)
            },
            None => None,
        }
    }

    /// Every tracked subscription, each topic once.
    pub fn iter(&self) -> (all: Vec<(String, SubscribeMode)>)
        ensures
            topics_distinct(all@),
            subscription_map(all@) == self@,
            all@.len() == self@.len(),
    {
        proof {
            use_type_invariant(self);
            lemma_subscription_map_len(self.entries@);
        }
        let n = self.entries.len();
        let mut all: Vec<(String, SubscribeMode)> = Vec::new();
        let mut i: usize = 0;
        while i < n
            invariant
                n == self.entries@.len(),
                i <= n,
                all@.len() == i,
                forall|j: int| 0 <= j < i ==> #[trigger] all@[j] == self.entries@[j],
            decreases n - i,
        {
            let topic = self.entries[i].0.clone();
            all.push((topic, self.entries[i].1));
            i = i + 1;
        }
        assert(all@ =~= self.entries@);
        all
    }

    /// The number of tracked subscriptions.
    pub fn len(&self) -> (n: usize)
        ensures
            self@.dom().finite(),
            n == self@.len(),
    {
        proof {
            use_type_invariant(self);
            lemma_subscription_map_len(self.entries@);
        }
        self.entries.len()
    }

    /// Whether no subscription is tracked.
    pub fn is_empty(&self) -> (empty: bool)
        ensures
            self@.dom().finite(),
            empty == (self@.len() == 0),
    {
        proof {
            use_type_invariant(self);
            lemma_subscription_map_len(self.entries@);
        }
        self.entries.len() == 0
    }
}

// ── Laws ────────────────────────────────────────────────────────────────

/// Looking up a topic just added gives the mode it was added with; other
/// topics keep what they had.
pub proof fn lemma_get_after_add(
    m: Map<Seq<char>, SubscribeMode>,
    topic: Seq<char>,
    mode: SubscribeMode,
    other: Seq<char>,
)
    ensures
        tracked_mode(m.insert(topic, mode), topic) == Some(mode),
        other != topic ==> tracked_mode(m.insert(topic, mode), other) == tracked_mode(m, other),
{
}

/// Adding a topic again replaces its mode: the last add wins.
pub proof fn lemma_add_replaces_mode(
    m: Map<Seq<char>, SubscribeMode>,
    topic: Seq<char>,
    first: SubscribeMode,
    second: SubscribeMode,
)
    ensures
        m.insert(topic, first).insert(topic, second) == m.insert(topic, second),
{
    assert(m.insert(topic, first).insert(topic, second) =~= m.insert(topic, second));
}

/// After a topic is removed, looking it up gives nothing, and removing it
/// again reports that it was not there; other topics keep what they had.
pub proof fn lemma_remove_forgets(
    m: Map<Seq<char>, SubscribeMode>,
    topic: Seq<char>,
    other: Seq<char>,
)
    ensures
        tracked_mode(m.remove(topic), topic) == None::<SubscribeMode>,
        !m.remove(topic).contains_key(topic),
        other != topic ==> tracked_mode(m.remove(topic), other) == tracked_mode(m, other),
{
}

/// Adding a topic not yet tracked adds one to the count; adding a tracked
/// one leaves the count as it was. Removing a tracked topic takes one off.
pub proof fn lemma_count_after_add_and_remove(
    m: Map<Seq<char>, SubscribeMode>,
    topic: Seq<char>,
    mode: SubscribeMode,
)
    requires
        m.dom().finite(),
    ensures
        !m.contains_key(topic) ==> m.insert(topic, mode).len() == m.len() + 1,
        m.contains_key(topic) ==> m.insert(topic, mode).len() == m.len(),
        m.contains_key(topic) ==> m.remove(topic).len() == m.len() - 1,
{
    if m.contains_key(topic) {
        assert(m.insert(topic, mode).dom() =~= m.dom());
    }
}

impl Default for SubscriptionTracker {
    fn default() -> (tracker: Self)
        ensures
            tracker@ == Map::<Seq<char>, SubscribeMode>::empty(),
    {
        Self::new()
    }
}

} // verus!
