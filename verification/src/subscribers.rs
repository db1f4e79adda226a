//! The subscribers of the event stream.

use vstd::prelude::*;
use crate::event::PlayerEvent;

verus! {

/// Some subscriber stands under `id`.
pub open spec fn listed(ids: Seq<String>, id: Seq<char>) -> bool {
    exists|k: int| 0 <= k < ids.len() && (#[trigger] ids[k])@ == id
}

/// Where the subscriber with `id` stands.
pub open spec fn place_of(ids: Seq<String>, id: Seq<char>) -> int {
    choose|k: int| 0 <= k < ids.len() && (#[trigger] ids[k])@ == id
}

/// No id stands twice.
pub open spec fn distinct(ids: Seq<String>) -> bool {
    forall|i: int, j: int|
        0 <= i < ids.len() && 0 <= j < ids.len() && i != j ==> (#[trigger] ids[i])@ != (
        #[trigger] ids[j])@
}

/// The ids as text, in order.
pub open spec fn texts(ids: Seq<String>) -> Seq<Seq<char>> {
    Seq::new(ids.len(), |k: int| ids[k]@)
}

/// A list of ids without `id`.
pub open spec fn without(order: Seq<Seq<char>>, id: Seq<char>) -> Seq<Seq<char>> {
    order.filter(|other: Seq<char>| other != id)
}

/// The length of a subscription id: that of a UUID in hyphenated form.
pub const SUBSCRIPTION_ID_LENGTH: usize = 36;

/// A new subscription id, by `uuid::Uuid::new_v4` and the `Display` of the
/// result: the hyphenated lower-case form, which has 36 characters. Which
/// characters is left to chance.
#[verifier::external_body]
fn fresh_subscription_id() -> (id: String)
    ensures
        id@.len() == SUBSCRIPTION_ID_LENGTH,
{
    uuid::Uuid::new_v4().to_string()
}

/// The event sinks of the subscribers, each under its subscription id, in the
/// order in which they subscribed.
pub struct SubscriberRegistry<S> {
    ids: Vec<String>,
    sinks: Vec<S>,
}

impl<S> View for SubscriberRegistry<S> {
    type V = Map<Seq<char>, S>;

    /// The sink of each subscription id.
    closed spec fn view(&self) -> Map<Seq<char>, S> {
        Map::new(
            |id: Seq<char>| listed(self.ids@, id),
            |id: Seq<char>| self.sinks@[place_of(self.ids@, id)],
        )
    }
}

impl<S> SubscriberRegistry<S> {
    /// The invariant of a registry: each sink has its id, and no id stands
    /// twice.
    pub closed spec fn wf(&self) -> bool {
        &&& self.ids.len() == self.sinks.len()
        &&& distinct(self.ids@)
    }

    /// The subscription ids in the order of subscription.
    pub closed spec fn order(&self) -> Seq<Seq<char>> {
        texts(self.ids@)
    }

    /// The order lists each subscriber once and nobody else: an id stands in
    /// it exactly if the registry holds a sink under that id.
    pub proof fn lemma_order_lists_the_subscribers(&self)
        requires
            self.wf(),
        ensures
            self.order().no_duplicates(),
            forall|id: Seq<char>| self@.contains_key(id) <==> self.order().contains(id),
    {
        assert forall|id: Seq<char>| self@.contains_key(id) <==> self.order().contains(id) by {
            if self@.contains_key(id) {
                let k = place_of(self.ids@, id);
                assert(self.order()[k] == id);
            }
            if self.order().contains(id) {
                let k = choose|k: int| 0 <= k < self.order().len() && self.order()[k] == id;
                assert(self.ids@[k]@ == id);
            }
        }
        assert forall|i: int, j: int|
            0 <= i < self.order().len() && 0 <= j < self.order().len() && i != j implies self.order()[i]
            != self.order()[j] by {
            assert(self.ids@[i]@ != self.ids@[j]@);
        }
    }

    /// A registry without subscribers.
    pub fn new() -> (registry: SubscriberRegistry<S>)
        ensures
            registry.wf(),
            registry@ == Map::<Seq<char>, S>::empty(),
            registry.order().len() == 0,
    {
        let registry = SubscriberRegistry { ids: Vec::new(), sinks: Vec::new() };
        assert(registry@ =~= Map::<Seq<char>, S>::empty());
        registry
    }

    /// How many subscribers there are.
    pub fn len(&self) -> (n: usize)
        ensures
            n == self.order().len(),
    {
        self.ids.len()
    }

    /// The id of the subscriber at `index` in the order of subscription.
    pub fn id(&self, index: usize) -> (id: &String)
        requires
            self.wf(),
            index < self.order().len(),
        ensures
            id@ == self.order()[index as int],
            self@.contains_key(id@),
    {
        &self.ids[index]
    }

    /// The sink of the subscriber at `index` in the order of subscription.
    pub fn sink(&self, index: usize) -> (sink: &S)
        requires
            self.wf(),
            index < self.order().len(),
        ensures
            self@.contains_key(self.order()[index as int]),
            *sink == self@[self.order()[index as int]],
    {
        assert(self.ids@[index as int]@ == self.order()[index as int]);
        &self.sinks[index]
    }

    /// One copy of `event` for each subscriber, in the order of subscription:
    /// every sink gets an equal event of its own.
    pub fn copies(&self, event: &PlayerEvent) -> (copies: Vec<PlayerEvent>)
        ensures
            copies.len() == self.order().len(),
            forall|i: int| 0 <= i < copies.len() ==> (#[trigger] copies[i])@ == event@,
    {
        let mut copies: Vec<PlayerEvent> = Vec::new();
        let mut i: usize = 0;
        while i < self.ids.len()
            invariant
                i <= self.ids.len(),
                copies.len() == i,
                forall|k: int| 0 <= k < copies.len() ==> (#[trigger] copies[k])@ == event@,
            decreases self.ids.len() - i,
        {
            copies.push(event.duplicate());
            i += 1;
        }
        copies
    }

    /// Where the subscriber with `id` stands.
    fn find(&self, id: &String) -> (place: Option<usize>)
        requires
            self.wf(),
        ensures
            match place {
                Some(k) => k < self.ids.len() && self.ids[k as int]@ == id@ && place_of(
                    self.ids@,
                    id@,
                ) == k,
                None => !listed(self.ids@, id@),
            },
    {
        let mut k: usize = 0;
        while k < self.ids.len()
            invariant
                self.wf(),
                k <= self.ids.len(),
                forall|i: int| 0 <= i < k ==> (#[trigger] self.ids[i])@ != id@,
            decreases self.ids.len() - k,
        {
            if self.ids[k] == *id {
                assert(self.ids@[k as int]@ == id@);
                return Some(k);
            }
            k += 1;
        }
        None
    }

    /// Puts `sink` under `id`. A sink that stood under the same id gives way
    /// to the new one. The result says whether the id is new.
    pub fn register(&mut self, id: String, sink: S) -> (fresh: bool)
        requires
            old(self).wf(),
        ensures
            final(self).wf(),
            final(self)@ == old(self)@.insert(id@, sink),
            fresh == !old(self)@.contains_key(id@),
            final(self).order() == if fresh {
                old(self).order().push(id@)
            } else {
                old(self).order()
            },
    {
        match self.find(&id) {
            Some(k) => {
                self.sinks.set(k, sink);
                assert forall|key: Seq<char>| listed(self.ids@, key) implies #[trigger] self@[key]
                    == old(self)@.insert(id@, sink)[key] by {
                    let p = place_of(self.ids@, key);
                    if key == id@ {
                        assert(p == k);
                    }
                }
                assert(self@ =~= old(self)@.insert(id@, sink));
                assert(self.order() =~= old(self).order());
                false
            },
            None => {
                self.ids.push(id);
                self.sinks.push(sink);
                let ghost last = old(self).ids.len() as int;
                assert(self.ids@[last]@ == id@);
                assert forall|key: Seq<char>|
                    listed(self.ids@, key) <==> (key == id@ || listed(old(self).ids@, key)) by {
                    if listed(old(self).ids@, key) {
                        let p = place_of(old(self).ids@, key);
                        assert(self.ids@[p]@ == key);
                    }
                    if listed(self.ids@, key) && key != id@ {
                        let p = place_of(self.ids@, key);
                        assert(old(self).ids@[p]@ == key);
                    }
                }
                assert forall|key: Seq<char>| listed(self.ids@, key) implies #[trigger] self@[key]
                    == old(self)@.insert(id@, sink)[key] by {
                    let p = place_of(self.ids@, key);
                    if key != id@ {
                        let q = place_of(old(self).ids@, key);
                        assert(self.ids@[q]@ == key);
                        assert(p == q);
                    } else {
                        assert(p == last);
                    }
                }
                assert(self@ =~= old(self)@.insert(id@, sink));
                assert(self.order() =~= old(self).order().push(id@));
                true
            },
        }
    }

    /// Registers a new subscriber under an id made for it, and returns the
    /// id. From now on the sink is among those that every event goes to.
    pub fn subscribe_to_events(&mut self, sink: S) -> (id: String)
        requires
            old(self).wf(),
        ensures
            final(self).wf(),
            id@.len() == SUBSCRIPTION_ID_LENGTH,
            final(self)@ == old(self)@.insert(id@, sink),
    {
        let id = fresh_subscription_id();
        self.register(id.clone(), sink);
        id
    }

    /// Removes the subscriber with this id and says whether there was one.
    /// The other subscribers stay, in their order.
    pub fn unsubscribe_from_events(&mut self, id: String) -> (existed: bool)
        requires
            old(self).wf(),
        ensures
            final(self).wf(),
            existed == old(self)@.contains_key(id@),
            final(self)@ == old(self)@.remove(id@),
            final(self).order() == without(old(self).order(), id@),
    {
        match self.find(&id) {
            Some(k) => {
                self.ids.remove(k);
                self.sinks.remove(k);
                assert forall|key: Seq<char>|
                    listed(self.ids@, key) <==> (key != id@ && listed(old(self).ids@, key)) by {
                    if listed(old(self).ids@, key) && key != id@ {
                        let p = place_of(old(self).ids@, key);
                        if p < k {
                            assert(self.ids@[p]@ == key);
                        } else {
                            assert(self.ids@[p - 1]@ == key);
                        }
                    }
                    if listed(self.ids@, key) {
                        let p = place_of(self.ids@, key);
                        if p < k {
                            assert(old(self).ids@[p]@ == key);
                        } else {
                            assert(old(self).ids@[p + 1]@ == key);
                        }
                    }
                }
                assert forall|key: Seq<char>| listed(self.ids@, key) implies #[trigger] self@[key]
                    == old(self)@.remove(id@)[key] by {
                    let p = place_of(self.ids@, key);
                    let q = place_of(old(self).ids@, key);
                    if p < k {
                        assert(old(self).ids@[p]@ == key);
                        assert(q == p);
                    } else {
                        assert(old(self).ids@[p + 1]@ == key);
                        assert(q == p + 1);
                    }
                }
                assert(self@ =~= old(self)@.remove(id@));
                proof {
                    lemma_filter_removes_one(old(self).ids@, k as int, id@);
                    assert(self.order() =~= texts(old(self).ids@).remove(k as int));
                }
                true
            },
            None => {
                assert(self@ =~= old(self)@.remove(id@));
                proof {
                    assert forall|i: int| 0 <= i < self.order().len() implies self.order()[i]
                        != id@ by {
                        assert(self.ids@[i]@ == self.order()[i]);
                    }
                    lemma_filter_keeps_all(self.order(), id@);
                }
                false
            },
        }
    }
}

/// Filtering an id out of a list that does not hold it changes nothing.
proof fn lemma_filter_keeps_all(order: Seq<Seq<char>>, id: Seq<char>)
    requires
        forall|i: int| 0 <= i < order.len() ==> order[i] != id,
    ensures
        without(order, id) == order,
    decreases order.len(),
{
    reveal(Seq::filter);
    if order.len() > 0 {
        lemma_filter_keeps_all(order.drop_last(), id);
        assert(order.drop_last().push(order.last()) =~= order);
    }
}

/// Filtering an id out of a list that holds it once, at `k`, removes that
/// entry.
proof fn lemma_filter_removes_one(ids: Seq<String>, k: int, id: Seq<char>)
    requires
        distinct(ids),
        0 <= k < ids.len(),
        ids[k]@ == id,
    ensures
        without(texts(ids), id) == texts(ids).remove(k),
    decreases ids.len(),
{
    reveal(Seq::filter);
    let order = texts(ids);
    let before = ids.drop_last();
    let order_before = texts(before);
    assert(order.drop_last() =~= order_before);
    if k == ids.len() - 1 {
        assert forall|i: int| 0 <= i < order_before.len() implies order_before[i] != id by {
            assert(ids[i]@ != ids[k]@);
        }
        lemma_filter_keeps_all(order_before, id);
        assert(order.remove(k) =~= order_before);
    } else {
        assert(distinct(before)) by {
            assert forall|i: int, j: int|
                0 <= i < before.len() && 0 <= j < before.len() && i != j implies (
            #[trigger] before[i])@ != (#[trigger] before[j])@ by {
                assert(ids[i]@ != ids[j]@);
            }
        }
        lemma_filter_removes_one(before, k, id);
        assert(ids[ids.len() - 1]@ != ids[k]@);
        assert(order.remove(k) =~= order_before.remove(k).push(order.last()));
    }
}

} // verus!
