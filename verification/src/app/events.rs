use std::collections::VecDeque;
use vstd::prelude::*;

verus! {

/// The events of `events` that `outs` (one answer per event) left unclaimed,
/// in their order.
pub open spec fn kept<E, T>(events: Seq<E>, outs: Seq<Option<T>>) -> Seq<E>
    recommends
        events.len() == outs.len(),
    decreases events.len(),
{
    if events.len() == 0 || outs.len() == 0 {
        Seq::empty()
    } else {
        let init = kept(events.drop_last(), outs.drop_last());
        if outs.last() is None {
            init.push(events.last())
        } else {
            init
        }
    }
}

/// The last answer of `outs` that is `Some`, or `None` if there is none.
pub open spec fn last_some<T>(outs: Seq<Option<T>>) -> Option<T>
    decreases outs.len(),
{
    if outs.len() == 0 {
        None
    } else if outs.last() is Some {
        outs.last()
    } else {
        last_some(outs.drop_last())
    }
}

/// A first-in first-out queue of events.
pub struct Events<E> {
    queue: VecDeque<E>,
}

impl<E> View for Events<E> {
    type V = Seq<E>;

    closed spec fn view(&self) -> Seq<E> {
        self.queue@
    }
}

impl<E> Default for Events<E> {
    fn default() -> (r: Self)
        ensures
            r@ == Seq::<E>::empty(),
    {
        Events { queue: VecDeque::new() }
    }
}

impl<E> Events<E> {
    /// Appends `event` at the back of the queue.
    pub fn push(&mut self, event: E)
        ensures
            final(self)@ == old(self)@.push(event),
    {
        self.queue.push_back(event);
    }

    /// Offers every queued event, front to back, to `f`. The events that `f`
    /// claims (answers `Some`) leave the queue; the others stay, in order.
    /// Returns the last answer given, or `None` if `f` claimed nothing.
    pub fn pop<T>(&mut self, f: impl Fn(&E) -> Option<T>) -> (latest: Option<T>)
        requires
            forall|i: int| 0 <= i < old(self)@.len() ==> f.requires((&old(self)@[i],)),
        ensures
            exists|outs: Seq<Option<T>>|
                {
                    &&& outs.len() == old(self)@.len()
                    &&& forall|i: int|
                        0 <= i < outs.len() ==> f.ensures((&old(self)@[i],), #[trigger] outs[i])
                    &&& final(self)@ == kept(old(self)@, outs)
                    &&& latest == last_some(outs)
                },
    {
        let ghost orig = self.queue@;
        let ghost mut outs: Seq<Option<T>> = Seq::empty();
        let mut latest: Option<T> = None;
        let mut remaining: VecDeque<E> = VecDeque::with_capacity(self.queue.len());
        assert(forall|i: int| 0 <= i < orig.len() ==> f.requires((&orig[i],))) by {
            assert forall|i: int| 0 <= i < orig.len() implies f.requires((&orig[i],)) by {
                assert(orig[i] == old(self)@[i]);
            }
        }
        assert(orig.take(0) =~= Seq::<E>::empty());
        while self.queue.len() > 0
            invariant
                outs.len() <= orig.len(),
                self.queue@ == orig.subrange(outs.len() as int, orig.len() as int),
                forall|i: int| 0 <= i < orig.len() ==> f.requires((&orig[i],)),
                forall|i: int| 0 <= i < outs.len() ==> f.ensures((&orig[i],), #[trigger] outs[i]),
                remaining@ == kept(orig.take(outs.len() as int), outs),
                latest == last_some(outs),
            decreases self.queue@.len(),
        {
            let ghost n = outs.len() as int;
            if let Some(event) = self.queue.pop_front() {
                assert(event == orig[n]);
                let answer = f(&event);
                proof {
                    let ghost prev = outs;
                    outs = outs.push(answer);
                    assert(orig.take(n + 1).drop_last() =~= orig.take(n));
                    assert(outs.drop_last() =~= prev);
                    assert(orig.take(n + 1).last() == event);
                }
                match answer {
                    Some(value) => {
                        latest = Some(value);
                    },
                    None => {
                        remaining.push_back(event);
                    },
                }
            }
        }
        assert(orig.take(orig.len() as int) =~= orig);
        self.queue = remaining;
        latest
    }
}

/// Offering the events to a function that claims none of them leaves the
/// queue as it was, and nothing comes back.
pub proof fn lemma_nothing_claimed<E, T>(events: Seq<E>, outs: Seq<Option<T>>)
    requires
        outs.len() == events.len(),
        forall|i: int| 0 <= i < outs.len() ==> outs[i] is None,
    ensures
        kept(events, outs) == events,
        last_some(outs) is None,
    decreases events.len(),
{
    if events.len() > 0 {
        lemma_nothing_claimed(events.drop_last(), outs.drop_last());
        assert(events.drop_last().push(events.last()) =~= events);
    }
}

/// Offering the events to a function that claims all of them empties the
/// queue and gives back the last answer.
pub proof fn lemma_everything_claimed<E, T>(events: Seq<E>, outs: Seq<Option<T>>)
    requires
        outs.len() == events.len(),
        forall|i: int| 0 <= i < outs.len() ==> outs[i] is Some,
    ensures
        kept(events, outs) == Seq::<E>::empty(),
        events.len() > 0 ==> last_some(outs) == outs.last(),
    decreases events.len(),
{
    if events.len() > 0 {
        lemma_everything_claimed(events.drop_last(), outs.drop_last());
    }
}

/// `event` is one of `events` that `outs` left unclaimed.
pub open spec fn unclaimed<E, T>(events: Seq<E>, outs: Seq<Option<T>>, event: E) -> bool {
    exists|i: int| 0 <= i < events.len() && outs[i] is None && events[i] == event
}

/// The queue never grows by an offer: what stays is at most what was there,
/// and every event that stays was one that was not claimed.
pub proof fn lemma_kept_were_unclaimed<E, T>(events: Seq<E>, outs: Seq<Option<T>>)
    requires
        outs.len() == events.len(),
    ensures
        kept(events, outs).len() <= events.len(),
        forall|k: int|
            0 <= k < kept(events, outs).len() ==> unclaimed(events, outs, #[trigger] kept(events, outs)[k]),
    decreases events.len(),
{
    if events.len() > 0 {
        let init_events = events.drop_last();
        let init_outs = outs.drop_last();
        lemma_kept_were_unclaimed(init_events, init_outs);
        let init = kept(init_events, init_outs);
        assert forall|k: int| 0 <= k < kept(events, outs).len() implies unclaimed(
            events,
            outs,
            #[trigger] kept(events, outs)[k],
        ) by {
            if k < init.len() {
                assert(kept(events, outs)[k] == init[k]);
                assert(unclaimed(init_events, init_outs, init[k]));
                let i = choose|i: int|
                    0 <= i < init_events.len() && init_outs[i] is None && init_events[i] == init[k];
                assert(events[i] == init_events[i] && outs[i] == init_outs[i]);
            } else {
                assert(outs[events.len() - 1] is None);
                assert(events[events.len() - 1] == kept(events, outs)[k]);
            }
        }
    }
}

/// The answers that `answer` gives to each of `events`, in order.
pub open spec fn answers<E, T>(events: Seq<E>, answer: spec_fn(E) -> Option<T>) -> Seq<Option<T>> {
    events.map_values(|e: E| answer(e))
}

/// `f` answers every event as `answer` does (it is deterministic).
pub open spec fn answers_as<E, T, F: Fn(&E) -> Option<T>>(
    f: F,
    answer: spec_fn(E) -> Option<T>,
) -> bool {
    forall|e: E, r: Option<T>| #[trigger] f.ensures((&e,), r) ==> r == answer(e)
}

/// For a function that answers as `answer` does, the answers of an offer
/// are `answers(events, answer)`: `pop` then leaves
/// `kept(events, answers(events, answer))` and returns
/// `last_some(answers(events, answer))`.
pub proof fn lemma_deterministic_offer<E, T, F: Fn(&E) -> Option<T>>(
    events: Seq<E>,
    outs: Seq<Option<T>>,
    f: F,
    answer: spec_fn(E) -> Option<T>,
)
    requires
        answers_as(f, answer),
        outs.len() == events.len(),
        forall|i: int| 0 <= i < outs.len() ==> f.ensures((&events[i],), #[trigger] outs[i]),
    ensures
        outs == answers(events, answer),
{
    assert forall|i: int| 0 <= i < outs.len() implies outs[i] == answers(events, answer)[i] by {
        assert(f.ensures((&events[i],), outs[i]));
    }
    assert(outs =~= answers(events, answer));
}

/// Offering the events a second time to the same deterministic function
/// claims nothing: what the first offer left stays, and nothing comes back.
pub proof fn lemma_second_offer_claims_nothing<E, T>(events: Seq<E>, answer: spec_fn(E) -> Option<T>)
    ensures
        kept(kept(events, answers(events, answer)), answers(kept(events, answers(events, answer)), answer))
            == kept(events, answers(events, answer)),
        last_some(answers(kept(events, answers(events, answer)), answer)) is None,
{
    let outs = answers(events, answer);
    let rest = kept(events, outs);
    lemma_kept_were_unclaimed(events, outs);
    assert forall|k: int| 0 <= k < rest.len() implies answers(rest, answer)[k] is None by {
        assert(unclaimed(events, outs, rest[k]));
        let i = choose|i: int| 0 <= i < events.len() && outs[i] is None && events[i] == rest[k];
        assert(outs[i] == answer(events[i]));
    }
    lemma_nothing_claimed(rest, answers(rest, answer));
}

/// The latest match wins: when the last event offered is claimed, its
/// answer is what comes back, whatever earlier events were claimed too.
pub proof fn lemma_latest_match_wins<E, T>(events: Seq<E>, last: E, answer: spec_fn(E) -> Option<T>)
    requires
        answer(last) is Some,
    ensures
        last_some(answers(events.push(last), answer)) == answer(last),
{
    assert(answers(events.push(last), answer).last() == answer(last));
}

} // verus!
