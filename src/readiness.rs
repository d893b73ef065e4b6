//! The one-shot signal that every announced item has reached the interface.
use vstd::prelude::*;
use crate::counters::{CountersView, SharedCounters};

verus! {

/// Watches the shared counters, polled at a fixed interval by the shell.
pub struct ReadinessWatcher {
    fired: bool,
}

/// What a watcher that starts with `fired` signals at each of the `polls`,
/// each poll seeing the counters given for it.
pub open spec fn signals(fired: bool, polls: Seq<CountersView>) -> Seq<bool>
    decreases polls.len(),
{
    if polls.len() == 0 {
        Seq::empty()
    } else {
        let now = !fired && polls[0].ready();
        seq![now] + signals(fired || now, polls.drop_first())
    }
}

impl ReadinessWatcher {
    pub closed spec fn has_fired(&self) -> bool {
        self.fired
    }

    pub fn new() -> (r: ReadinessWatcher)
        ensures
            !r.has_fired(),
    {
        ReadinessWatcher { fired: false }
    }

    #[verifier::when_used_as_spec(has_fired)]
    pub fn fired(&self) -> (r: bool)
        ensures
            r == self.has_fired(),
    {
        self.fired
    }

    /// One poll: true when the signal is to be sent now. It is sent the
    /// first time the counters are ready, and never again.
    pub fn poll(&mut self, counters: &SharedCounters) -> (signal: bool)
        ensures
            signal == (!old(self).has_fired() && counters@.ready()),
            final(self).has_fired() == (old(self).has_fired() || signal),
    {
        if self.fired {
            false
        } else if counters.is_ready() {
            self.fired = true;
            true
        } else {
            false
        }
    }
}

/// Over any run of polls the signal is sent at most once, only at a poll that
/// sees every announced item delivered with the total above zero, and never
/// by a watcher that has already sent it.
pub proof fn lemma_signal_at_most_once(fired: bool, polls: Seq<CountersView>)
    ensures
        signals(fired, polls).len() == polls.len(),
        forall|i: int, j: int|
            0 <= i < j < polls.len() ==> !(#[trigger] signals(fired, polls)[i] && #[trigger] signals(
                fired,
                polls,
            )[j]),
        forall|i: int| 0 <= i < polls.len() && #[trigger] signals(fired, polls)[i] ==> polls[i].ready(),
        fired ==> forall|i: int| 0 <= i < polls.len() ==> !#[trigger] signals(fired, polls)[i],
    decreases polls.len(),
{
    if polls.len() > 0 {
        let now = !fired && polls[0].ready();
        let rest = polls.drop_first();
        lemma_signal_at_most_once(fired || now, rest);
        let s = signals(fired, polls);
        let t = signals(fired || now, rest);
        assert(s == seq![now] + t);
        assert forall|i: int| 0 < i < polls.len() implies s[i] == t[i - 1] && polls[i] == rest[i - 1] by {}
    }
}

} // verus!
