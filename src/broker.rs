use vstd::prelude::*;

use crate::dto::ActionDto;
use crate::error::Error;
use crate::state::State;

verus! {

/// A state transition of one action, as broadcast to observers.
#[derive(Clone, Copy, Debug, PartialEq, Eq, Structural)]
pub struct StateEvent {
    pub action_id: u32,
    pub state: State,
}

/// Whether an action appeared or went away.
#[derive(Clone, Copy, Debug, PartialEq, Eq, Structural)]
pub enum Event {
    Creation,
    Deletion,
}

/// An action appearing in or leaving the registry. `id` is the action id in
/// decimal; a creation carries the action's outward view.
pub struct ActionEvent {
    pub event: Event,
    pub id: String,
    pub action: Option<ActionDto>,
}

/// What a subscriber that last saw version `seen` (none yet: `None`) gets
/// when it looks at a channel whose current version is `version`: the
/// current version if it is newer than what it saw, else nothing.
pub open spec fn poll_step(version: nat, seen: Option<nat>) -> Option<nat> {
    match seen {
        None => Some(version),
        Some(s) => if s < version {
            Some(version)
        } else {
            None
        },
    }
}

/// The versions a subscriber observes over a run of operations on one
/// channel: `true` publishes a value, `false` is a look by the subscriber.
pub open spec fn observed(version: nat, seen: Option<nat>, ops: Seq<bool>) -> Seq<nat>
    decreases ops.len(),
{
    if ops.len() == 0 {
        Seq::empty()
    } else if ops[0] {
        observed(version + 1, seen, ops.drop_first())
    } else {
        match poll_step(version, seen) {
            Some(v) => seq![v] + observed(version, Some(v), ops.drop_first()),
            None => observed(version, seen, ops.drop_first()),
        }
    }
}

/// A latest-value broadcast slot. It holds exactly one current value; each
/// publication replaces it and bumps the version. A subscriber sees the
/// current value and then the latest one each time it looks again after
/// a publication: slow subscribers coalesce, nothing queues up.
pub struct Channel<T> {
    value: T,
    version: u64,
    history: Ghost<Seq<T>>,
}

/// A subscriber's position on a channel: the version it saw last.
pub struct Subscription {
    seen: Option<u64>,
}

impl Subscription {
    pub closed spec fn last_seen(&self) -> Option<nat> {
        match self.seen {
            Some(s) => Some(s as nat),
            None => None,
        }
    }
}

impl<T> Channel<T> {
    /// Every value the channel has held, oldest first; the last is the
    /// current one and its index is the current version.
    pub closed spec fn published(&self) -> Seq<T> {
        self.history@
    }

    pub open spec fn spec_version(&self) -> nat {
        (self.published().len() - 1) as nat
    }

    pub closed spec fn wf(&self) -> bool {
        &&& self.history@.len() == self.version + 1
        &&& self.history@.last() == self.value
    }

    pub fn new(initial: T) -> (r: Channel<T>)
        ensures
            r.wf(),
            r.published() == seq![initial],
    {
        let history = Ghost(Seq::empty().push(initial));
        Channel { value: initial, version: 0, history }
    }

    /// Publishes `event` as the new current value. Fails only when the
    /// version counter is exhausted, in which case nothing changes.
    pub fn send_event(&mut self, event: T) -> (r: Result<(), Error>)
        requires
            old(self).wf(),
        ensures
            final(self).wf(),
            old(self).spec_version() <= u64::MAX,
            old(self).spec_version() < u64::MAX ==> r is Ok && final(self).published()
                == old(self).published().push(event),
            old(self).spec_version() == u64::MAX ==> r == Err::<(), Error>(Error::ChannelError)
                && *final(self) == *old(self),
    {
        if self.version == u64::MAX {
            return Err(Error::ChannelError);
        }
        let history = Ghost(self.history@.push(event));
        self.history = history;
        self.value = event;
        self.version = self.version + 1;
        Ok(())
    }

    /// A new subscriber, which has seen nothing yet.
    pub fn subscribe(&self) -> (r: Subscription)
        ensures
            r.last_seen() is None,
    {
        Subscription { seen: None }
    }

    pub fn version(&self) -> (r: u64)
        requires
            self.wf(),
        ensures
            r == self.spec_version(),
    {
        self.version
    }

    pub fn current(&self) -> (r: &T)
        requires
            self.wf(),
        ensures
            *r == self.published().last(),
    {
        &self.value
    }

    /// The current value if `sub` has not seen it yet; `sub` then records
    /// that it has.
    pub fn poll(&self, sub: &mut Subscription) -> (r: Option<&T>)
        requires
            self.wf(),
        ensures
            poll_step(self.spec_version(), old(sub).last_seen()) matches Some(v) ==> {
                &&& r == Some(&self.published()[v as int])
                &&& final(sub).last_seen() == Some(v)
            },
            poll_step(self.spec_version(), old(sub).last_seen()) is None ==> {
                &&& r is None
                &&& final(sub).last_seen() == old(sub).last_seen()
            },
    {
        let fresh = match sub.seen {
            None => true,
            Some(s) => s < self.version,
        };
        if fresh {
            sub.seen = Some(self.version);
            Some(&self.value)
        } else {
            None
        }
    }
}

proof fn lemma_observed_cons(version: nat, seen: Option<nat>, ops: Seq<bool>)
    requires
        ops.len() > 0,
    ensures
        observed(version, seen, ops) == (if ops[0] {
            observed(version + 1, seen, ops.drop_first())
        } else {
            match poll_step(version, seen) {
                Some(v) => seq![v] + observed(version, Some(v), ops.drop_first()),
                None => observed(version, seen, ops.drop_first()),
            }
        }),
{
}

/// A subscriber never observes a version older than the one current when it
/// looks, nor one it has seen, and what it observes only moves forward.
pub proof fn lemma_observed_moves_forward(version: nat, seen: Option<nat>, ops: Seq<bool>)
    requires
        seen matches Some(s) ==> s <= version,
    ensures
        ({
            let obs = observed(version, seen, ops);
            &&& forall|i: int| 0 <= i < obs.len() ==> #[trigger] obs[i] >= version
            &&& forall|i: int|
                0 <= i < obs.len() ==> (seen matches Some(s) ==> #[trigger] obs[i] > s)
            &&& forall|i: int, j: int| 0 <= i < j < obs.len() ==> #[trigger] obs[i] < #[trigger] obs[j]
        }),
    decreases ops.len(),
{
    if ops.len() > 0 {
        lemma_observed_cons(version, seen, ops);
        if ops[0] {
            lemma_observed_moves_forward(version + 1, seen, ops.drop_first());
        } else {
            match poll_step(version, seen) {
                Some(v) => {
                    lemma_observed_moves_forward(version, Some(v), ops.drop_first());
                    let rest = observed(version, Some(v), ops.drop_first());
                    let obs = observed(version, seen, ops);
                    assert(obs == seq![v] + rest);
                    assert forall|i: int, j: int| 0 <= i < j < obs.len() implies #[trigger] obs[i]
                        < #[trigger] obs[j] by {
                        assert(obs[j] == rest[j - 1]);
                        if i > 0 {
                            assert(obs[i] == rest[i - 1]);
                        }
                    }
                    assert forall|i: int| 0 <= i < obs.len() implies #[trigger] obs[i] >= version
                        by {
                        if i > 0 {
                            assert(obs[i] == rest[i - 1]);
                        }
                    }
                    assert forall|i: int| 0 <= i < obs.len() implies (seen matches Some(s)
                        ==> #[trigger] obs[i] > s) by {
                        if i > 0 {
                            assert(obs[i] == rest[i - 1]);
                        }
                    }
                },
                None => {
                    lemma_observed_moves_forward(version, seen, ops.drop_first());
                },
            }
        }
    }
}

/// `k` rounds of one publication followed by one look.
pub open spec fn publish_then_look(k: nat) -> Seq<bool>
    decreases k,
{
    if k == 0 {
        Seq::empty()
    } else {
        seq![true, false] + publish_then_look((k - 1) as nat)
    }
}

proof fn lemma_each_publication_seen(version: nat, k: nat)
    ensures
        observed(version, Some(version), publish_then_look(k)) == Seq::new(
            k,
            |i: int| (version + 1 + i) as nat,
        ),
    decreases k,
{
    if k > 0 {
        let ops = publish_then_look(k);
        let rest = publish_then_look((k - 1) as nat);
        lemma_observed_cons(version, Some(version), ops);
        assert(ops.drop_first() =~= seq![false] + rest);
        lemma_observed_cons(version + 1, Some(version), seq![false] + rest);
        assert((seq![false] + rest).drop_first() =~= rest);
        lemma_each_publication_seen(version + 1, (k - 1) as nat);
        assert(seq![(version + 1) as nat] + Seq::new(
            (k - 1) as nat,
            |i: int| (version + 1 + 1 + i) as nat,
        ) =~= Seq::new(k, |i: int| (version + 1 + i) as nat));
    } else {
        assert(observed(version, Some(version), publish_then_look(0)) =~= Seq::<nat>::empty());
    }
}

/// A subscriber that subscribes after publication `n` (the channel is at
/// version `n`) and looks before publication `n + 1` observes `n`; if it
/// then looks after each later publication it observes every one of them,
/// in order; whatever it does, it never observes a version older than `n`.
pub proof fn lemma_subscriber_coalesces(n: nat, k: nat, ops: Seq<bool>)
    ensures
        observed(n, None, seq![false] + publish_then_look(k)) == Seq::new(
            k + 1,
            |i: int| (n + i) as nat,
        ),
        forall|i: int|
            0 <= i < observed(n, None, ops).len() ==> #[trigger] observed(n, None, ops)[i] >= n,
{
    let look = seq![false] + publish_then_look(k);
    lemma_observed_cons(n, None, look);
    assert(look.drop_first() =~= publish_then_look(k));
    lemma_each_publication_seen(n, k);
    assert(seq![n] + Seq::new(k, |i: int| (n + 1 + i) as nat) =~= Seq::new(
        k + 1,
        |i: int| (n + i) as nat,
    ));
    lemma_observed_moves_forward(n, None, ops);
}

} // verus!
