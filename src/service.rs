use vstd::prelude::*;

use crate::action::{react, Action, Directive, ExecEvent};
use crate::broker::{ActionEvent, Channel, Event, StateEvent, Subscription};
use crate::error::Error;
use crate::text::{decimal, decimal_string};

verus! {

/// The position of the first action with id `id`, or -1.
pub open spec fn index_of(s: Seq<Action>, id: u32) -> int
    decreases s.len(),
{
    if s.len() == 0 {
        -1
    } else if s[0].spec_id() == id {
        0
    } else {
        let r = index_of(s.drop_first(), id);
        if r < 0 {
            -1
        } else {
            r + 1
        }
    }
}

pub open spec fn lookup(s: Seq<Action>, id: u32) -> Option<Action> {
    let i = index_of(s, id);
    if i < 0 {
        None
    } else {
        Some(s[i])
    }
}

/// The registry with `a` under its id, replacing what was there.
pub open spec fn with_action(s: Seq<Action>, a: Action) -> Seq<Action> {
    let i = index_of(s, a.spec_id());
    if i < 0 {
        s.push(a)
    } else {
        s.update(i, a)
    }
}

/// The registry without the action of id `id`.
pub open spec fn without(s: Seq<Action>, id: u32) -> Seq<Action> {
    let i = index_of(s, id);
    if i < 0 {
        s
    } else {
        s.remove(i)
    }
}

pub open spec fn ids_distinct(s: Seq<Action>) -> bool {
    forall|i: int, j: int|
        0 <= i < s.len() && 0 <= j < s.len() && i != j ==> #[trigger] s[i].spec_id()
            != #[trigger] s[j].spec_id()
}

pub proof fn lemma_index_of(s: Seq<Action>, id: u32)
    ensures
        -1 <= index_of(s, id) < s.len(),
        index_of(s, id) == -1 <==> forall|j: int| 0 <= j < s.len() ==> #[trigger] s[j].spec_id() != id,
        index_of(s, id) >= 0 ==> s[index_of(s, id)].spec_id() == id,
        forall|j: int| 0 <= j < index_of(s, id) ==> #[trigger] s[j].spec_id() != id,
    decreases s.len(),
{
    if s.len() > 0 {
        lemma_index_of(s.drop_first(), id);
        assert forall|j: int| 0 < j < s.len() implies s[j] == #[trigger] s.drop_first()[j - 1] by {}
        if s[0].spec_id() != id {
            assert forall|j: int| 0 <= j < s.len() && #[trigger] s[j].spec_id() == id implies index_of(
                s,
                id,
            ) >= 0 by {
                assert(s.drop_first()[j - 1].spec_id() == id);
            }
            assert forall|j: int| 0 <= j < index_of(s, id) implies #[trigger] s[j].spec_id() != id by {
                if j > 0 {
                    assert(s.drop_first()[j - 1].spec_id() != id);
                }
            }
        }
    }
}

/// The registry's laws: after an action is put under its id, looking the
/// id up gives that action; after an id is taken out, looking it up gives
/// nothing; taking out an id that is not there changes nothing. Ids stay
/// unique throughout.
pub proof fn lemma_registry_laws(s: Seq<Action>, a: Action, x: u32)
    requires
        ids_distinct(s),
    ensures
        lookup(with_action(s, a), a.spec_id()) == Some(a),
        ids_distinct(with_action(s, a)),
        lookup(without(s, x), x) is None,
        ids_distinct(without(s, x)),
        lookup(s, x) is None ==> without(s, x) == s,
{
    lemma_index_of(s, a.spec_id());
    lemma_index_of(s, x);
    let t = with_action(s, a);
    lemma_index_of(t, a.spec_id());
    let i = index_of(s, a.spec_id());
    if i < 0 {
        assert(t[t.len() - 1] == a);
    } else {
        assert(t[i] == a);
    }
    assert forall|p: int, q: int|
        0 <= p < t.len() && 0 <= q < t.len() && p != q implies #[trigger] t[p].spec_id()
        != #[trigger] t[q].spec_id() by {
        if i < 0 {
            if p < s.len() && q < s.len() {
                assert(t[p] == s[p] && t[q] == s[q]);
            } else if p < s.len() {
                assert(t[p] == s[p]);
            } else {
                assert(t[q] == s[q]);
            }
        } else {
            if p != i && q != i {
                assert(t[p] == s[p] && t[q] == s[q]);
            } else if p == i {
                assert(t[q] == s[q]);
            } else {
                assert(t[p] == s[p]);
            }
        }
    }
    let u = without(s, x);
    let k = index_of(s, x);
    lemma_index_of(u, x);
    if k >= 0 {
        assert forall|j: int| 0 <= j < u.len() implies #[trigger] u[j].spec_id() != x by {
            if j < k {
                assert(u[j] == s[j]);
            } else {
                assert(u[j] == s[j + 1]);
            }
        }
        assert forall|p: int, q: int|
            0 <= p < u.len() && 0 <= q < u.len() && p != q implies #[trigger] u[p].spec_id()
            != #[trigger] u[q].spec_id() by {
            let sp = if p < k {
                p
            } else {
                p + 1
            };
            let sq = if q < k {
                q
            } else {
                q + 1
            };
            assert(u[p] == s[sp] && u[q] == s[sq]);
        }
    }
}

/// The registry of live actions, with the two broadcast channels that
/// announce actions appearing and leaving, and their state transitions.
pub struct ActionService {
    actions: Vec<Action>,
    action_events: Channel<Option<ActionEvent>>,
    state_events: Channel<Option<StateEvent>>,
}

impl ActionService {
    pub closed spec fn registry(&self) -> Seq<Action> {
        self.actions@
    }

    pub closed spec fn creations(&self) -> Channel<Option<ActionEvent>> {
        self.action_events
    }

    pub closed spec fn states(&self) -> Channel<Option<StateEvent>> {
        self.state_events
    }

    pub closed spec fn wf(&self) -> bool {
        &&& ids_distinct(self.actions@)
        &&& forall|i: int| 0 <= i < self.actions@.len() ==> (#[trigger] self.actions@[i]).wf()
        &&& self.action_events.wf()
        &&& self.state_events.wf()
    }

    pub fn new() -> (r: ActionService)
        ensures
            r.wf(),
            r.registry() == Seq::<Action>::empty(),
            r.creations().published() == seq![None::<ActionEvent>],
            r.states().published() == seq![None::<StateEvent>],
    {
        ActionService {
            actions: Vec::new(),
            action_events: Channel::new(None),
            state_events: Channel::new(None),
        }
    }

    fn find(&self, id: u32) -> (r: Option<usize>)
        ensures
            -1 <= index_of(self.actions@, id) < self.actions@.len(),
            index_of(self.actions@, id) < 0 ==> r is None,
            index_of(self.actions@, id) >= 0 ==> (r matches Some(i) && i as int == index_of(
                self.actions@,
                id,
            )),
    {
        proof {
            lemma_index_of(self.actions@, id);
        }
        let mut i: usize = 0;
        while i < self.actions.len()
            invariant
                i <= self.actions@.len(),
                forall|j: int| 0 <= j < i ==> #[trigger] self.actions@[j].spec_id() != id,
                -1 <= index_of(self.actions@, id) < self.actions@.len(),
                index_of(self.actions@, id) == -1 <==> forall|j: int|
                    0 <= j < self.actions@.len() ==> #[trigger] self.actions@[j].spec_id() != id,
                index_of(self.actions@, id) >= 0 ==> self.actions@[index_of(
                    self.actions@,
                    id,
                )].spec_id() == id,
                forall|j: int|
                    0 <= j < index_of(self.actions@, id) ==> #[trigger] self.actions@[j].spec_id()
                        != id,
            decreases self.actions@.len() - i,
        {
            if self.actions[i].id() == id {
                return Some(i);
            }
            i = i + 1;
        }
        None
    }
}

impl ActionService {
    /// Registers `action` under its id, replacing any action of that id, and
    /// announces it on the creation channel. The registration stands even
    /// when the announcement cannot be made (`ChannelError`).
    pub fn create(&mut self, action: Action) -> (r: Result<(), Error>)
        requires
            old(self).wf(),
            action.wf(),
        ensures
            final(self).wf(),
            final(self).registry() == with_action(old(self).registry(), action),
            final(self).states() == old(self).states(),
            old(self).creations().spec_version() < u64::MAX ==> {
                &&& r is Ok
                &&& final(self).creations().published().drop_last() == old(self).creations().published()
                &&& final(self).creations().published().last() matches Some(ev) && {
                    &&& ev.event == Event::Creation
                    &&& ev.id@ == decimal(action.spec_id() as nat)
                    &&& ev.action matches Some(dto) && dto.id == action.spec_id() && dto.state
                        == action.spec_state() && dto.repo_url@ == action.spec_repository_url()
                        && dto.image@ == action.spec_container().spec_image()
                }
            },
            old(self).creations().spec_version() == u64::MAX ==> {
                &&& r == Err::<(), Error>(Error::ChannelError)
                &&& final(self).creations() == old(self).creations()
            },
    {
        proof {
            lemma_registry_laws(self.actions@, action, action.spec_id());
        }
        let dto = action.to_dto();
        let id = action.id();
        match self.find(id) {
            Some(i) => {
                self.actions.set(i, action);
            },
            None => {
                self.actions.push(action);
            },
        }
        assert forall|i: int| 0 <= i < self.actions@.len() implies (
        #[trigger] self.actions@[i]).wf() by {
            lemma_index_of(old(self).actions@, id);
            if i < old(self).actions@.len() && i != index_of(old(self).actions@, id) {
                assert(self.actions@[i] == old(self).actions@[i]);
            }
        }
        let event = ActionEvent {
            event: Event::Creation,
            id: decimal_string(id as u64),
            action: Some(dto),
        };
        let r = self.action_events.send_event(Some(event));
        assert(self.action_events.published().drop_last() =~= old(self).action_events.published()
            || r is Err);
        r
    }

    /// The action registered under `action_id`.
    pub fn get(&self, action_id: u32) -> (r: Result<&Action, Error>)
        ensures
            match lookup(self.registry(), action_id) {
                Some(a) => r matches Ok(x) && *x == a,
                None => r == Err::<&Action, Error>(Error::ActionNotFound),
            },
    {
        match self.find(action_id) {
            Some(i) => Ok(&self.actions[i]),
            None => Err(Error::ActionNotFound),
        }
    }

    /// Every registered action.
    pub fn list(&self) -> (r: &Vec<Action>)
        ensures
            r@ == self.registry(),
    {
        &self.actions
    }

    /// Takes the action of `action_id` out of the registry and announces its
    /// removal. The caller tears its container down. An unknown id changes
    /// nothing.
    pub fn delete(&mut self, action_id: u32) -> (r: Result<Action, Error>)
        requires
            old(self).wf(),
        ensures
            final(self).wf(),
            final(self).states() == old(self).states(),
            match lookup(old(self).registry(), action_id) {
                None => {
                    &&& r == Err::<Action, Error>(Error::ActionNotFound)
                    &&& final(self).registry() == old(self).registry()
                    &&& final(self).creations() == old(self).creations()
                },
                Some(a) => {
                    &&& r == Ok::<Action, Error>(a)
                    &&& final(self).registry() == without(old(self).registry(), action_id)
                    &&& old(self).creations().spec_version() < u64::MAX ==> {
                        &&& final(self).creations().published().drop_last() == old(self).creations().published()
                        &&& final(self).creations().published().last() matches Some(ev)
                            && ev.event == Event::Deletion && ev.id@ == decimal(action_id as nat)
                            && ev.action is None
                    }
                    &&& old(self).creations().spec_version() == u64::MAX ==> final(self).creations() == old(self).creations()
                },
            },
    {
        match self.find(action_id) {
            None => Err(Error::ActionNotFound),
            Some(i) => {
                let action = self.actions.remove(i);
                proof {
                    lemma_registry_laws(old(self).actions@, action, action_id);
                }
                assert forall|j: int| 0 <= j < self.actions@.len() implies (
                #[trigger] self.actions@[j]).wf() by {
                    if j < i {
                        assert(self.actions@[j] == old(self).actions@[j]);
                    } else {
                        assert(self.actions@[j] == old(self).actions@[j + 1]);
                    }
                }
                let event = ActionEvent {
                    event: Event::Deletion,
                    id: decimal_string(action_id as u64),
                    action: None,
                };
                let sent = self.action_events.send_event(Some(event));
                assert(self.action_events.published().drop_last() =~= old(
                    self,
                ).action_events.published() || sent is Err);
                Ok(action)
            },
        }
    }

    /// Hands `e` to the action of `action_id` and says what to do next; when
    /// the action finishes, its state event is published. An action that has
    /// been deleted is detached: its events are refused with
    /// `ActionNotFound`, and its runtime stops driving it.
    pub fn execute(&mut self, action_id: u32, e: ExecEvent) -> (r: Result<Directive, Error>)
        requires
            old(self).wf(),
        ensures
            final(self).wf(),
            final(self).creations() == old(self).creations(),
            match lookup(old(self).registry(), action_id) {
                None => {
                    &&& r == Err::<Directive, Error>(Error::ActionNotFound)
                    &&& final(self).registry() == old(self).registry()
                    &&& final(self).states() == old(self).states()
                },
                Some(a) => {
                    let i = index_of(old(self).registry(), action_id);
                    let a2 = final(self).registry()[i];
                    &&& final(self).registry() == old(self).registry().update(i, a2)
                    &&& a2.model() == react(a.model(), e).0
                    &&& a2.spec_id() == a.spec_id()
                    &&& a2.spec_steps() == a.spec_steps()
                    &&& a2.spec_container() == a.spec_container()
                    &&& a2.spec_repository_url() == a.spec_repository_url()
                    &&& r matches Ok(d) && a.directive_for(e, d) && match d {
                        Directive::Finish(f) => old(self).states().spec_version() < u64::MAX
                            ==> final(self).states().published() == old(self).states().published().push(Some(f.event)),
                        _ => final(self).states() == old(self).states(),
                    }
                },
            },
    {
        proof {
            lemma_index_of(self.actions@, action_id);
        }
        match self.find(action_id) {
            None => Err(Error::ActionNotFound),
            Some(i) => {
                let mut action = self.actions.remove(i);
                let d = action.execute(e);
                self.actions.insert(i, action);
                assert(self.actions@ =~= old(self).actions@.update(i as int, action));
                assert forall|j: int| 0 <= j < self.actions@.len() implies (
                #[trigger] self.actions@[j]).wf() by {
                    if j != i {
                        assert(self.actions@[j] == old(self).actions@[j]);
                    }
                }
                assert forall|p: int, q: int|
                    0 <= p < self.actions@.len() && 0 <= q < self.actions@.len() && p != q implies 
                #[trigger] self.actions@[p].spec_id() != #[trigger] self.actions@[q].spec_id() by {
                    assert(old(self).actions@[p].spec_id() == self.actions@[p].spec_id());
                    assert(old(self).actions@[q].spec_id() == self.actions@[q].spec_id());
                }
                if let Directive::Finish(f) = &d {
                    let _ = self.state_events.send_event(Some(f.event));
                }
                Ok(d)
            },
        }
    }

    /// A subscription to the creation and deletion announcements.
    pub fn creation_stream(&self) -> (r: Subscription)
        ensures
            r.last_seen() is None,
    {
        self.action_events.subscribe()
    }

    /// A subscription to the state transitions of all actions.
    pub fn state_stream(&self) -> (r: Subscription)
        ensures
            r.last_seen() is None,
    {
        self.state_events.subscribe()
    }

    pub fn action_events(&self) -> (r: &Channel<Option<ActionEvent>>)
        ensures
            *r == self.creations(),
    {
        &self.action_events
    }

    pub fn state_events(&self) -> (r: &Channel<Option<StateEvent>>)
        ensures
            *r == self.states(),
    {
        &self.state_events
    }
}

} // verus!
