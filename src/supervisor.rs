//! The engine supervisor as a state machine.
//!
//! The supervisor keeps the set of pending session endpoints and the phase
//! of the engine's life. Each event (a session message, a request for a new
//! endpoint, the renderer's exit acknowledgement) yields the next state and
//! the actions to perform, in order. Whoever drives it performs the actions
//! and hands back the events.
use vstd::prelude::*;

use crate::dispatch::{classify, command_for, ContentCommand};
use crate::url::Url;

verus! {

/// The subsystems that the supervisor owns.
#[derive(PartialEq, Eq, Structural, Clone, Copy, Debug)]
pub enum Subsystem {
    Renderer,
    ResourceLoader,
    ImageCache,
    Layout,
    Content,
}

/// The phase of the engine's life.
#[derive(PartialEq, Eq, Structural, Clone, Copy, Debug)]
pub enum Phase {
    /// Serving session messages.
    Serving,
    /// `session` has asked to exit; the supervisor waits for the renderer's
    /// acknowledgement and takes no other event.
    Exiting { session: u64 },
    /// Shut down; the session that asked for it has been answered.
    Exited,
}

/// What a client sends on a `Running` session endpoint.
#[derive(PartialEq, Eq, Debug, Clone)]
pub enum Message {
    /// Navigate; the session goes on with a fresh endpoint.
    LoadUrl(Url),
    /// Shut the engine down; the session ends with the `Exited` answer.
    Exit,
}

/// What the supervisor takes in.
#[derive(PartialEq, Eq, Debug, Clone)]
pub enum Event {
    /// A client asks for a new session endpoint.
    Open,
    /// A message arrived on the pending endpoint `session`.
    Request { session: u64, message: Message },
    /// The renderer acknowledged its exit command.
    RendererStopped,
}

/// What the supervisor does, in the order given.
#[derive(PartialEq, Eq, Debug, Clone)]
pub enum Action {
    /// Send a navigation command to the content subsystem; no answer is awaited.
    Navigate(ContentCommand),
    /// Hand the client the fresh `Running` endpoint with this id.
    Grant(u64),
    /// Tell a subsystem to exit. Content, layout and the resource loader
    /// are told and not waited for; the image cache's exit returns once it
    /// has stopped; the renderer's exit carries a reply channel, and its
    /// answer comes back as `Event::RendererStopped`.
    Stop(Subsystem),
    /// Answer `Exited` on the session that asked to exit.
    AckExited(u64),
}

/// The supervisor's state as a mathematical value.
pub struct SupervisorView {
    pub phase: Phase,
    /// The endpoints handed out and not yet used.
    pub pending: Set<u64>,
    /// The id that the next endpoint gets.
    pub next_id: u64,
}

impl SupervisorView {
    /// Every pending id was issued before `next_id`, and outside the
    /// `Serving` phase nothing is pending.
    pub open spec fn inv(self) -> bool {
        &&& forall|id: u64| self.pending.contains(id) ==> id < self.next_id
        &&& !(self.phase is Serving) ==> self.pending == Set::<u64>::empty()
    }

    /// The events that the supervisor can take in this state. While serving:
    /// a message on a pending endpoint, or a request for a new endpoint, as
    /// long as an id is left to issue. While exiting: the renderer's
    /// acknowledgement only. Once exited: anything, which is then dropped.
    /// Any other event is a breach of the protocol.
    pub open spec fn accepts(self, event: Event) -> bool {
        match self.phase {
            Phase::Serving => match event {
                Event::Open => self.next_id < u64::MAX,
                Event::Request { session, message } => {
                    &&& self.pending.contains(session)
                    &&& message is LoadUrl ==> self.next_id < u64::MAX
                },
                Event::RendererStopped => false,
            },
            Phase::Exiting { .. } => event is RendererStopped,
            Phase::Exited => true,
        }
    }

    /// The state after `event`, and the actions it calls for.
    pub open spec fn next(self, event: Event) -> (SupervisorView, Seq<Action>) {
        match self.phase {
            Phase::Serving => match event {
                Event::Open => (
                    SupervisorView {
                        pending: self.pending.insert(self.next_id),
                        next_id: (self.next_id + 1) as u64,
                        ..self
                    },
                    seq![Action::Grant(self.next_id)],
                ),
                Event::Request { session, message: Message::LoadUrl(url) } => (
                    SupervisorView {
                        pending: self.pending.remove(session).insert(self.next_id),
                        next_id: (self.next_id + 1) as u64,
                        ..self
                    },
                    seq![Action::Navigate(command_for(url)), Action::Grant(self.next_id)],
                ),
                Event::Request { session, message: Message::Exit } => (
                    SupervisorView {
                        phase: Phase::Exiting { session },
                        pending: Set::empty(),
                        ..self
                    },
                    seq![
                        Action::Stop(Subsystem::Content),
                        Action::Stop(Subsystem::Layout),
                        Action::Stop(Subsystem::Renderer),
                    ],
                ),
                Event::RendererStopped => (self, Seq::empty()),
            },
            Phase::Exiting { session } => match event {
                Event::RendererStopped => (
                    SupervisorView { phase: Phase::Exited, ..self },
                    seq![
                        Action::Stop(Subsystem::ImageCache),
                        Action::Stop(Subsystem::ResourceLoader),
                        Action::AckExited(session),
                    ],
                ),
                _ => (self, Seq::empty()),
            },
            Phase::Exited => (self, Seq::empty()),
        }
    }
}

/// The supervisor of one running engine.
pub struct Supervisor {
    phase: Phase,
    pending: Vec<u64>,
    next_id: u64,
}

impl View for Supervisor {
    type V = SupervisorView;

    closed spec fn view(&self) -> SupervisorView {
        SupervisorView { phase: self.phase, pending: self.pending@.to_set(), next_id: self.next_id }
    }
}

impl Supervisor {
    /// The pending endpoints are held once each, all below `next_id`, and
    /// none outside the `Serving` phase.
    pub closed spec fn wf(&self) -> bool {
        &&& self.pending@.no_duplicates()
        &&& forall|i: int| 0 <= i < self.pending@.len() ==> self.pending@[i] < self.next_id
        &&& !(self.phase is Serving) ==> self.pending@.len() == 0
    }

    /// A supervisor that serves one session: the endpoint returned with it.
    pub fn start() -> (r: (Supervisor, u64))
        ensures
            r.0.wf(),
            r.0@.inv(),
            r.0@.phase == Phase::Serving,
            r.0@.pending == set![r.1],
            r.0@.next_id == r.1 + 1,
            r.1 == 0,
    {
        let mut pending: Vec<u64> = Vec::new();
        pending.push(0);
        let sup = Supervisor { phase: Phase::Serving, pending, next_id: 1 };
        assert(sup.pending@ =~= seq![0u64]);
        assert(sup@.pending =~= set![0u64]) by {
            assert(sup.pending@[0] == 0u64);
        }
        (sup, 0)
    }

    /// The phase of the engine's life.
    pub fn phase(&self) -> (p: Phase)
        ensures
            p == self@.phase,
    {
        self.phase
    }

    /// Whether `session` is a pending endpoint.
    pub fn is_pending(&self, session: u64) -> (r: bool)
        ensures
            r == self@.pending.contains(session),
    {
        let mut i: usize = 0;
        while i < self.pending.len()
            invariant
                i <= self.pending@.len(),
                forall|k: int| 0 <= k < i ==> self.pending@[k] != session,
            decreases self.pending@.len() - i,
        {
            if self.pending[i] == session {
                assert(self.pending@.contains(session));
                return true;
            }
            i = i + 1;
        }
        false
    }

    /// Whether the supervisor can take `event` now (see `SupervisorView::accepts`).
    pub fn accepts(&self, event: &Event) -> (r: bool)
        ensures
            r == self@.accepts(*event),
    {
        match self.phase {
            Phase::Serving => match event {
                Event::Open => self.next_id < u64::MAX,
                Event::Request { session, message } => {
                    let room = match message {
                        Message::LoadUrl(_) => self.next_id < u64::MAX,
                        Message::Exit => true,
                    };
                    room && self.is_pending(*session)
                },
                Event::RendererStopped => false,
            },
            Phase::Exiting { .. } => match event {
                Event::RendererStopped => true,
                _ => false,
            },
            Phase::Exited => true,
        }
    }

    /// Hands out a fresh endpoint.
    fn grant(&mut self) -> (id: u64)
        requires
            old(self).wf(),
            old(self).phase is Serving,
            old(self).next_id < u64::MAX,
        ensures
            final(self).wf(),
            id == old(self).next_id,
            final(self)@ == (SupervisorView {
                pending: old(self)@.pending.insert(id),
                next_id: (id + 1) as u64,
                ..old(self)@
            }),
    {
        let id = self.next_id;
        let ghost before = self.pending@;
        self.pending.push(id);
        self.next_id = id + 1;
        assert(self.pending@ == before.push(id));
        assert(self@.pending =~= before.to_set().insert(id)) by {
            assert forall|x: u64| self.pending@.contains(x) implies before.contains(x) || x == id by {
                let k = choose|k: int| 0 <= k < self.pending@.len() && self.pending@[k] == x;
                if k < before.len() {
                    assert(before[k] == x);
                }
            }
            assert forall|x: u64| before.contains(x) implies self.pending@.contains(x) by {
                let k = choose|k: int| 0 <= k < before.len() && before[k] == x;
                assert(self.pending@[k] == x);
            }
            assert(self.pending@[before.len() as int] == id);
        }
        assert(self.pending@.no_duplicates()) by {
            assert forall|a: int, b: int|
                0 <= a < b < self.pending@.len() implies self.pending@[a] != self.pending@[b] by {
                if b == before.len() {
                    assert(before[a] < id);
                }
            }
        }
        id
    }

    /// Removes the pending endpoint `session`, which has been used.
    fn retire(&mut self, session: u64)
        requires
            old(self).wf(),
            old(self)@.pending.contains(session),
        ensures
            final(self).wf(),
            final(self)@ == (SupervisorView {
                pending: old(self)@.pending.remove(session),
                ..old(self)@
            }),
    {
        let ghost before = self.pending@;
        let mut i: usize = 0;
        while i < self.pending.len() && self.pending[i] != session
            invariant
                self.pending@ == before,
                i <= before.len(),
                forall|k: int| 0 <= k < i ==> before[k] != session,
            decreases before.len() - i,
        {
            i = i + 1;
        }
        assert(i < before.len()) by {
            if i >= before.len() {
                let k = choose|k: int| 0 <= k < before.len() && before[k] == session;
                assert(before[k] != session);
            }
        }
        assert(before[i as int] == session);
        self.pending.remove(i);
        assert(self.pending@ == before.remove(i as int));
        assert(self@.pending =~= before.to_set().remove(session)) by {
            assert forall|x: u64| self.pending@.contains(x) implies before.contains(x) && x != session by {
                let k = choose|k: int| 0 <= k < self.pending@.len() && self.pending@[k] == x;
                if k < i {
                    assert(before[k] == x);
                } else {
                    assert(before[k + 1] == x);
                }
            }
            assert forall|x: u64| before.contains(x) && x != session implies self.pending@.contains(x) by {
                let k = choose|k: int| 0 <= k < before.len() && before[k] == x;
                if k < i {
                    assert(self.pending@[k] == x);
                } else {
                    assert(k != i);
                    assert(self.pending@[k - 1] == x);
                }
            }
        }
    }

    /// Takes in one event and returns the actions it calls for, to be
    /// performed in order.
    pub fn step(&mut self, event: Event) -> (actions: Vec<Action>)
        requires
            old(self).wf(),
            old(self)@.accepts(event),
        ensures
            final(self).wf(),
            final(self)@.inv(),
            (final(self)@, actions@) == old(self)@.next(event),
    {
        let actions = self.decide(event);
        proof {
            self.lemma_wf_inv();
        }
        actions
    }

    /// What `wf` says of the view.
    proof fn lemma_wf_inv(&self)
        requires
            self.wf(),
        ensures
            self@.inv(),
    {
        assert forall|id: u64| self@.pending.contains(id) implies id < self@.next_id by {
            let k = choose|k: int| 0 <= k < self.pending@.len() && self.pending@[k] == id;
        }
        if !(self.phase is Serving) {
            assert(self@.pending =~= Set::<u64>::empty());
        }
    }

    fn decide(&mut self, event: Event) -> (actions: Vec<Action>)
        requires
            old(self).wf(),
            old(self)@.accepts(event),
        ensures
            final(self).wf(),
            (final(self)@, actions@) == old(self)@.next(event),
    {
        match self.phase {
            Phase::Serving => match event {
                Event::Open => {
                    let id = self.grant();
                    let mut actions: Vec<Action> = Vec::new();
                    actions.push(Action::Grant(id));
                    assert(actions@ =~= seq![Action::Grant(id)]);
                    actions
                },
                Event::Request { session, message } => match message {
                    Message::LoadUrl(url) => {
                        let cmd = classify(url);
                        self.retire(session);
                        let id = self.grant();
                        let mut actions: Vec<Action> = Vec::new();
                        actions.push(Action::Navigate(cmd));
                        actions.push(Action::Grant(id));
                        assert(actions@ =~= seq![Action::Navigate(cmd), Action::Grant(id)]);
                        actions
                    },
                    Message::Exit => {
                        self.pending = Vec::new();
                        self.phase = Phase::Exiting { session };
                        assert(self@.pending =~= Set::<u64>::empty());
                        let mut actions: Vec<Action> = Vec::new();
                        actions.push(Action::Stop(Subsystem::Content));
                        actions.push(Action::Stop(Subsystem::Layout));
                        actions.push(Action::Stop(Subsystem::Renderer));
                        assert(actions@ =~= seq![
                            Action::Stop(Subsystem::Content),
                            Action::Stop(Subsystem::Layout),
                            Action::Stop(Subsystem::Renderer),
                        ]);
                        actions
                    },
                },
                Event::RendererStopped => Vec::new(),
            },
            Phase::Exiting { session } => match event {
                Event::RendererStopped => {
                    self.phase = Phase::Exited;
                    let mut actions: Vec<Action> = Vec::new();
                    actions.push(Action::Stop(Subsystem::ImageCache));
                    actions.push(Action::Stop(Subsystem::ResourceLoader));
                    actions.push(Action::AckExited(session));
                    assert(actions@ =~= seq![
                        Action::Stop(Subsystem::ImageCache),
                        Action::Stop(Subsystem::ResourceLoader),
                        Action::AckExited(session),
                    ]);
                    actions
                },
                _ => Vec::new(),
            },
            Phase::Exited => Vec::new(),
        }
    }
}

} // verus!
