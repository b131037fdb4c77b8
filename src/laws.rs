//! What holds of every run of the supervisor.
use vstd::prelude::*;

use crate::dispatch::command_for;
use crate::supervisor::{Action, Event, Message, Phase, Subsystem, SupervisorView};
use crate::url::Url;

verus! {

/// The state reached from `s` by taking in `events` one after another, and
/// the actions called for on the way, in order.
pub open spec fn run(s: SupervisorView, events: Seq<Event>) -> (SupervisorView, Seq<Action>)
    decreases events.len(),
{
    if events.len() == 0 {
        (s, Seq::empty())
    } else {
        let (s1, first) = s.next(events[0]);
        let (s2, rest) = run(s1, events.drop_first());
        (s2, first + rest)
    }
}

/// Each of `events` is accepted in the state that the ones before it reach.
pub open spec fn accepted_run(s: SupervisorView, events: Seq<Event>) -> bool
    decreases events.len(),
{
    events.len() == 0 || (s.accepts(events[0]) && accepted_run(
        s.next(events[0]).0,
        events.drop_first(),
    ))
}

/// One navigation to each of `urls`, the first sent on `first`, each later
/// one on the endpoint handed back for the one before; `next` is the id of
/// the first endpoint handed back.
pub open spec fn successive_loads(first: u64, next: u64, urls: Seq<Url>) -> Seq<Event>
    decreases urls.len(),
{
    if urls.len() == 0 {
        Seq::empty()
    } else {
        seq![Event::Request { session: first, message: Message::LoadUrl(urls[0]) }]
            + successive_loads(next, (next + 1) as u64, urls.drop_first())
    }
}

/// For each of `urls` in turn, its content command, then the endpoint that
/// continues the session.
pub open spec fn load_replies(next: u64, urls: Seq<Url>) -> Seq<Action>
    decreases urls.len(),
{
    if urls.len() == 0 {
        Seq::empty()
    } else {
        seq![Action::Navigate(command_for(urls[0])), Action::Grant(next)] + load_replies(
            (next + 1) as u64,
            urls.drop_first(),
        )
    }
}

/// A session that navigates to `urls`, each time on the endpoint handed back
/// for the navigation before, is served at every step, and each navigation
/// forwards exactly one command to content: a script when the path ends in
/// `.js`, a document otherwise. The session stays open on the last endpoint.
pub proof fn lemma_each_load_forwards_one_command(s: SupervisorView, first: u64, urls: Seq<Url>)
    requires
        s.inv(),
        s.phase == Phase::Serving,
        s.pending.contains(first),
        s.next_id + urls.len() <= u64::MAX,
    ensures
        accepted_run(s, successive_loads(first, s.next_id, urls)),
        run(s, successive_loads(first, s.next_id, urls)).1 == load_replies(s.next_id, urls),
        run(s, successive_loads(first, s.next_id, urls)).0.phase == Phase::Serving,
        urls.len() > 0 ==> run(s, successive_loads(first, s.next_id, urls)).0.pending
            == s.pending.remove(first).insert((s.next_id + urls.len() - 1) as u64),
    decreases urls.len(),
{
    let events = successive_loads(first, s.next_id, urls);
    if urls.len() > 0 {
        let ev = Event::Request { session: first, message: Message::LoadUrl(urls[0]) };
        assert(events[0] == ev);
        let s1 = s.next(ev).0;
        let rest = urls.drop_first();
        assert(events.drop_first() =~= successive_loads(s.next_id, s1.next_id, rest));
        lemma_each_load_forwards_one_command(s1, s.next_id, rest);
        if rest.len() > 0 {
            assert(s1.pending.remove(s.next_id) =~= s.pending.remove(first));
        } else {
            assert(events.drop_first() =~= Seq::<Event>::empty());
        }
    }
}

/// Exit runs the shutdown in its fixed order: content, layout, then the
/// renderer, whose acknowledgement the supervisor waits for, taking no other
/// event; only then the image cache, the resource loader, and last the
/// `Exited` answer to the session that asked.
pub proof fn lemma_exit_order(s: SupervisorView, session: u64)
    requires
        s.phase == Phase::Serving,
        s.pending.contains(session),
    ensures
        s.accepts(Event::Request { session, message: Message::Exit }),
        s.next(Event::Request { session, message: Message::Exit }).1 == seq![
            Action::Stop(Subsystem::Content),
            Action::Stop(Subsystem::Layout),
            Action::Stop(Subsystem::Renderer),
        ],
        forall|e: Event|
            #[trigger] s.next(Event::Request { session, message: Message::Exit }).0.accepts(e)
                <==> e == Event::RendererStopped,
        run(s, seq![Event::Request { session, message: Message::Exit }, Event::RendererStopped])
            == (SupervisorView { phase: Phase::Exited, pending: Set::empty(), ..s }, seq![
            Action::Stop(Subsystem::Content),
            Action::Stop(Subsystem::Layout),
            Action::Stop(Subsystem::Renderer),
            Action::Stop(Subsystem::ImageCache),
            Action::Stop(Subsystem::ResourceLoader),
            Action::AckExited(session),
        ]),
{
    let events = seq![Event::Request { session, message: Message::Exit }, Event::RendererStopped];
    assert(events.drop_first() =~= seq![Event::RendererStopped]);
    assert(events.drop_first().drop_first() =~= Seq::<Event>::empty());
    let s1 = s.next(events[0]).0;
    let s2 = s1.next(Event::RendererStopped).0;
    assert(s2 == SupervisorView { phase: Phase::Exited, pending: Set::empty(), ..s });
    assert(run(s2, Seq::<Event>::empty()) == (s2, Seq::<Action>::empty()));
    assert(s1.next(Event::RendererStopped).1 + Seq::<Action>::empty() =~= s1.next(Event::RendererStopped).1);
    assert(run(s1, events.drop_first()).1 =~= seq![
        Action::Stop(Subsystem::ImageCache),
        Action::Stop(Subsystem::ResourceLoader),
        Action::AckExited(session),
    ]);
    assert(run(s, events).1 =~= seq![
        Action::Stop(Subsystem::Content),
        Action::Stop(Subsystem::Layout),
        Action::Stop(Subsystem::Renderer),
        Action::Stop(Subsystem::ImageCache),
        Action::Stop(Subsystem::ResourceLoader),
        Action::AckExited(session),
    ]);
}

/// Once exited, the supervisor stays exited and calls for nothing more,
/// whatever arrives.
pub proof fn lemma_silent_once_exited(s: SupervisorView, events: Seq<Event>)
    requires
        s.phase == Phase::Exited,
    ensures
        run(s, events) == (s, Seq::<Action>::empty()),
    decreases events.len(),
{
    if events.len() > 0 {
        lemma_silent_once_exited(s, events.drop_first());
        assert(Seq::<Action>::empty() + Seq::<Action>::empty() =~= Seq::<Action>::empty());
    }
}

/// After the step that answers `Exited`, no event that follows calls for
/// any action: no subsystem hears from the supervisor again.
pub proof fn lemma_nothing_after_exited(
    s: SupervisorView,
    event: Event,
    session: u64,
    later: Seq<Event>,
)
    requires
        s.next(event).1.contains(Action::AckExited(session)),
    ensures
        run(s.next(event).0, later).1 == Seq::<Action>::empty(),
{
    let acts = s.next(event).1;
    let k = choose|k: int| 0 <= k < acts.len() && acts[k] == Action::AckExited(session);
    assert(s.next(event).0.phase == Phase::Exited);
    lemma_silent_once_exited(s.next(event).0, later);
}

/// A used endpoint is never pending again: whatever accepted events follow
/// the message on `session`, that endpoint is not among the pending ones,
/// so a second message on it is never served. The other pending endpoints
/// stay pending while the session navigates, so none of them is lost.
pub proof fn lemma_endpoint_served_once(
    s: SupervisorView,
    session: u64,
    message: Message,
    later: Seq<Event>,
)
    requires
        s.inv(),
        s.phase == Phase::Serving,
        s.accepts(Event::Request { session, message }),
        accepted_run(s.next(Event::Request { session, message }).0, later),
    ensures
        !s.next(Event::Request { session, message }).0.pending.contains(session),
        message is LoadUrl ==> forall|other: u64|
            s.pending.contains(other) && other != session ==> #[trigger] s.next(
                Event::Request { session, message },
            ).0.pending.contains(other),
        !run(s.next(Event::Request { session, message }).0, later).0.pending.contains(session),
{
    let s1 = s.next(Event::Request { session, message }).0;
    lemma_next_keeps_inv(s, Event::Request { session, message });
    lemma_retired_stays_retired(s1, session, later);
}

/// An accepted event keeps the invariant.
pub proof fn lemma_next_keeps_inv(s: SupervisorView, event: Event)
    requires
        s.inv(),
        s.accepts(event),
    ensures
        s.next(event).0.inv(),
        s.next(event).0.next_id >= s.next_id,
{
}

/// An issued endpoint that is not pending never becomes pending again.
proof fn lemma_retired_stays_retired(s: SupervisorView, id: u64, events: Seq<Event>)
    requires
        s.inv(),
        id < s.next_id,
        !s.pending.contains(id),
        accepted_run(s, events),
    ensures
        !run(s, events).0.pending.contains(id),
    decreases events.len(),
{
    if events.len() > 0 {
        lemma_next_keeps_inv(s, events[0]);
        lemma_retired_stays_retired(s.next(events[0]).0, id, events.drop_first());
    }
}

} // verus!
