//! What holds of the hub's sessions, one by one, over time and as a fleet.

use crate::frame::FrameView;
use crate::server::session::{
    broadcast_step, challenge, farewell, message_step, react, terminate_notice, ActionView,
    SessionEventView, SessionView,
};
use crate::server::types::{decode_text, BroadcastView, WebDataView};
use vstd::prelude::*;

verus! {

/// One moment in the life of a session: what happened, and the access list as
/// it stood then.
pub struct Moment {
    pub event: SessionEventView,
    pub acl: Set<Seq<char>>,
}

/// The state of a session that started in `s` and lived through `trace`.
pub open spec fn state_after(s: SessionView, trace: Seq<Moment>) -> SessionView
    decreases trace.len(),
{
    if trace.len() == 0 {
        s
    } else {
        react(state_after(s, trace.drop_last()), trace.last().event, trace.last().acl).0
    }
}

/// What the session was told to do at moment `i` of `trace`.
pub open spec fn action_at(s: SessionView, trace: Seq<Moment>, i: int) -> ActionView
    recommends
        0 <= i < trace.len(),
{
    react(state_after(s, trace.take(i)), trace[i].event, trace[i].acl).1
}

/// The text of a frame that reads as text.
pub open spec fn frame_text(frame: FrameView) -> Option<Seq<char>> {
    match frame {
        FrameView::Text(text) => Some(text),
        FrameView::Binary(bytes) => if vstd::utf8::valid_utf8(bytes) {
            Some(vstd::utf8::decode_utf8(bytes))
        } else {
            None
        },
        _ => None,
    }
}

/// Whether an event is a peer presenting an identifier.
pub open spec fn presents_identifier(event: SessionEventView) -> bool {
    event matches SessionEventView::Frame(frame) && frame_text(frame) matches Some(text) && text
        != farewell() && decode_text(text) matches Ok(WebDataView::Auth { .. })
}

/// The sessions of a hub once the session on connection `i` has come out of
/// an event as `outcome`: what a session publishes, the hub hands to every
/// session, the publisher included.
pub open spec fn fleet_after(
    fleet: Seq<SessionView>,
    i: int,
    outcome: (SessionView, ActionView),
) -> Seq<SessionView>
    recommends
        0 <= i < fleet.len(),
{
    let stepped = fleet.update(i, outcome.0);
    match outcome.1 {
        ActionView::Publish(published) => Seq::new(
            fleet.len(),
            |j: int| broadcast_step(stepped[j], published).0,
        ),
        _ => stepped,
    }
}

/// What the session on connection `j` is told to do once the session on
/// connection `i` has come out of an event as `outcome`.
pub open spec fn fleet_action(
    fleet: Seq<SessionView>,
    i: int,
    outcome: (SessionView, ActionView),
    j: int,
) -> ActionView
    recommends
        0 <= i < fleet.len(),
        0 <= j < fleet.len(),
{
    match outcome.1 {
        ActionView::Publish(published) => broadcast_step(
            fleet.update(i, outcome.0)[j],
            published,
        ).1,
        action => if j == i {
            action
        } else {
            ActionView::Idle
        },
    }
}

/// An identifier that the access list does not hold authenticates nobody: the
/// session that presented it stays as it was, and so does every other session
/// of the hub; no peer is sent a frame and nothing is published.
pub proof fn law_refused_identifier_is_inert(
    fleet: Seq<SessionView>,
    i: int,
    id: Seq<char>,
    acl: Set<Seq<char>>,
)
    requires
        0 <= i < fleet.len(),
        !acl.contains(id),
    ensures
        ({
            let outcome = message_step(fleet[i], WebDataView::Auth { uuid: id }, acl);
            &&& outcome.0 == fleet[i]
            &&& fleet[i] is Unauthenticated ==> outcome == (
                SessionView::Unauthenticated,
                ActionView::Reject(id),
            )
            &&& fleet_after(fleet, i, outcome) == fleet
            &&& forall|j: int|
                0 <= j < fleet.len() ==> {
                    let told = #[trigger] fleet_action(fleet, i, outcome, j);
                    told == ActionView::Idle || (j == i && told == ActionView::Reject(id))
                }
        }),
{
    let outcome = message_step(fleet[i], WebDataView::Auth { uuid: id }, acl);
    assert(fleet_after(fleet, i, outcome) =~= fleet);
}

/// A terminate request from a session authenticated as `invoker` is sent on
/// to the peer of every session authenticated under another identifier, and
/// to no other: not to sessions under `invoker`, the requesting one among
/// them, nor to sessions that have not authenticated. No session changes
/// state.
pub proof fn law_terminate_reaches_all_but_invoker(
    fleet: Seq<SessionView>,
    i: int,
    invoker: Seq<char>,
    acl: Set<Seq<char>>,
)
    requires
        0 <= i < fleet.len(),
        fleet[i] == SessionView::Authenticated(invoker),
    ensures
        ({
            let outcome = message_step(fleet[i], WebDataView::RequestTerminate, acl);
            &&& outcome == (
                fleet[i],
                ActionView::Publish(BroadcastView::RequestTerminate(invoker)),
            )
            &&& fleet_after(fleet, i, outcome) == fleet
            &&& fleet_action(fleet, i, outcome, i) == ActionView::Idle
            &&& forall|j: int|
                0 <= j < fleet.len() ==> #[trigger] fleet_action(fleet, i, outcome, j) == (
                match fleet[j] {
                    SessionView::Authenticated(id) => if id == invoker {
                        ActionView::Idle
                    } else {
                        ActionView::Send(terminate_notice(invoker))
                    },
                    _ => ActionView::Idle,
                })
        }),
{
    let outcome = message_step(fleet[i], WebDataView::RequestTerminate, acl);
    assert(fleet.update(i, fleet[i]) =~= fleet);
    assert(fleet_after(fleet, i, outcome) =~= fleet);
}

/// A published terminate request is never echoed: whatever the state of a
/// session, it sends the notice on exactly when it is authenticated under an
/// identifier other than the invoker's.
pub proof fn law_self_exclusion(s: SessionView, invoker: Seq<char>)
    ensures
        broadcast_step(s, BroadcastView::RequestTerminate(invoker)).0 == s,
        broadcast_step(s, BroadcastView::RequestTerminate(invoker)).1 == ActionView::Send(
            terminate_notice(invoker),
        ) <==> (s matches SessionView::Authenticated(id) && id != invoker),
        broadcast_step(s, BroadcastView::RequestTerminate(invoker)).1 != ActionView::Send(
            terminate_notice(invoker),
        ) ==> broadcast_step(s, BroadcastView::RequestTerminate(invoker)).1 == ActionView::Idle,
{
}

/// The notice of a terminate request is never mistaken for a challenge.
proof fn lemma_notice_is_no_challenge(invoker: Seq<char>)
    ensures
        terminate_notice(invoker) != challenge(),
{
    reveal_strlit("terminate ");
    reveal_strlit("auth");
    assert(terminate_notice(invoker).len() >= 10);
    assert(challenge().len() == 4);
}

/// A session that has not authenticated, and is still open, is challenged at
/// every tick of its timer, however long it has lived.
pub proof fn law_challenged_until_authenticated(trace: Seq<Moment>, i: int)
    requires
        0 <= i < trace.len(),
        trace[i].event is Tick,
        state_after(SessionView::Unauthenticated, trace.take(i)) is Unauthenticated,
    ensures
        action_at(SessionView::Unauthenticated, trace, i) == ActionView::Send(challenge()),
        state_after(SessionView::Unauthenticated, trace.take(i + 1)) is Unauthenticated,
{
    let before = trace.take(i);
    let upto = trace.take(i + 1);
    assert(upto.drop_last() =~= before);
    assert(upto.last() == trace[i]);
}

/// Once authenticated, a session is authenticated or closed ever after.
proof fn lemma_authenticated_for_good(s: SessionView, trace: Seq<Moment>)
    requires
        !(s is Unauthenticated),
    ensures
        !(state_after(s, trace) is Unauthenticated),
    decreases trace.len(),
{
    if trace.len() > 0 {
        lemma_authenticated_for_good(s, trace.drop_last());
    }
}

/// The state after a trace is the state after its first part, carried through
/// the rest.
proof fn lemma_state_after_split(s: SessionView, trace: Seq<Moment>, n: int)
    requires
        0 <= n <= trace.len(),
    ensures
        state_after(s, trace) == state_after(state_after(s, trace.take(n)), trace.skip(n)),
    decreases trace.len(),
{
    if n == trace.len() {
        assert(trace.take(n) =~= trace);
        assert(trace.skip(n) =~= Seq::<Moment>::empty());
    } else {
        let shorter = trace.drop_last();
        lemma_state_after_split(s, shorter, n);
        assert(shorter.take(n) =~= trace.take(n));
        assert(shorter.skip(n) =~= trace.skip(n).drop_last());
        assert(trace.skip(n).last() == trace.last());
    }
}

/// A session that has authenticated is not challenged again for the rest of
/// its connection: from the moment it is authenticated, no tick and no other
/// event makes it send a challenge.
pub proof fn law_no_challenge_once_authenticated(
    s: SessionView,
    trace: Seq<Moment>,
    i: int,
    j: int,
)
    requires
        0 <= i <= j < trace.len(),
        state_after(s, trace.take(i)) is Authenticated,
    ensures
        action_at(s, trace, j) != ActionView::Send(challenge()),
        !(state_after(s, trace.take(j)) is Unauthenticated),
{
    let at_i = state_after(s, trace.take(i));
    let prefix = trace.take(j);
    lemma_state_after_split(s, prefix, i);
    assert(prefix.take(i) =~= trace.take(i));
    lemma_authenticated_for_good(at_i, prefix.skip(i));
    match trace[j].event {
        SessionEventView::Broadcast(BroadcastView::RequestTerminate(invoker)) => {
            lemma_notice_is_no_challenge(invoker);
        },
        _ => {},
    }
}

/// Nothing is published but the terminate request of an authenticated
/// session, under that session's own identifier: a session that has not
/// authenticated publishes nothing, whatever it is sent.
pub proof fn law_only_authenticated_publish(
    s: SessionView,
    event: SessionEventView,
    acl: Set<Seq<char>>,
)
    ensures
        match react(s, event, acl).1 {
            ActionView::Publish(published) => {
                &&& s matches SessionView::Authenticated(id)
                &&& published == BroadcastView::RequestTerminate(id)
                &&& react(s, event, acl).0 == s
            },
            _ => true,
        },
{
}

/// When the hub announces that it quits, every session that is still open
/// says farewell to its peer and closes.
pub proof fn law_quit_closes_every_session(fleet: Seq<SessionView>, j: int)
    requires
        0 <= j < fleet.len(),
        !(fleet[j] is Closed),
    ensures
        broadcast_step(fleet[j], BroadcastView::ServerQuit) == (
            SessionView::Closed,
            ActionView::Farewell(farewell()),
        ),
{
}

/// A closed session stays closed and asks for nothing more.
pub proof fn law_closed_is_final(trace: Seq<Moment>, i: int)
    requires
        0 <= i < trace.len(),
    ensures
        state_after(SessionView::Closed, trace) is Closed,
        action_at(SessionView::Closed, trace, i) == ActionView::Idle,
{
    lemma_closed_stays(trace);
    lemma_closed_stays(trace.take(i));
}

/// A closed session stays closed.
proof fn lemma_closed_stays(trace: Seq<Moment>)
    ensures
        state_after(SessionView::Closed, trace) is Closed,
    decreases trace.len(),
{
    if trace.len() > 0 {
        lemma_closed_stays(trace.drop_last());
    }
}

/// The access list is read when a peer presents an identifier and at no other
/// time: any other event is handled alike under any two lists.
pub proof fn law_list_read_only_on_auth(
    s: SessionView,
    event: SessionEventView,
    acl: Set<Seq<char>>,
    other: Set<Seq<char>>,
)
    ensures
        !presents_identifier(event) ==> react(s, event, acl) == react(s, event, other),
{
}

} // verus!
