//! What holds of the peer's session over time.

use crate::client::web::{
    peer_react, presumed_dead, PeerActionView, PeerEventView, PeerPhase, WebEvent,
};
use crate::frame::FrameView;
use vstd::prelude::*;

verus! {

/// One moment in the life of the session: what happened, and the clock's
/// reading then.
pub struct PeerMoment {
    pub event: PeerEventView,
    pub now: u64,
}

/// The phase of a session that started in `phase` and lived through `trace`.
pub open spec fn phase_after(phase: PeerPhase, trace: Seq<PeerMoment>, uuid: Seq<char>) -> PeerPhase
    decreases trace.len(),
{
    if trace.len() == 0 {
        phase
    } else {
        peer_react(
            phase_after(phase, trace.drop_last(), uuid),
            trace.last().event,
            trace.last().now,
            uuid,
        ).0
    }
}

/// The clock's reading at the last pong of `trace`, or `start` if it has none.
pub open spec fn last_pong(start: u64, trace: Seq<PeerMoment>) -> u64
    decreases trace.len(),
{
    if trace.len() == 0 {
        start
    } else if trace.last().event == PeerEventView::Frame(FrameView::Pong) {
        trace.last().now
    } else {
        last_pong(start, trace.drop_last())
    }
}

/// Whether an event is none of those by which a connection ends: a close
/// frame or the farewell text from the hub, a local stop, a failure of the
/// socket.
pub open spec fn keeps_open(event: PeerEventView) -> bool {
    match event {
        PeerEventView::Frame(FrameView::Close) => false,
        PeerEventView::Frame(FrameView::Text(text)) => text != "close"@,
        PeerEventView::Local(WebEvent::Stop) => false,
        PeerEventView::TransportFailed => false,
        _ => true,
    }
}

/// A heartbeat that finds the hub silent for longer than the liveness window
/// closes the session.
pub proof fn law_silence_closes(last_seen: u64, now: u64, uuid: Seq<char>)
    requires
        presumed_dead(last_seen, now),
    ensures
        peer_react(PeerPhase::Live { last_seen }, PeerEventView::Heartbeat, now, uuid) == (
            PeerPhase::Closed,
            PeerActionView::Close,
        ),
{
}

/// A heartbeat that finds the last pong within the liveness window sends a
/// ping and leaves the session live.
pub proof fn law_heartbeat_pings(last_seen: u64, now: u64, uuid: Seq<char>)
    requires
        !presumed_dead(last_seen, now),
    ensures
        peer_react(PeerPhase::Live { last_seen }, PeerEventView::Heartbeat, now, uuid) == (
            PeerPhase::Live { last_seen },
            PeerActionView::Ping,
        ),
{
}

/// While every heartbeat finds the last pong within the liveness window, and
/// nothing else ends the connection, the session stays live, however long the
/// trace; it remembers the last pong.
pub proof fn law_pongs_keep_alive(start: u64, trace: Seq<PeerMoment>, uuid: Seq<char>)
    requires
        forall|i: int| 0 <= i < trace.len() ==> keeps_open(#[trigger] trace[i].event),
        forall|i: int|
            0 <= i < trace.len() && #[trigger] trace[i].event is Heartbeat ==> !presumed_dead(
                last_pong(start, trace.take(i)),
                trace[i].now,
            ),
    ensures
        phase_after(PeerPhase::Live { last_seen: start }, trace, uuid) == (PeerPhase::Live {
            last_seen: last_pong(start, trace),
        }),
    decreases trace.len(),
{
    if trace.len() > 0 {
        let shorter = trace.drop_last();
        let n = trace.len() - 1;
        assert forall|i: int| 0 <= i < shorter.len() implies keeps_open(
            #[trigger] shorter[i].event,
        ) by {
            assert(shorter[i] == trace[i]);
        }
        assert forall|i: int|
            0 <= i < shorter.len() && #[trigger] shorter[i].event is Heartbeat implies !presumed_dead(
            last_pong(start, shorter.take(i)),
            shorter[i].now,
        ) by {
            assert(shorter[i] == trace[i]);
            assert(shorter.take(i) =~= trace.take(i));
        }
        law_pongs_keep_alive(start, shorter, uuid);
        assert(trace.take(n) =~= shorter);
        assert(trace.last() == trace[n]);
        assert(keeps_open(trace[n].event));
    }
}

/// A closed session stays closed and asks for nothing more.
pub proof fn law_closed_is_final(trace: Seq<PeerMoment>, uuid: Seq<char>)
    ensures
        phase_after(PeerPhase::Closed, trace, uuid) is Closed,
        forall|event: PeerEventView, now: u64| #[trigger]
            peer_react(PeerPhase::Closed, event, now, uuid) == (
                PeerPhase::Closed,
                PeerActionView::Idle,
            ),
    decreases trace.len(),
{
    if trace.len() > 0 {
        law_closed_is_final(trace.drop_last(), uuid);
    }
}

} // verus!
