//! What holds of a connection over its whole life.
//!
//! A life is told by the events that the task is given, in order. It is lawful when the
//! task awaits each of them. [`after`] is the state that the events lead to and
//! [`actions`] is what the task answers to them, one action to each event, which is what
//! [`crate::connection::Connection::start`] returns.
use crate::event::{CloseStep, NotifyProtocol, Polled};
use crate::model::{
    ConnectionState, PollActionView, PollEventView, PollRequestView, Stage, TaskActionView,
    TaskEventView,
};
use bytes::BytesMut;
use vstd::prelude::*;

verus! {

/// The state that `events` lead to from `state`.
pub open spec fn after<PeerId>(
    state: ConnectionState<PeerId>,
    events: Seq<TaskEventView>,
) -> ConnectionState<PeerId>
    decreases events.len(),
{
    if events.len() == 0 {
        state
    } else {
        after(state, events.drop_last()).step(events.last()).0
    }
}

/// The actions with which the task answers `events`, from `state` on.
pub open spec fn actions<PeerId>(
    state: ConnectionState<PeerId>,
    events: Seq<TaskEventView>,
) -> Seq<TaskActionView<PeerId>>
    decreases events.len(),
{
    if events.len() == 0 {
        seq![]
    } else {
        actions(state, events.drop_last()).push(
            after(state, events.drop_last()).step(events.last()).1,
        )
    }
}

/// Whether the task awaits each of `events` when its turn comes, from `state` on.
pub open spec fn lawful<PeerId>(
    state: ConnectionState<PeerId>,
    events: Seq<TaskEventView>,
) -> bool
    decreases events.len(),
{
    events.len() > 0 ==> {
        &&& lawful(state, events.drop_last())
        &&& after(state, events.drop_last()).awaits(events.last())
    }
}

/// The local node asks for the connection to be closed, or can no longer ask.
pub open spec fn is_local_shutdown(event: TaskEventView) -> bool {
    event matches TaskEventView::Poll(PollEventView::Shutdown(Polled::Ready(_)))
}

/// A channel or the outbound substream has failed or was closed.
pub open spec fn is_failure(event: TaskEventView) -> bool {
    match event {
        TaskEventView::Poll(PollEventView::Outgoing(Polled::Ready(None))) => true,
        TaskEventView::Poll(PollEventView::OutboundReady(Polled::Ready(Err(_)))) => true,
        TaskEventView::Poll(PollEventView::OutboundSent(Err(_))) => true,
        TaskEventView::Poll(PollEventView::OutboundFlushed(Polled::Ready(Err(_)))) => true,
        TaskEventView::Poll(PollEventView::Reserved(Polled::Ready(Err(_)))) => true,
        TaskEventView::ItemSent(Err(_)) => true,
        _ => false,
    }
}

/// The inbound substream has ended or failed.
pub open spec fn is_half_close(event: TaskEventView) -> bool {
    match event {
        TaskEventView::Poll(PollEventView::Inbound(Polled::Ready(None))) => true,
        TaskEventView::Poll(PollEventView::Inbound(Polled::Ready(Some(Err(_))))) => true,
        _ => false,
    }
}

/// A poll starts with this event.
pub open spec fn starts_poll(event: TaskEventView) -> bool {
    match event {
        TaskEventView::Poll(PollEventView::Polled) => true,
        TaskEventView::ItemSent(Ok(_)) => true,
        _ => false,
    }
}

/// The notifications taken from the queues, in order.
pub open spec fn taken(events: Seq<TaskEventView>) -> Seq<Seq<u8>>
    decreases events.len(),
{
    if events.len() == 0 {
        seq![]
    } else {
        match events.last() {
            TaskEventView::Poll(PollEventView::Outgoing(Polled::Ready(Some(notification)))) => {
                taken(events.drop_last()).push(notification)
            },
            _ => taken(events.drop_last()),
        }
    }
}

/// The notifications handed to the outbound substream, in order.
pub open spec fn handed<PeerId>(actions: Seq<TaskActionView<PeerId>>) -> Seq<Seq<u8>>
    decreases actions.len(),
{
    if actions.len() == 0 {
        seq![]
    } else {
        match actions.last() {
            TaskActionView::Request(PollRequestView::StartSend(frame)) => {
                handed(actions.drop_last()).push(frame)
            },
            _ => handed(actions.drop_last()),
        }
    }
}

/// The notifications read from the inbound substream, in order.
pub open spec fn received(events: Seq<TaskEventView>) -> Seq<BytesMut>
    decreases events.len(),
{
    if events.len() == 0 {
        seq![]
    } else {
        match events.last() {
            TaskEventView::Poll(PollEventView::Inbound(Polled::Ready(Some(Ok(notification))))) => {
                received(events.drop_last()).push(notification)
            },
            _ => received(events.drop_last()),
        }
    }
}

/// What is sent to the user, in order.
pub open spec fn forwarded<PeerId>(actions: Seq<TaskActionView<PeerId>>) -> Seq<
    (PeerId, BytesMut),
>
    decreases actions.len(),
{
    if actions.len() == 0 {
        seq![]
    } else {
        match actions.last() {
            TaskActionView::SendItem { peer, notification } => {
                forwarded(actions.drop_last()).push((peer, notification))
            },
            _ => forwarded(actions.drop_last()),
        }
    }
}

/// Whether the channel to the user holds a reserved slot that was not used yet.
pub open spec fn slot_reserved(events: Seq<TaskEventView>) -> bool
    decreases events.len(),
{
    if events.len() == 0 {
        false
    } else {
        match events.last() {
            TaskEventView::Poll(PollEventView::Reserved(Polled::Ready(Ok(_)))) => true,
            TaskEventView::Poll(PollEventView::Reserved(_)) => false,
            TaskEventView::Poll(PollEventView::Inbound(Polled::Ready(Some(Ok(_))))) => false,
            _ => slot_reserved(events.drop_last()),
        }
    }
}

/// Whether the shutdown signal was polled in the poll under way and will wake the task.
pub open spec fn watches_shutdown(events: Seq<TaskEventView>) -> bool
    decreases events.len(),
{
    if events.len() == 0 || starts_poll(events.last()) {
        false
    } else {
        match events.last() {
            TaskEventView::Poll(PollEventView::Shutdown(signal)) => signal is Pending,
            _ => watches_shutdown(events.drop_last()),
        }
    }
}

/// Whether, in the poll under way, the queues were the last to be asked about outbound work
/// and will wake the task.
pub open spec fn watches_queues(events: Seq<TaskEventView>) -> bool
    decreases events.len(),
{
    if events.len() == 0 || starts_poll(events.last()) {
        false
    } else {
        match events.last() {
            TaskEventView::Poll(PollEventView::Outgoing(outgoing)) => outgoing is Pending,
            TaskEventView::Poll(PollEventView::OutboundReady(_)) => false,
            _ => watches_queues(events.drop_last()),
        }
    }
}

/// Whether, in the poll under way, the outbound substream was the last to be asked about
/// outbound work and will wake the task.
pub open spec fn watches_readiness(events: Seq<TaskEventView>) -> bool
    decreases events.len(),
{
    if events.len() == 0 || starts_poll(events.last()) {
        false
    } else {
        match events.last() {
            TaskEventView::Poll(PollEventView::Outgoing(_)) => false,
            TaskEventView::Poll(PollEventView::OutboundReady(ready)) => ready is Pending,
            _ => watches_readiness(events.drop_last()),
        }
    }
}

/// Whether a notification was handed to the outbound substream since it was last asked to
/// flush.
pub open spec fn flush_due(events: Seq<TaskEventView>) -> bool
    decreases events.len(),
{
    if events.len() == 0 {
        false
    } else {
        match events.last() {
            TaskEventView::Poll(PollEventView::OutboundReady(Polled::Ready(Ok(_)))) => true,
            TaskEventView::Poll(PollEventView::OutboundFlushed(_)) => false,
            _ => flush_due(events.drop_last()),
        }
    }
}

/// The number of events that the last poll has taken so far, the one that started it
/// included.
pub open spec fn poll_length(events: Seq<TaskEventView>) -> nat
    decreases events.len(),
{
    if events.len() == 0 {
        0
    } else if starts_poll(events.last()) {
        1
    } else {
        match events.last() {
            TaskEventView::Poll(_) => poll_length(events.drop_last()) + 1,
            TaskEventView::ItemSent(_) => poll_length(events.drop_last()),
        }
    }
}

/// The number of notifications handed to the outbound substream in the last poll.
pub open spec fn poll_sends(events: Seq<TaskEventView>) -> nat
    decreases events.len(),
{
    if events.len() == 0 || starts_poll(events.last()) {
        0
    } else {
        match events.last() {
            TaskEventView::Poll(PollEventView::OutboundReady(Polled::Ready(Ok(_)))) => {
                poll_sends(events.drop_last()) + 1
            },
            _ => poll_sends(events.drop_last()),
        }
    }
}

/// The invariant of a connection holds in every state of its life, and the peer never
/// changes.
pub proof fn law_invariant<PeerId>(state: ConnectionState<PeerId>, events: Seq<TaskEventView>)
    requires
        state.wf(),
        lawful(state, events),
    ensures
        after(state, events).wf(),
        after(state, events).peer == state.peer,
    decreases events.len(),
{
    if events.len() > 0 {
        law_invariant(state, events.drop_last());
    }
}

/// A poll never comes back with the end of the stream of events: it is pending or has an
/// event.
pub proof fn law_events_never_end<PeerId>(
    state: ConnectionState<PeerId>,
    event: PollEventView,
)
    ensures
        state.poll(event).1 matches PollActionView::Return { poll: Polled::Ready(item), .. }
            ==> item is Some,
{
}

/// The connection is closed when the local node asks for it or when a channel or the
/// outbound substream fails, and on nothing else. The protocol is told unless the local
/// node asked, and the user is told in any case.
pub proof fn law_close<PeerId>(state: ConnectionState<PeerId>, event: TaskEventView)
    ensures
        state.step(event).1 is Close <==> is_local_shutdown(event) || is_failure(event),
        state.step(event).1 matches TaskActionView::Close(steps) ==> {
            &&& steps == crate::model::close_steps(
                state.peer,
                if is_local_shutdown(event) {
                    NotifyProtocol::No
                } else {
                    NotifyProtocol::Yes
                },
            )
            &&& steps.contains(CloseStep::TellProtocol(state.peer)) <==> !is_local_shutdown(event)
            &&& steps.last() == CloseStep::ReportStreamClosed(state.peer)
        },
{
    if let TaskActionView::Close(steps) = state.step(event).1 {
        if !is_local_shutdown(event) {
            assert(steps[2] == CloseStep::TellProtocol(state.peer));
        }
    }
}

/// Closing is the last thing that the task does: it then awaits no event, and until then
/// it always awaits one.
pub proof fn law_close_is_final<PeerId>(peer: PeerId, events: Seq<TaskEventView>)
    requires
        lawful(ConnectionState::initial(peer), events),
    ensures
        ({
            let state = after(ConnectionState::initial(peer), events);
            let done = actions(ConnectionState::initial(peer), events);
            &&& (done.len() > 0 && done.last() is Close) <==> !(exists|event: TaskEventView|
                state.awaits(event))
            &&& forall|i: int| 0 <= i < done.len() - 1 ==> !(#[trigger] done[i] is Close)
        }),
    decreases events.len(),
{
    let start = ConnectionState::initial(peer);
    let state = after(start, events);
    lemma_len(start, events);
    if events.len() > 0 {
        law_close_is_final(peer, events.drop_last());
        lemma_len(start, events.drop_last());
        let before = after(start, events.drop_last());
        assert(before.awaits(events.last()));
        law_close(before, events.last());
    }
    lemma_awaits(state);
}

/// When the inbound substream ends or fails, the connection is not torn down: it only
/// marks the read side as closed, keeps what it holds, and has the task woken.
pub proof fn law_half_close<PeerId>(state: ConnectionState<PeerId>, event: TaskEventView)
    requires
        is_half_close(event),
    ensures
        state.step(event) == (
            ConnectionState { stage: Stage::Idle, read_closed: true, ..state },
            TaskActionView::<PeerId>::Suspend { wake: true },
        ),
{
}

/// The read side counts as closed from the moment the inbound substream ended or failed,
/// and for no other reason.
pub proof fn law_read_closed<PeerId>(peer: PeerId, events: Seq<TaskEventView>)
    requires
        lawful(ConnectionState::initial(peer), events),
    ensures
        after(ConnectionState::initial(peer), events).read_closed <==> exists|i: int|
            0 <= i < events.len() && is_half_close(#[trigger] events[i]),
    decreases events.len(),
{
    if events.len() > 0 {
        let before = events.drop_last();
        law_read_closed(peer, before);
        if after(ConnectionState::initial(peer), before).read_closed {
            let i = choose|i: int| 0 <= i < before.len() && is_half_close(#[trigger] before[i]);
            assert(events[i] == before[i]);
        }
        if is_half_close(events.last()) {
            assert(is_half_close(events[events.len() - 1]));
        }
        if exists|i: int| 0 <= i < events.len() && is_half_close(#[trigger] events[i]) {
            let i = choose|i: int| 0 <= i < events.len() && is_half_close(#[trigger] events[i]);
            if i < before.len() {
                assert(before[i] == events[i]);
            }
        }
    }
}

/// Once the read side is closed it stays closed: the connection never again reserves a
/// slot for a notification, reads one or forwards one.
pub proof fn law_half_closed_never_reads<PeerId>(
    state: ConnectionState<PeerId>,
    events: Seq<TaskEventView>,
)
    requires
        state.wf(),
        state.read_closed,
        lawful(state, events),
    ensures
        after(state, events).read_closed,
        forall|i: int|
            0 <= i < events.len() ==> {
                let action = #[trigger] actions(state, events)[i];
                &&& !(action is SendItem)
                &&& action != TaskActionView::<PeerId>::Request(PollRequestView::PollReserve)
                &&& action != TaskActionView::<PeerId>::Request(PollRequestView::PollInbound)
            },
    decreases events.len(),
{
    lemma_len(state, events);
    if events.len() > 0 {
        law_half_closed_never_reads(state, events.drop_last());
        law_invariant(state, events.drop_last());
        lemma_len(state, events.drop_last());
        let before = actions(state, events.drop_last());
        assert forall|i: int| 0 <= i < events.len() implies {
            let action = #[trigger] actions(state, events)[i];
            &&& !(action is SendItem)
            &&& action != TaskActionView::<PeerId>::Request(PollRequestView::PollReserve)
            &&& action != TaskActionView::<PeerId>::Request(PollRequestView::PollInbound)
        } by {
            if i < before.len() {
                assert(actions(state, events)[i] == before[i]);
            }
        }
    }
}

/// Writing does not depend on the read side: up to the flush, a connection whose read side
/// is closed answers every event as one whose read side is open.
pub proof fn law_half_closed_still_writes<PeerId>(
    state: ConnectionState<PeerId>,
    event: TaskEventView,
)
    requires
        match event {
            TaskEventView::Poll(PollEventView::OutboundFlushed(flushed)) => flushed
                matches Polled::Ready(Err(_)),
            TaskEventView::Poll(PollEventView::Reserved(_)) => false,
            TaskEventView::Poll(PollEventView::Inbound(_)) => false,
            _ => true,
        },
    ensures
        ({
            let closed = ConnectionState { read_closed: true, ..state };
            let open = ConnectionState { read_closed: false, ..state };
            &&& closed.step(event).1 == open.step(event).1
            &&& closed.step(event).0 == ConnectionState {
                read_closed: true,
                ..open.step(event).0
            }
        }),
{
}

/// Every poll, half-closed or not, looks at the shutdown signal before anything else, and
/// closes the connection without telling the protocol if the signal was given.
pub proof fn law_local_shutdown<PeerId>(
    state: ConnectionState<PeerId>,
    start: TaskEventView,
    signal: TaskEventView,
)
    requires
        starts_poll(start),
        is_local_shutdown(signal),
    ensures
        ({
            let (polled, action) = state.step(start);
            &&& action == TaskActionView::<PeerId>::Request(PollRequestView::PollShutdown)
            &&& polled.awaits(signal)
            &&& polled.step(signal).1 == TaskActionView::Close(
                crate::model::close_steps(state.peer, NotifyProtocol::No),
            )
        }),
{
}

/// Notifications to send are neither lost, doubled nor reordered: what was taken from the
/// queues is what was handed to the outbound substream, followed by the one that is held,
/// if any. The one exception is the failure of the substream that the held notification
/// waits for: it closes the connection and drops that notification.
pub proof fn law_outbound_order<PeerId>(peer: PeerId, events: Seq<TaskEventView>)
    requires
        lawful(ConnectionState::initial(peer), events),
    ensures
        ({
            let sent = handed(actions(ConnectionState::initial(peer), events));
            let held = after(ConnectionState::initial(peer), events).next_notification;
            if events.len() > 0 && (events.last() matches TaskEventView::Poll(
                PollEventView::OutboundReady(Polled::Ready(Err(_))),
            )) {
                &&& held is None
                &&& taken(events).len() == sent.len() + 1
                &&& sent == taken(events).drop_last()
            } else {
                taken(events) == match held {
                    Some(notification) => sent.push(notification),
                    None => sent,
                }
            }
        }),
    decreases events.len(),
{
    let start = ConnectionState::initial(peer);
    if events.len() > 0 {
        let before = events.drop_last();
        law_outbound_order(peer, before);
        law_invariant(start, before);
        let state = after(start, before);
        assert(state.awaits(events.last()));
        let done = actions(start, events);
        assert(done.drop_last() =~= actions(start, before));
        if before.len() > 0 {
            assert(after(start, before.drop_last()).awaits(before.last()));
        }
    }
}

/// The outbound substream is handed a notification exactly when it has just said that it
/// is ready for one.
pub proof fn law_send_when_ready<PeerId>(
    state: ConnectionState<PeerId>,
    event: TaskEventView,
)
    ensures
        (state.step(event).1 matches TaskActionView::Request(PollRequestView::StartSend(_)))
            <==> (event matches TaskEventView::Poll(
            PollEventView::OutboundReady(Polled::Ready(Ok(_))),
        )),
{
}

/// Whenever the task suspends or forwards a notification, the outbound substream was asked
/// to flush everything that it was handed.
pub proof fn law_flushed<PeerId>(peer: PeerId, events: Seq<TaskEventView>)
    requires
        lawful(ConnectionState::initial(peer), events),
        events.len() > 0,
        actions(ConnectionState::initial(peer), events).last() is Suspend || actions(
            ConnectionState::initial(peer),
            events,
        ).last() is SendItem,
    ensures
        !flush_due(events),
{
    lemma_flushed(peer, events);
    let before = after(ConnectionState::initial(peer), events.drop_last());
    assert(before.awaits(events.last()));
}

/// Every notification received is forwarded to the user, in order and with the peer that
/// sent it, and nothing else is.
pub proof fn law_inbound_order<PeerId>(peer: PeerId, events: Seq<TaskEventView>)
    requires
        lawful(ConnectionState::initial(peer), events),
    ensures
        forwarded(actions(ConnectionState::initial(peer), events)) == received(events).map_values(
            |notification: BytesMut| (peer, notification),
        ),
    decreases events.len(),
{
    let start = ConnectionState::initial(peer);
    let pair = |notification: BytesMut| (peer, notification);
    if events.len() > 0 {
        let before = events.drop_last();
        law_inbound_order(peer, before);
        law_invariant(start, before);
        let done = actions(start, events);
        assert(done.drop_last() =~= actions(start, before));
        assert(forwarded(done) =~= received(events).map_values(pair));
    } else {
        assert(received(events).map_values(pair) =~= seq![]);
    }
}

/// The inbound substream is read exactly when a slot in the channel to the user has just
/// been reserved.
pub proof fn law_read_when_reserved<PeerId>(
    state: ConnectionState<PeerId>,
    event: TaskEventView,
)
    ensures
        state.step(event).1 == TaskActionView::<PeerId>::Request(PollRequestView::PollInbound)
            <==> (event matches TaskEventView::Poll(
            PollEventView::Reserved(Polled::Ready(Ok(_))),
        )),
{
}

/// A notification is only put into the channel to the user when a slot was reserved for
/// it that no other notification has used.
pub proof fn law_reserved_before_forwarding<PeerId>(peer: PeerId, events: Seq<TaskEventView>)
    requires
        lawful(ConnectionState::initial(peer), events),
        events.len() > 0,
        actions(ConnectionState::initial(peer), events).last() is SendItem,
    ensures
        slot_reserved(events.drop_last()),
{
    let before = events.drop_last();
    lemma_reserved(peer, before);
    assert(after(ConnectionState::initial(peer), before).awaits(events.last()));
}

/// A task that suspends is woken when it has to be: by the shutdown signal; by the outbound
/// substream if a notification is held for it, else by the queues; and, while the read side
/// is open, by the channel to the user or the inbound substream. Where the
/// inbound substream has just ended or failed, the task has itself woken at once.
pub proof fn law_suspended_task_is_woken<PeerId>(peer: PeerId, events: Seq<TaskEventView>)
    requires
        lawful(ConnectionState::initial(peer), events),
        events.len() > 0,
        actions(ConnectionState::initial(peer), events).last() is Suspend,
    ensures
        watches_shutdown(events),
        ({
            let state = after(ConnectionState::initial(peer), events);
            if state.next_notification is Some {
                watches_readiness(events)
            } else {
                watches_queues(events)
            }
        }),
        ({
            let state = after(ConnectionState::initial(peer), events);
            let wake = actions(ConnectionState::initial(peer), events).last()->wake;
            &&& wake <==> is_half_close(events.last())
            &&& !state.read_closed ==> match events.last() {
                TaskEventView::Poll(PollEventView::Reserved(reserved)) => reserved is Pending,
                TaskEventView::Poll(PollEventView::Inbound(inbound)) => inbound is Pending,
                _ => false,
            }
        }),
{
    let before = events.drop_last();
    lemma_watches(peer, events);
    lemma_watches(peer, before);
    assert(after(ConnectionState::initial(peer), before).awaits(events.last()));
}

/// A poll comes to an end: it takes three events for each notification that it hands to
/// the outbound substream, and at most seven others.
pub proof fn law_poll_ends<PeerId>(peer: PeerId, events: Seq<TaskEventView>)
    requires
        lawful(ConnectionState::initial(peer), events),
    ensures
        poll_length(events) <= 3 * poll_sends(events) + 7,
{
    lemma_poll_length(peer, events);
}

/// To each event there is one action.
proof fn lemma_len<PeerId>(state: ConnectionState<PeerId>, events: Seq<TaskEventView>)
    ensures
        actions(state, events).len() == events.len(),
    decreases events.len(),
{
    if events.len() > 0 {
        lemma_len(state, events.drop_last());
    }
}

/// Some event is awaited at every stage but the last.
proof fn lemma_awaits<PeerId>(state: ConnectionState<PeerId>)
    ensures
        (exists|event: TaskEventView| state.awaits(event)) <==> state.stage != Stage::Closed,
{
    let event = match state.stage {
        Stage::Idle => TaskEventView::Poll(PollEventView::Polled),
        Stage::Shutdown => TaskEventView::Poll(PollEventView::Shutdown(Polled::Pending)),
        Stage::Outgoing => TaskEventView::Poll(PollEventView::Outgoing(Polled::Pending)),
        Stage::OutboundReady => TaskEventView::Poll(PollEventView::OutboundReady(Polled::Pending)),
        Stage::Sending => TaskEventView::Poll(PollEventView::OutboundSent(Ok(()))),
        Stage::Flush => TaskEventView::Poll(PollEventView::OutboundFlushed(Polled::Pending)),
        Stage::Reserve => TaskEventView::Poll(PollEventView::Reserved(Polled::Pending)),
        Stage::Inbound => TaskEventView::Poll(PollEventView::Inbound(Polled::Pending)),
        _ => TaskEventView::ItemSent(Ok(())),
    };
    if state.stage != Stage::Closed {
        assert(state.awaits(event));
    }
}

/// A flush can only be due while notifications are being handed over.
proof fn lemma_flushed<PeerId>(peer: PeerId, events: Seq<TaskEventView>)
    requires
        lawful(ConnectionState::initial(peer), events),
    ensures
        flush_due(events) ==> match after(ConnectionState::initial(peer), events).stage {
            Stage::Outgoing | Stage::OutboundReady | Stage::Sending | Stage::Flush => true,
            Stage::Closed => true,
            _ => false,
        },
    decreases events.len(),
{
    if events.len() > 0 {
        lemma_flushed(peer, events.drop_last());
    }
}

/// The inbound substream is only asked while a slot is reserved.
proof fn lemma_reserved<PeerId>(peer: PeerId, events: Seq<TaskEventView>)
    requires
        lawful(ConnectionState::initial(peer), events),
    ensures
        after(ConnectionState::initial(peer), events).stage == Stage::Inbound ==> slot_reserved(
            events,
        ),
    decreases events.len(),
{
    if events.len() > 0 {
        lemma_reserved(peer, events.drop_last());
    }
}

/// Past the shutdown signal, it is watched; past the handing over of notifications, so is
/// what the next one waits for.
proof fn lemma_watches<PeerId>(peer: PeerId, events: Seq<TaskEventView>)
    requires
        lawful(ConnectionState::initial(peer), events),
    ensures
        ({
            let state = after(ConnectionState::initial(peer), events);
            match state.stage {
                Stage::Outgoing | Stage::OutboundReady | Stage::Sending => watches_shutdown(events),
                Stage::Flush | Stage::Reserve | Stage::Inbound => {
                    &&& watches_shutdown(events)
                    &&& if state.next_notification is Some {
                        watches_readiness(events)
                    } else {
                        watches_queues(events)
                    }
                },
                _ => true,
            }
        }),
    decreases events.len(),
{
    if events.len() > 0 {
        lemma_watches(peer, events.drop_last());
        law_invariant(ConnectionState::initial(peer), events.drop_last());
    }
}

/// How long a poll can have taken to come to each stage.
proof fn lemma_poll_length<PeerId>(peer: PeerId, events: Seq<TaskEventView>)
    requires
        lawful(ConnectionState::initial(peer), events),
    ensures
        poll_length(events) <= 3 * poll_sends(events) + match after(
            ConnectionState::initial(peer),
            events,
        ).stage {
            Stage::Shutdown | Stage::Sending => 1int,
            Stage::Outgoing => 2,
            Stage::OutboundReady => 3,
            Stage::Flush => 4,
            Stage::Reserve => 5,
            Stage::Inbound => 6,
            Stage::Idle | Stage::Forwarding | Stage::Closed => 7,
        },
    decreases events.len(),
{
    if events.len() > 0 {
        lemma_poll_length(peer, events.drop_last());
    }
}

} // verus!
