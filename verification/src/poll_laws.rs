//! What holds of a connection that is polled as a stream of events, and how the task that
//! runs it relates to those polls.
//!
//! The laws on a single call hold in every state, reached or not. The laws on many calls
//! are about conversations: the connection is polled, and every request that it makes is
//! answered by what was asked for.
use crate::event::{
    CloseStep, ConnectionEvent, Failed, NotifyProtocol, PollAction, PollEvent, PollRequest, Polled,
    TaskAction, TaskEvent,
};
use crate::model::{
    ConnectionState, PollActionView, PollEventView, PollRequestView, Stage, TaskActionView,
    TaskEventView,
};
use bytes::{Bytes, BytesMut};
use vstd::prelude::*;

verus! {

/// Whether `event` answers `request`.
pub open spec fn answers_request(request: PollRequestView, event: PollEventView) -> bool {
    match request {
        PollRequestView::PollShutdown => event is Shutdown,
        PollRequestView::PollOutgoing => event is Outgoing,
        PollRequestView::PollOutboundReady => event is OutboundReady,
        PollRequestView::StartSend(_) => event is OutboundSent,
        PollRequestView::PollFlush => event is OutboundFlushed,
        PollRequestView::PollReserve => event is Reserved,
        PollRequestView::PollInbound => event is Inbound,
    }
}

/// Whether `event` may follow `action` of a poll: a request is answered, and a poll that is
/// over is followed by the next one, unless it was the local node that closed the
/// connection.
pub open spec fn follows(action: PollActionView, event: PollEventView) -> bool {
    match action {
        PollActionView::Request(request) => answers_request(request, event),
        PollActionView::Return {
            poll: Polled::Ready(
                Some(ConnectionEvent::CloseConnection { notify: NotifyProtocol::No }),
            ),
            ..
        } => false,
        PollActionView::Return { .. } => event is Polled,
    }
}

/// Whether `event` may follow `action` of the task.
pub open spec fn follows_in_task<PeerId>(
    action: TaskActionView<PeerId>,
    event: TaskEventView,
) -> bool {
    match action {
        TaskActionView::Request(request) => {
            event matches TaskEventView::Poll(answer) && answers_request(request, answer)
        },
        TaskActionView::Suspend { .. } => event == TaskEventView::Poll(PollEventView::Polled),
        TaskActionView::SendItem { .. } => event is ItemSent,
        TaskActionView::Close(_) => false,
    }
}

/// The steps that close the connection to `peer`, told or not told to the protocol.
pub open spec fn closing<PeerId>(peer: PeerId, tell: bool) -> Seq<CloseStep<PeerId>> {
    let substreams = seq![CloseStep::CloseInbound, CloseStep::CloseOutbound];
    let protocol = if tell {
        seq![CloseStep::TellProtocol(peer)]
    } else {
        seq![]
    };
    substreams + protocol + seq![CloseStep::ReportStreamClosed(peer)]
}

/// The state that `events` lead to from `state`, when the connection is polled as a stream.
pub open spec fn polled_after<PeerId>(
    state: ConnectionState<PeerId>,
    events: Seq<PollEventView>,
) -> ConnectionState<PeerId>
    decreases events.len(),
{
    if events.len() == 0 {
        state
    } else {
        polled_after(state, events.drop_last()).poll(events.last()).0
    }
}

/// The actions that answer `events`, when the connection is polled as a stream.
pub open spec fn poll_actions<PeerId>(
    state: ConnectionState<PeerId>,
    events: Seq<PollEventView>,
) -> Seq<PollActionView>
    decreases events.len(),
{
    if events.len() == 0 {
        seq![]
    } else {
        poll_actions(state, events.drop_last()).push(
            polled_after(state, events.drop_last()).poll(events.last()).1,
        )
    }
}

/// Whether `events` are a conversation with a new connection to `peer`: it is polled first,
/// and each event may follow the action before it.
pub open spec fn is_conversation<PeerId>(peer: PeerId, events: Seq<PollEventView>) -> bool
    decreases events.len(),
{
    if events.len() == 0 {
        true
    } else if events.len() == 1 {
        events[0] is Polled
    } else {
        &&& is_conversation(peer, events.drop_last())
        &&& follows(
            poll_actions(ConnectionState::initial(peer), events.drop_last()).last(),
            events.last(),
        )
    }
}

/// As [`is_conversation`], with the task that runs a new connection to `peer`.
pub open spec fn is_task_conversation<PeerId>(peer: PeerId, events: Seq<TaskEventView>) -> bool
    decreases events.len(),
{
    if events.len() == 0 {
        true
    } else if events.len() == 1 {
        events[0] == TaskEventView::Poll(PollEventView::Polled)
    } else {
        &&& is_task_conversation(peer, events.drop_last())
        &&& follows_in_task(
            crate::laws::actions(ConnectionState::initial(peer), events.drop_last()).last(),
            events.last(),
        )
    }
}

/// The notifications taken from the queues, in order.
pub open spec fn queued(events: Seq<PollEventView>) -> Seq<Seq<u8>>
    decreases events.len(),
{
    if events.len() == 0 {
        seq![]
    } else {
        match events.last() {
            PollEventView::Outgoing(Polled::Ready(Some(notification))) => queued(
                events.drop_last(),
            ).push(notification),
            _ => queued(events.drop_last()),
        }
    }
}

/// The notifications taken from the queues, in order, without those for which the outbound
/// substream turned out to have failed.
pub open spec fn to_send(events: Seq<PollEventView>) -> Seq<Seq<u8>>
    decreases events.len(),
{
    if events.len() == 0 {
        seq![]
    } else {
        match events.last() {
            PollEventView::Outgoing(Polled::Ready(Some(notification))) => to_send(
                events.drop_last(),
            ).push(notification),
            PollEventView::OutboundReady(Polled::Ready(Err(_))) => to_send(
                events.drop_last(),
            ).drop_last(),
            _ => to_send(events.drop_last()),
        }
    }
}

/// The notifications handed to the outbound substream, in order.
pub open spec fn sent(actions: Seq<PollActionView>) -> Seq<Seq<u8>>
    decreases actions.len(),
{
    if actions.len() == 0 {
        seq![]
    } else {
        match actions.last() {
            PollActionView::Request(PollRequestView::StartSend(frame)) => sent(
                actions.drop_last(),
            ).push(frame),
            _ => sent(actions.drop_last()),
        }
    }
}

/// The notifications read from the inbound substream, in order.
pub open spec fn read(events: Seq<PollEventView>) -> Seq<BytesMut>
    decreases events.len(),
{
    if events.len() == 0 {
        seq![]
    } else {
        match events.last() {
            PollEventView::Inbound(Polled::Ready(Some(Ok(notification)))) => read(
                events.drop_last(),
            ).push(notification),
            _ => read(events.drop_last()),
        }
    }
}

/// The notifications that polls came back with, in order.
pub open spec fn given(actions: Seq<PollActionView>) -> Seq<BytesMut>
    decreases actions.len(),
{
    if actions.len() == 0 {
        seq![]
    } else {
        match actions.last() {
            PollActionView::Return {
                poll: Polled::Ready(Some(ConnectionEvent::NotificationReceived { notification })),
                ..
            } => given(actions.drop_last()).push(notification),
            _ => given(actions.drop_last()),
        }
    }
}

/// The outbound substream was found to have failed when a notification was to go to it.
pub open spec fn fails_readiness(event: PollEventView) -> bool {
    event matches PollEventView::OutboundReady(Polled::Ready(Err(_)))
}

// ---- A single poll event ----

/// A poll closes the connection with notice to the protocol exactly when a channel or the
/// outbound substream has failed or was closed, and without notice exactly when the local
/// node asked for it. No answer that is merely pending closes it, nor does the remote.
pub proof fn law_poll_closes<PeerId>(state: ConnectionState<PeerId>, event: PollEventView)
    ensures
        state.poll(event).1 == (PollActionView::Return {
            poll: Polled::Ready(
                Some(ConnectionEvent::CloseConnection { notify: NotifyProtocol::Yes }),
            ),
            wake: false,
        }) <==> crate::laws::is_failure(TaskEventView::Poll(event)),
        state.poll(event).1 == (PollActionView::Return {
            poll: Polled::Ready(
                Some(ConnectionEvent::CloseConnection { notify: NotifyProtocol::No }),
            ),
            wake: false,
        }) <==> crate::laws::is_local_shutdown(TaskEventView::Poll(event)),
{
}

/// A poll comes back with a notification exactly when the inbound substream gave it.
pub proof fn law_poll_receives<PeerId>(
    state: ConnectionState<PeerId>,
    event: PollEventView,
    notification: BytesMut,
)
    ensures
        state.poll(event).1 == (PollActionView::Return {
            poll: Polled::Ready(Some(ConnectionEvent::NotificationReceived { notification })),
            wake: false,
        }) <==> event == PollEventView::Inbound(Polled::Ready(Some(Ok(notification)))),
{
}

/// A poll is left pending with the task woken exactly when the inbound substream has ended
/// or failed. It is left pending otherwise exactly when the channel to the user or the
/// inbound substream has to be waited for, or when nothing is to be read any more and the
/// flush has not failed.
pub proof fn law_poll_pends<PeerId>(state: ConnectionState<PeerId>, event: PollEventView)
    ensures
        state.poll(event).1 == (PollActionView::Return { poll: Polled::Pending, wake: true })
            <==> crate::laws::is_half_close(TaskEventView::Poll(event)),
        state.poll(event).1 == (PollActionView::Return { poll: Polled::Pending, wake: false })
            <==> match event {
            PollEventView::Reserved(reserved) => reserved is Pending,
            PollEventView::Inbound(inbound) => inbound is Pending,
            PollEventView::OutboundFlushed(_) => state.read_closed && !crate::laws::is_failure(
                TaskEventView::Poll(event),
            ),
            _ => false,
        },
{
}

/// A poll begins with the shutdown signal, and only then.
pub proof fn law_poll_begins<PeerId>(state: ConnectionState<PeerId>, event: PollEventView)
    ensures
        state.poll(event).1 == PollActionView::Request(PollRequestView::PollShutdown) <==> event
            is Polled,
{
}

/// When the shutdown signal is pending, or the last notification was taken, the next one is
/// turned to: one that is held has the outbound substream asked for readiness, and with
/// none held the queues are asked. A notification from the queues is turned to at once.
pub proof fn law_poll_turns_to_outgoing<PeerId>(
    state: ConnectionState<PeerId>,
    event: PollEventView,
)
    ensures
        ({
            let turns = match event {
                PollEventView::Shutdown(signal) => signal is Pending,
                PollEventView::OutboundSent(sent) => sent is Ok,
                _ => false,
            };
            let arrives = event matches PollEventView::Outgoing(Polled::Ready(Some(_)));
            let action = state.poll(event).1;
            &&& action == PollActionView::Request(PollRequestView::PollOutgoing) <==> turns
                && state.next_notification is None
            &&& action == PollActionView::Request(PollRequestView::PollOutboundReady) <==> arrives
                || turns && state.next_notification is Some
        }),
{
}

/// The outbound substream is handed a notification exactly when it is ready for one, and
/// what it is handed is the held notification, whole.
pub proof fn law_poll_sends<PeerId>(
    state: ConnectionState<PeerId>,
    event: PollEventView,
    notification: Seq<u8>,
)
    requires
        state.next_notification == Some(notification),
    ensures
        ({
            let ready = event matches PollEventView::OutboundReady(Polled::Ready(Ok(_)));
            let action = state.poll(event).1;
            &&& ready <==> action == PollActionView::Request(
                PollRequestView::StartSend(notification),
            )
            &&& ready <==> (action matches PollActionView::Request(PollRequestView::StartSend(_)))
        }),
{
}

/// The outbound substream is flushed exactly when the queues or the substream have to be
/// waited for before more can be handed over.
pub proof fn law_poll_flushes<PeerId>(state: ConnectionState<PeerId>, event: PollEventView)
    ensures
        state.poll(event).1 == PollActionView::Request(PollRequestView::PollFlush)
            <==> match event {
            PollEventView::Outgoing(outgoing) => outgoing is Pending,
            PollEventView::OutboundReady(ready) => ready is Pending,
            _ => false,
        },
{
}

/// After a flush, finished or pending, a connection that still reads reserves a slot; and it
/// reads exactly when it has got one.
pub proof fn law_poll_reads<PeerId>(state: ConnectionState<PeerId>, event: PollEventView)
    ensures
        state.poll(event).1 == PollActionView::Request(PollRequestView::PollReserve) <==> event
            is OutboundFlushed && !crate::laws::is_failure(TaskEventView::Poll(event)) && !state.read_closed,
        state.poll(event).1 == PollActionView::Request(PollRequestView::PollInbound) <==> (
        event matches PollEventView::Reserved(Polled::Ready(Ok(_)))),
{
}

/// What a poll event changes: a notification from the queues is held, whole; the held one
/// goes when the outbound substream takes it or has failed; the read side closes when the
/// inbound substream ends or fails; and nothing else changes any of these, nor anything the
/// peer.
pub proof fn law_poll_keeps<PeerId>(state: ConnectionState<PeerId>, event: PollEventView)
    ensures
        ({
            let next = state.poll(event).0;
            &&& next.peer == state.peer
            &&& next.read_closed <==> state.read_closed || crate::laws::is_half_close(
                TaskEventView::Poll(event),
            )
            &&& next.next_notification == match event {
                PollEventView::Outgoing(Polled::Ready(Some(notification))) => Some(notification),
                PollEventView::OutboundReady(Polled::Ready(_)) => None,
                _ => state.next_notification,
            }
        }),
{
}

/// After each action the connection awaits every event that may follow it, and no other:
/// any answer to what it requested; after a poll that came back pending, with a notification
/// or with a failure, the next poll; and after the local node closed it, nothing.
pub proof fn law_poll_awaits<PeerId>(
    state: ConnectionState<PeerId>,
    event: PollEventView,
    next: PollEventView,
)
    ensures
        state.poll(event).0.awaits_poll(next) <==> follows(state.poll(event).1, next),
{
}

/// A new connection awaits its first poll and nothing else, holds nothing and reads.
pub proof fn law_new_connection<PeerId>(peer: PeerId, event: TaskEventView)
    ensures
        ConnectionState::initial(peer).awaits(event) <==> event == TaskEventView::Poll(
            PollEventView::Polled,
        ),
        ConnectionState::initial(peer).next_notification is None,
        !ConnectionState::initial(peer).read_closed,
        ConnectionState::initial(peer).peer == peer,
        ConnectionState::initial(peer).wf(),
{
}

// ---- A single event of the task ----

/// Closing takes the same steps in the same order for every peer: both substreams, then the
/// protocol if it is to be told, then the user.
pub proof fn law_close_steps<PeerId>(peer: PeerId)
    ensures
        crate::model::close_steps(peer, NotifyProtocol::Yes) == closing(peer, true),
        crate::model::close_steps(peer, NotifyProtocol::No) == closing(peer, false),
{
    assert(crate::model::close_steps(peer, NotifyProtocol::Yes) =~= closing(peer, true));
    assert(crate::model::close_steps(peer, NotifyProtocol::No) =~= closing(peer, false));
}

/// A closed connection awaits nothing.
pub proof fn law_closed_awaits_nothing<PeerId>(
    state: ConnectionState<PeerId>,
    event: TaskEventView,
)
    ensures
        !state.at(Stage::Closed).awaits(event),
        state.at(Stage::Closed).peer == state.peer,
{
}

/// In every state, the task forwards a notification that a poll came back with, under the
/// name of its peer, and awaits what comes of it; it closes the connection on the end of
/// the events, with notice, and on a request to close, with notice if the request says so.
pub proof fn law_task_handles<PeerId>(
    state: ConnectionState<PeerId>,
    item: Option<ConnectionEvent>,
)
    ensures
        ({
            let (next, action) = state.handle(item);
            &&& match item {
                None => action == TaskActionView::Close(closing(state.peer, true)),
                Some(ConnectionEvent::CloseConnection { notify }) => action
                    == TaskActionView::Close(closing(state.peer, notify is Yes)),
                Some(ConnectionEvent::NotificationReceived { notification }) => action == (
                TaskActionView::SendItem { peer: state.peer, notification }),
            }
            &&& next == ConnectionState { stage: next.stage, ..state }
            &&& forall|event: TaskEventView|
                #[trigger] next.awaits(event) <==> follows_in_task(action, event)
        }),
{
    law_close_steps(state.peer);
}

/// The task does what the poll that it runs says: it passes requests on, suspends when the
/// poll is pending, and handles what the poll came back with. Apart from what it then waits
/// for, it leaves the connection as the poll left it.
pub proof fn law_task_follows_poll<PeerId>(state: ConnectionState<PeerId>, event: PollEventView)
    ensures
        ({
            let (polled, answer) = state.poll(event);
            let (next, action) = state.step(TaskEventView::Poll(event));
            &&& match answer {
                PollActionView::Request(request) => {
                    &&& next == polled
                    &&& action == TaskActionView::<PeerId>::Request(request)
                },
                PollActionView::Return { poll: Polled::Pending, wake } => {
                    &&& next == polled
                    &&& action == (TaskActionView::<PeerId>::Suspend { wake })
                },
                PollActionView::Return { poll: Polled::Ready(item), .. } => (next, action)
                    == polled.handle(item),
            }
            &&& next == ConnectionState { stage: next.stage, ..polled }
        }),
{
}

/// When the channel to the user took a notification, the task polls on as if it had been
/// woken; when the channel failed, the task closes the connection with notice. Neither
/// changes anything else.
pub proof fn law_task_goes_on<PeerId>(state: ConnectionState<PeerId>, sent: Result<(), Failed>)
    ensures
        ({
            let (next, action) = state.step(TaskEventView::ItemSent(sent));
            &&& sent is Ok ==> (next, action) == state.step(
                TaskEventView::Poll(PollEventView::Polled),
            )
            &&& sent is Err ==> action == TaskActionView::Close(closing(state.peer, true))
            &&& next == ConnectionState { stage: next.stage, ..state }
        }),
{
    law_close_steps(state.peer);
}

/// After each action the task awaits every event that may follow it, and no other: any
/// answer to what it requested, a poll after it was suspended, and, after it forwarded a
/// notification, whatever came of that. Once it has closed the connection it awaits nothing.
pub proof fn law_task_awaits<PeerId>(
    state: ConnectionState<PeerId>,
    event: TaskEventView,
    next: TaskEventView,
)
    ensures
        state.step(event).0.awaits(next) <==> follows_in_task(state.step(event).1, next),
{
}

// ---- Conversations ----

/// In a conversation the connection awaits every event, so that none is refused, and its
/// invariant holds throughout.
pub proof fn law_conversation_goes_on<PeerId>(peer: PeerId, events: Seq<PollEventView>)
    requires
        is_conversation(peer, events),
    ensures
        polled_after(ConnectionState::initial(peer), events).wf(),
        events.len() > 0 ==> polled_after(
            ConnectionState::initial(peer),
            events.drop_last(),
        ).awaits_poll(events.last()),
        forall|next: PollEventView|
            #[trigger] polled_after(ConnectionState::initial(peer), events).awaits_poll(next)
                <==> is_conversation(peer, events.push(next)),
    decreases events.len(),
{
    let start = ConnectionState::initial(peer);
    if events.len() > 0 {
        law_conversation_goes_on(peer, events.drop_last());
        assert(events.drop_last().push(events.last()) =~= events);
    }
    assert forall|next: PollEventView|
        #[trigger] polled_after(start, events).awaits_poll(next) <==> is_conversation(
            peer,
            events.push(next),
        ) by {
        assert(events.push(next).drop_last() =~= events);
        if events.len() > 0 {
            law_poll_awaits(polled_after(start, events.drop_last()), events.last(), next);
        }
    }
}

/// A life of the task is lawful exactly when it is a conversation: the task awaits every
/// answer to what it asked for, and nothing that it did not ask for.
pub proof fn law_task_conversation<PeerId>(peer: PeerId, events: Seq<TaskEventView>)
    ensures
        is_task_conversation(peer, events) <==> crate::laws::lawful(
            ConnectionState::initial(peer),
            events,
        ),
    decreases events.len(),
{
    let start = ConnectionState::initial(peer);
    if events.len() > 0 {
        let before = events.drop_last();
        law_task_conversation(peer, before);
        if before.len() > 0 {
            law_task_awaits(
                crate::laws::after(start, before.drop_last()),
                before.last(),
                events.last(),
            );
        } else {
            law_new_connection(peer, events.last());
        }
    }
}

/// Polled as a stream, the connection neither loses, doubles nor reorders notifications to
/// send: what was taken from the queues is what was handed to the outbound substream,
/// followed by the one that is held, if any. A notification is only dropped when the
/// substream that it waits for has failed.
pub proof fn law_stream_outbound_order<PeerId>(peer: PeerId, events: Seq<PollEventView>)
    requires
        is_conversation(peer, events),
    ensures
        ({
            let handed = sent(poll_actions(ConnectionState::initial(peer), events));
            let held = polled_after(ConnectionState::initial(peer), events).next_notification;
            &&& to_send(events) == match held {
                Some(notification) => handed.push(notification),
                None => handed,
            }
            &&& (forall|i: int| 0 <= i < events.len() ==> !fails_readiness(#[trigger] events[i]))
                ==> to_send(events) == queued(events)
        }),
    decreases events.len(),
{
    let start = ConnectionState::initial(peer);
    if events.len() > 0 {
        let before = events.drop_last();
        lemma_prefix(peer, events);
        law_stream_outbound_order(peer, before);
        law_conversation_goes_on(peer, before);
        law_conversation_goes_on(peer, events);
        assert(poll_actions(start, events).drop_last() =~= poll_actions(start, before));
        assert(to_send(events) =~= match polled_after(start, events).next_notification {
            Some(notification) => sent(poll_actions(start, events)).push(notification),
            None => sent(poll_actions(start, events)),
        });
        if forall|i: int| 0 <= i < events.len() ==> !fails_readiness(#[trigger] events[i]) {
            assert forall|i: int| 0 <= i < before.len() implies !fails_readiness(
                #[trigger] before[i],
            ) by {
                assert(before[i] == events[i]);
            }
            assert(!fails_readiness(events[events.len() - 1]));
        }
    }
}

/// Polled as a stream, the connection comes back with every notification that the inbound
/// substream gave, in order, and with no other.
pub proof fn law_stream_inbound_order<PeerId>(peer: PeerId, events: Seq<PollEventView>)
    requires
        is_conversation(peer, events),
    ensures
        given(poll_actions(ConnectionState::initial(peer), events)) == read(events),
    decreases events.len(),
{
    let start = ConnectionState::initial(peer);
    if events.len() > 0 {
        let before = events.drop_last();
        lemma_prefix(peer, events);
        law_stream_inbound_order(peer, before);
        assert(poll_actions(start, events).drop_last() =~= poll_actions(start, before));
    }
}

/// Polled as a stream, the connection's read side is closed exactly when the inbound
/// substream has ended or failed.
pub proof fn law_stream_read_closed<PeerId>(peer: PeerId, events: Seq<PollEventView>)
    requires
        is_conversation(peer, events),
    ensures
        polled_after(ConnectionState::initial(peer), events).read_closed <==> exists|i: int|
            0 <= i < events.len() && crate::laws::is_half_close(TaskEventView::Poll(#[trigger] events[i])),
    decreases events.len(),
{
    if events.len() > 0 {
        let before = events.drop_last();
        lemma_prefix(peer, events);
        law_stream_read_closed(peer, before);
        law_poll_keeps(polled_after(ConnectionState::initial(peer), before), events.last());
        if polled_after(ConnectionState::initial(peer), before).read_closed {
            let i = choose|i: int|
                0 <= i < before.len() && crate::laws::is_half_close(TaskEventView::Poll(#[trigger] before[i]));
            assert(events[i] == before[i]);
        }
        assert(events[events.len() - 1] == events.last());
        if exists|i: int|
            0 <= i < events.len() && crate::laws::is_half_close(TaskEventView::Poll(#[trigger] events[i])) {
            let i = choose|i: int|
                0 <= i < events.len() && crate::laws::is_half_close(TaskEventView::Poll(#[trigger] events[i]));
            if i < before.len() {
                assert(before[i] == events[i]);
            }
        }
    }
}

/// Once the remote has closed its side, a connection polled as a stream goes on for writing
/// alone: it asks for no slot and reads nothing, and it closes on nothing but a request of
/// the local node or a failure of what it writes through.
pub proof fn law_stream_half_closed<PeerId>(
    peer: PeerId,
    events: Seq<PollEventView>,
    later: PollEventView,
)
    requires
        is_conversation(peer, events.push(later)),
        polled_after(ConnectionState::initial(peer), events).read_closed,
    ensures
        !(later is Reserved),
        !(later is Inbound),
        ({
            let (next, action) = polled_after(ConnectionState::initial(peer), events).poll(later);
            &&& next.read_closed
            &&& action != PollActionView::Request(PollRequestView::PollReserve)
            &&& action != PollActionView::Request(PollRequestView::PollInbound)
            &&& (action matches PollActionView::Return { poll: Polled::Ready(item), .. }) ==> (
            match later {
                PollEventView::Shutdown(signal) => signal is Ready,
                PollEventView::Outgoing(outgoing) => outgoing == Polled::<Option<Seq<u8>>>::Ready(
                    None,
                ),
                PollEventView::OutboundReady(ready) => ready matches Polled::Ready(Err(_)),
                PollEventView::OutboundSent(sent) => sent is Err,
                PollEventView::OutboundFlushed(flushed) => flushed matches Polled::Ready(Err(_)),
                _ => false,
            })
        }),
{
    assert(events.push(later).drop_last() =~= events);
    lemma_prefix(peer, events.push(later));
    law_conversation_goes_on(peer, events);
    law_conversation_goes_on(peer, events.push(later));
}

// ---- What events and actions stand for ----

/// An event stands for what it carries, whole: for each kind of event and each content.
pub proof fn law_event_views(
    result: Polled<Result<(), Failed>>,
    sent: Result<(), Failed>,
    notification: Vec<u8>,
    inbound: Polled<Option<Result<BytesMut, Failed>>>,
    event: PollEvent,
)
    ensures
        PollEvent::Polled@ == PollEventView::Polled,
        PollEvent::Shutdown(result)@ == PollEventView::Shutdown(result),
        PollEvent::Outgoing(Polled::Ready(Some(notification)))@ == PollEventView::Outgoing(
            Polled::Ready(Some(notification@)),
        ),
        PollEvent::Outgoing(Polled::Ready(None))@ == PollEventView::Outgoing(Polled::Ready(None)),
        PollEvent::Outgoing(Polled::Pending)@ == PollEventView::Outgoing(Polled::Pending),
        PollEvent::OutboundReady(result)@ == PollEventView::OutboundReady(result),
        PollEvent::OutboundSent(sent)@ == PollEventView::OutboundSent(sent),
        PollEvent::OutboundFlushed(result)@ == PollEventView::OutboundFlushed(result),
        PollEvent::Reserved(result)@ == PollEventView::Reserved(result),
        PollEvent::Inbound(inbound)@ == PollEventView::Inbound(inbound),
        TaskEvent::Poll(event)@ == TaskEventView::Poll(event@),
        TaskEvent::ItemSent(sent)@ == TaskEventView::ItemSent(sent),
{
}

/// An action stands for what it carries, whole: for each kind of action and each content.
pub proof fn law_action_views<PeerId>(
    frame: Bytes,
    request: PollRequest,
    poll: Polled<Option<ConnectionEvent>>,
    wake: bool,
    peer: PeerId,
    notification: BytesMut,
    steps: Vec<CloseStep<PeerId>>,
)
    ensures
        PollRequest::PollShutdown@ == PollRequestView::PollShutdown,
        PollRequest::PollOutgoing@ == PollRequestView::PollOutgoing,
        PollRequest::PollOutboundReady@ == PollRequestView::PollOutboundReady,
        PollRequest::StartSend(frame)@ == PollRequestView::StartSend(
            crate::frame::frame_contents(frame),
        ),
        PollRequest::PollFlush@ == PollRequestView::PollFlush,
        PollRequest::PollReserve@ == PollRequestView::PollReserve,
        PollRequest::PollInbound@ == PollRequestView::PollInbound,
        PollAction::Request(request)@ == PollActionView::Request(request@),
        (PollAction::Return { poll, wake })@ == (PollActionView::Return { poll, wake }),
        TaskAction::<PeerId>::Request(request)@ == TaskActionView::<PeerId>::Request(request@),
        (TaskAction::<PeerId>::Suspend { wake })@ == (TaskActionView::<PeerId>::Suspend { wake }),
        (TaskAction::SendItem { peer, notification })@ == (TaskActionView::SendItem {
            peer,
            notification,
        }),
        TaskAction::Close(steps)@ == TaskActionView::Close(steps@),
{
}

/// What comes before the last event of a conversation is a conversation.
proof fn lemma_prefix<PeerId>(peer: PeerId, events: Seq<PollEventView>)
    requires
        is_conversation(peer, events),
        events.len() > 0,
    ensures
        is_conversation(peer, events.drop_last()),
{
}

} // verus!
