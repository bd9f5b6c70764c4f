//! Mathematical model of a connection: its state and the transitions between states.
use crate::event::{CloseStep, ConnectionEvent, Failed, NotifyProtocol, Polled};
use bytes::BytesMut;
use vstd::prelude::*;

verus! {

/// What a connection is waiting for.
#[derive(Clone, Copy, Debug, PartialEq, Eq, Structural)]
pub enum Stage {
    /// No poll is under way.
    Idle,
    /// The answer of the shutdown signal.
    Shutdown,
    /// The answer of the queues of notifications to send.
    Outgoing,
    /// The readiness of the outbound substream for the held notification.
    OutboundReady,
    /// The outbound substream's answer to a notification handed to it.
    Sending,
    /// The outcome of flushing the outbound substream.
    Flush,
    /// A reserved slot in the channel to the user.
    Reserve,
    /// The answer of the inbound substream.
    Inbound,
    /// The answer of the channel to the user to a notification put into its slot.
    Forwarding,
    /// Nothing: the connection is over.
    Closed,
}

/// View of [`crate::event::PollRequest`].
pub enum PollRequestView {
    PollShutdown,
    PollOutgoing,
    PollOutboundReady,
    StartSend(Seq<u8>),
    PollFlush,
    PollReserve,
    PollInbound,
}

/// View of [`crate::event::PollEvent`].
pub enum PollEventView {
    Polled,
    Shutdown(Polled<Result<(), Failed>>),
    Outgoing(Polled<Option<Seq<u8>>>),
    OutboundReady(Polled<Result<(), Failed>>),
    OutboundSent(Result<(), Failed>),
    OutboundFlushed(Polled<Result<(), Failed>>),
    Reserved(Polled<Result<(), Failed>>),
    Inbound(Polled<Option<Result<BytesMut, Failed>>>),
}

/// View of [`crate::event::PollAction`].
pub enum PollActionView {
    Request(PollRequestView),
    Return { poll: Polled<Option<ConnectionEvent>>, wake: bool },
}

/// View of [`crate::event::TaskEvent`].
pub enum TaskEventView {
    Poll(PollEventView),
    ItemSent(Result<(), Failed>),
}

/// View of [`crate::event::TaskAction`].
pub enum TaskActionView<PeerId> {
    Request(PollRequestView),
    Suspend { wake: bool },
    SendItem { peer: PeerId, notification: BytesMut },
    Close(Seq<CloseStep<PeerId>>),
}

impl PollActionView {
    /// The poll is over, without an event.
    pub open spec fn pending(wake: bool) -> Self {
        PollActionView::Return { poll: Polled::Pending, wake }
    }

    /// The poll is over, with an event.
    pub open spec fn ready(event: ConnectionEvent) -> Self {
        PollActionView::Return { poll: Polled::Ready(Some(event)), wake: false }
    }
}

/// The steps of closing a connection to `peer`, in order: both substreams are closed, the
/// notification protocol is told if `notify` says so, and the user is told last.
pub open spec fn close_steps<PeerId>(peer: PeerId, notify: NotifyProtocol) -> Seq<
    CloseStep<PeerId>,
> {
    match notify {
        NotifyProtocol::Yes => seq![
            CloseStep::CloseInbound,
            CloseStep::CloseOutbound,
            CloseStep::TellProtocol(peer),
            CloseStep::ReportStreamClosed(peer),
        ],
        NotifyProtocol::No => seq![
            CloseStep::CloseInbound,
            CloseStep::CloseOutbound,
            CloseStep::ReportStreamClosed(peer),
        ],
    }
}

/// State of a connection.
#[verifier::ext_equal]
pub struct ConnectionState<PeerId> {
    /// Remote peer.
    pub peer: PeerId,
    /// What the connection is waiting for.
    pub stage: Stage,
    /// The notification that goes to the outbound substream next, if one is held.
    pub next_notification: Option<Seq<u8>>,
    /// Whether the remote has closed its side of the inbound substream.
    pub read_closed: bool,
}

impl<PeerId> ConnectionState<PeerId> {
    /// A connection that was never polled.
    pub open spec fn initial(peer: PeerId) -> Self {
        ConnectionState { peer, stage: Stage::Idle, next_notification: None, read_closed: false }
    }

    /// The outbound substream is asked for readiness only for a held notification, the
    /// queues only while none is held, and nothing is read once the remote has closed its
    /// side.
    pub open spec fn wf(self) -> bool {
        &&& self.stage == Stage::OutboundReady ==> self.next_notification is Some
        &&& self.stage == Stage::Outgoing || self.stage == Stage::Sending
            ==> self.next_notification is None
        &&& self.stage == Stage::Reserve || self.stage == Stage::Inbound ==> !self.read_closed
    }

    /// The same connection, waiting for something else.
    pub open spec fn at(self, stage: Stage) -> Self {
        ConnectionState { stage, ..self }
    }

    /// Whether `event` is what the poll under way waits for, or may start a poll.
    pub open spec fn awaits_poll(self, event: PollEventView) -> bool {
        self.stage == match event {
            PollEventView::Polled => Stage::Idle,
            PollEventView::Shutdown(_) => Stage::Shutdown,
            PollEventView::Outgoing(_) => Stage::Outgoing,
            PollEventView::OutboundReady(_) => Stage::OutboundReady,
            PollEventView::OutboundSent(_) => Stage::Sending,
            PollEventView::OutboundFlushed(_) => Stage::Flush,
            PollEventView::Reserved(_) => Stage::Reserve,
            PollEventView::Inbound(_) => Stage::Inbound,
        }
    }

    /// A source failed or was closed: the poll ends with the event that closes the
    /// connection and notifies the protocol.
    pub open spec fn fail(self) -> (Self, PollActionView) {
        (
            self.at(Stage::Idle),
            PollActionView::ready(
                ConnectionEvent::CloseConnection { notify: NotifyProtocol::Yes },
            ),
        )
    }

    /// The next notification is looked for: the held one, if there is one, else one from
    /// the queues.
    pub open spec fn look_for_outgoing(self) -> (Self, PollActionView) {
        if self.next_notification is Some {
            (
                self.at(Stage::OutboundReady),
                PollActionView::Request(PollRequestView::PollOutboundReady),
            )
        } else {
            (self.at(Stage::Outgoing), PollActionView::Request(PollRequestView::PollOutgoing))
        }
    }

    /// No more can be handed to the outbound substream for now: flush it.
    pub open spec fn flush(self) -> (Self, PollActionView) {
        (self.at(Stage::Flush), PollActionView::Request(PollRequestView::PollFlush))
    }

    /// The state and the action that follow `event`, which the connection awaits.
    pub open spec fn poll(self, event: PollEventView) -> (Self, PollActionView) {
        match event {
            PollEventView::Polled => (
                self.at(Stage::Shutdown),
                PollActionView::Request(PollRequestView::PollShutdown),
            ),
            PollEventView::Shutdown(Polled::Ready(_)) => (
                self.at(Stage::Closed),
                PollActionView::ready(
                    ConnectionEvent::CloseConnection { notify: NotifyProtocol::No },
                ),
            ),
            PollEventView::Shutdown(Polled::Pending) => self.look_for_outgoing(),
            PollEventView::Outgoing(Polled::Ready(Some(notification))) => ConnectionState {
                next_notification: Some(notification),
                ..self
            }.look_for_outgoing(),
            PollEventView::Outgoing(Polled::Ready(None)) => self.fail(),
            PollEventView::Outgoing(Polled::Pending) => self.flush(),
            PollEventView::OutboundReady(Polled::Ready(Ok(_))) => (
                ConnectionState { stage: Stage::Sending, next_notification: None, ..self },
                PollActionView::Request(PollRequestView::StartSend(self.next_notification->0)),
            ),
            PollEventView::OutboundReady(Polled::Ready(Err(_))) => ConnectionState {
                next_notification: None,
                ..self
            }.fail(),
            PollEventView::OutboundReady(Polled::Pending) => self.flush(),
            PollEventView::OutboundSent(Ok(_)) => self.look_for_outgoing(),
            PollEventView::OutboundSent(Err(_)) => self.fail(),
            PollEventView::OutboundFlushed(Polled::Ready(Err(_))) => self.fail(),
            PollEventView::OutboundFlushed(_) => if self.read_closed {
                (self.at(Stage::Idle), PollActionView::pending(false))
            } else {
                (self.at(Stage::Reserve), PollActionView::Request(PollRequestView::PollReserve))
            },
            PollEventView::Reserved(Polled::Ready(Ok(_))) => (
                self.at(Stage::Inbound),
                PollActionView::Request(PollRequestView::PollInbound),
            ),
            PollEventView::Reserved(Polled::Ready(Err(_))) => self.fail(),
            PollEventView::Reserved(Polled::Pending) => (
                self.at(Stage::Idle),
                PollActionView::pending(false),
            ),
            PollEventView::Inbound(Polled::Ready(Some(Ok(notification)))) => (
                self.at(Stage::Idle),
                PollActionView::ready(ConnectionEvent::NotificationReceived { notification }),
            ),
            PollEventView::Inbound(Polled::Ready(_)) => (
                ConnectionState { stage: Stage::Idle, read_closed: true, ..self },
                PollActionView::pending(true),
            ),
            PollEventView::Inbound(Polled::Pending) => (
                self.at(Stage::Idle),
                PollActionView::pending(false),
            ),
        }
    }

    /// Whether `event` is what the task waits for.
    pub open spec fn awaits(self, event: TaskEventView) -> bool {
        match event {
            TaskEventView::Poll(event) => self.awaits_poll(event),
            TaskEventView::ItemSent(_) => self.stage == Stage::Forwarding,
        }
    }

    /// The connection is closed, with its last action.
    pub open spec fn close(self, notify: NotifyProtocol) -> (Self, TaskActionView<PeerId>) {
        (self.at(Stage::Closed), TaskActionView::Close(close_steps(self.peer, notify)))
    }

    /// What the task does with what a poll came back with.
    pub open spec fn handle(self, event: Option<ConnectionEvent>) -> (
        Self,
        TaskActionView<PeerId>,
    ) {
        match event {
            None => self.close(NotifyProtocol::Yes),
            Some(ConnectionEvent::CloseConnection { notify }) => self.close(notify),
            Some(ConnectionEvent::NotificationReceived { notification }) => (
                self.at(Stage::Forwarding),
                TaskActionView::SendItem { peer: self.peer, notification },
            ),
        }
    }

    /// The state and the action of the task that follow `event`, which it awaits.
    pub open spec fn step(self, event: TaskEventView) -> (Self, TaskActionView<PeerId>) {
        match event {
            TaskEventView::Poll(event) => {
                let (next, action) = self.poll(event);
                match action {
                    PollActionView::Request(request) => (next, TaskActionView::Request(request)),
                    PollActionView::Return { poll: Polled::Pending, wake } => (
                        next,
                        TaskActionView::Suspend { wake },
                    ),
                    PollActionView::Return { poll: Polled::Ready(event), wake: _ } => next.handle(
                        event,
                    ),
                }
            },
            TaskEventView::ItemSent(Ok(_)) => (
                self.at(Stage::Shutdown),
                TaskActionView::Request(PollRequestView::PollShutdown),
            ),
            TaskEventView::ItemSent(Err(_)) => self.close(NotifyProtocol::Yes),
        }
    }
}

} // verus!
