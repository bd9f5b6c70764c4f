//! The connection: a pair of substreams to a remote peer, driven event by event.
use crate::event::{
    CloseStep, ConnectionEvent, NotifyProtocol, PollAction, PollEvent, PollRequest, Polled,
    TaskAction, TaskEvent,
};
use crate::frame::frame_from_vec;
use crate::model::{ConnectionState, PollActionView, Stage};
use vstd::prelude::*;

verus! {

/// Bidirectional substream pair representing a connection to a remote peer.
///
/// The connection decides; its surroundings hold the substreams and channels, do what it
/// requests and come back with the answers.
pub struct Connection<PeerId> {
    /// Remote peer ID.
    peer: PeerId,
    /// What the connection is waiting for.
    stage: Stage,
    /// Next notification to send, if any.
    next_notification: Option<Vec<u8>>,
    /// Whether the inbound (read) side of the connection has been closed by the remote.
    ///
    /// When the remote peer half-closes its write side, the inbound substream ends. Rather
    /// than tearing down the entire connection, the read side is marked as closed and the
    /// connection goes on in write-only mode: the remote may have nothing to send but still
    /// needs to receive notifications.
    read_closed: bool,
}

impl<PeerId> View for Connection<PeerId> {
    type V = ConnectionState<PeerId>;

    closed spec fn view(&self) -> ConnectionState<PeerId> {
        ConnectionState {
            peer: self.peer,
            stage: self.stage,
            next_notification: match self.next_notification {
                Some(notification) => Some(notification@),
                None => None,
            },
            read_closed: self.read_closed,
        }
    }
}

impl<PeerId: Copy> Connection<PeerId> {
    /// Create new [`Connection`].
    pub fn new(peer: PeerId) -> (connection: Self)
        ensures
            connection@ == ConnectionState::initial(peer),
            connection@.wf(),
    {
        Connection { peer, stage: Stage::Idle, next_notification: None, read_closed: false }
    }

    /// Whether the remote has closed its side of the inbound substream.
    pub fn is_read_closed(&self) -> (closed: bool)
        ensures
            closed == self@.read_closed,
    {
        self.read_closed
    }

    /// Whether `event` is what the poll under way waits for, or may start a poll.
    pub fn awaits_poll(&self, event: &PollEvent) -> (awaited: bool)
        ensures
            awaited == self@.awaits_poll(event@),
    {
        let stage = match event {
            PollEvent::Polled => Stage::Idle,
            PollEvent::Shutdown(_) => Stage::Shutdown,
            PollEvent::Outgoing(_) => Stage::Outgoing,
            PollEvent::OutboundReady(_) => Stage::OutboundReady,
            PollEvent::OutboundSent(_) => Stage::Sending,
            PollEvent::OutboundFlushed(_) => Stage::Flush,
            PollEvent::Reserved(_) => Stage::Reserve,
            PollEvent::Inbound(_) => Stage::Inbound,
        };
        self.stage == stage
    }

    /// Whether `event` is what the task that runs the connection waits for.
    pub fn awaits(&self, event: &TaskEvent) -> (awaited: bool)
        ensures
            awaited == self@.awaits(event@),
    {
        match event {
            TaskEvent::Poll(event) => self.awaits_poll(event),
            TaskEvent::ItemSent(_) => self.stage == Stage::Forwarding,
        }
    }

    /// Ends the poll under way with the event that closes the connection and notifies the
    /// protocol.
    fn fail(&mut self) -> (action: PollAction)
        ensures
            (final(self)@, action@) == old(self)@.fail(),
    {
        self.stage = Stage::Idle;
        PollAction::Return {
            poll: Polled::Ready(
                Some(ConnectionEvent::CloseConnection { notify: NotifyProtocol::Yes }),
            ),
            wake: false,
        }
    }

    /// Ends the poll under way without an event.
    fn pend(&mut self, wake: bool) -> (action: PollAction)
        ensures
            final(self)@ == old(self)@.at(Stage::Idle),
            action@ == PollActionView::pending(wake),
    {
        self.stage = Stage::Idle;
        PollAction::Return { poll: Polled::Pending, wake }
    }

    /// Waits at `stage` for the answer to `request`.
    fn request(&mut self, stage: Stage, request: PollRequest) -> (action: PollAction)
        ensures
            final(self)@ == old(self)@.at(stage),
            action@ == PollActionView::Request(request@),
    {
        self.stage = stage;
        PollAction::Request(request)
    }

    /// Turns to the held notification, or to the queues if none is held.
    fn look_for_outgoing(&mut self) -> (action: PollAction)
        ensures
            (final(self)@, action@) == old(self)@.look_for_outgoing(),
    {
        if self.next_notification.is_some() {
            self.request(Stage::OutboundReady, PollRequest::PollOutboundReady)
        } else {
            self.request(Stage::Outgoing, PollRequest::PollOutgoing)
        }
    }

    /// Carries a poll of the connection on by one event.
    ///
    /// A poll starts with [`PollEvent::Polled`]. It first looks at the shutdown signal, then
    /// hands notifications to the outbound substream for as long as there are any and the
    /// substream is ready, flushes it, and last, unless the remote has closed its side,
    /// reserves a slot in the channel to the user and reads the inbound substream.
    pub fn poll_next(&mut self, event: PollEvent) -> (action: PollAction)
        requires
            old(self)@.wf(),
            old(self)@.awaits_poll(event@),
        ensures
            (final(self)@, action@) == old(self)@.poll(event@),
            final(self)@.wf(),
    {
        match event {
            PollEvent::Polled => self.request(Stage::Shutdown, PollRequest::PollShutdown),
            PollEvent::Shutdown(Polled::Ready(_)) => {
                self.stage = Stage::Closed;
                PollAction::Return {
                    poll: Polled::Ready(
                        Some(ConnectionEvent::CloseConnection { notify: NotifyProtocol::No }),
                    ),
                    wake: false,
                }
            },
            PollEvent::Shutdown(Polled::Pending) => self.look_for_outgoing(),
            PollEvent::Outgoing(Polled::Ready(Some(notification))) => {
                self.next_notification = Some(notification);
                self.look_for_outgoing()
            },
            PollEvent::Outgoing(Polled::Ready(None)) => self.fail(),
            PollEvent::Outgoing(Polled::Pending) => {
                self.request(Stage::Flush, PollRequest::PollFlush)
            },
            PollEvent::OutboundReady(Polled::Ready(Ok(_))) => {
                let notification = self.next_notification.take().unwrap();
                let frame = frame_from_vec(notification);
                self.request(Stage::Sending, PollRequest::StartSend(frame))
            },
            PollEvent::OutboundReady(Polled::Ready(Err(_))) => {
                self.next_notification = None;
                self.fail()
            },
            PollEvent::OutboundReady(Polled::Pending) => {
                self.request(Stage::Flush, PollRequest::PollFlush)
            },
            PollEvent::OutboundSent(Ok(_)) => self.look_for_outgoing(),
            PollEvent::OutboundSent(Err(_)) => self.fail(),
            PollEvent::OutboundFlushed(Polled::Ready(Err(_))) => self.fail(),
            // If the remote has half-closed the inbound substream, skip reading. Outbound
            // notifications can still be sent.
            PollEvent::OutboundFlushed(_) => if self.read_closed {
                self.pend(false)
            } else {
                self.request(Stage::Reserve, PollRequest::PollReserve)
            },
            PollEvent::Reserved(Polled::Ready(Ok(_))) => {
                self.request(Stage::Inbound, PollRequest::PollInbound)
            },
            PollEvent::Reserved(Polled::Ready(Err(_))) => self.fail(),
            PollEvent::Reserved(Polled::Pending) => self.pend(false),
            PollEvent::Inbound(Polled::Ready(Some(Ok(notification)))) => {
                self.stage = Stage::Idle;
                PollAction::Return {
                    poll: Polled::Ready(
                        Some(ConnectionEvent::NotificationReceived { notification }),
                    ),
                    wake: false,
                }
            },
            // Wake the task, so that it goes through the whole poll again and stays
            // responsive to outbound work and to the shutdown signal.
            PollEvent::Inbound(Polled::Ready(_)) => {
                self.read_closed = true;
                self.pend(true)
            },
            PollEvent::Inbound(Polled::Pending) => self.pend(false),
        }
    }

    /// Connection closed, clean up state.
    ///
    /// If the notification protocol was the one that initiated the shutdown, it is not
    /// notified of the connection getting closed.
    pub fn close_connection(&mut self, notify_protocol: NotifyProtocol) -> (steps: Vec<
        CloseStep<PeerId>,
    >)
        ensures
            steps@ == crate::model::close_steps(old(self)@.peer, notify_protocol),
            final(self)@ == old(self)@.at(Stage::Closed),
            final(self)@.wf(),
    {
        self.stage = Stage::Closed;
        let mut steps: Vec<CloseStep<PeerId>> = Vec::new();
        steps.push(CloseStep::CloseInbound);
        steps.push(CloseStep::CloseOutbound);
        if matches!(notify_protocol, NotifyProtocol::Yes) {
            steps.push(CloseStep::TellProtocol(self.peer));
        }
        steps.push(CloseStep::ReportStreamClosed(self.peer));
        steps
    }

    /// Takes what a poll of the connection came back with.
    pub fn handle(&mut self, event: Option<ConnectionEvent>) -> (action: TaskAction<PeerId>)
        ensures
            (final(self)@, action@) == old(self)@.handle(event),
            final(self)@.wf(),
    {
        match event {
            None => TaskAction::Close(self.close_connection(NotifyProtocol::Yes)),
            Some(ConnectionEvent::CloseConnection { notify }) => {
                TaskAction::Close(self.close_connection(notify))
            },
            Some(ConnectionEvent::NotificationReceived { notification }) => {
                self.stage = Stage::Forwarding;
                TaskAction::SendItem { peer: self.peer, notification }
            },
        }
    }

    /// Carries the task that runs the connection on by one event.
    ///
    /// The task polls the connection whenever it is started or woken. It forwards every
    /// notification received to the user and polls on, until a poll asks for the connection
    /// to be closed or the channel to the user fails.
    pub fn start(&mut self, event: TaskEvent) -> (action: TaskAction<PeerId>)
        requires
            old(self)@.wf(),
            old(self)@.awaits(event@),
        ensures
            (final(self)@, action@) == old(self)@.step(event@),
            final(self)@.wf(),
    {
        match event {
            TaskEvent::Poll(event) => match self.poll_next(event) {
                PollAction::Request(request) => TaskAction::Request(request),
                PollAction::Return { poll: Polled::Pending, wake } => TaskAction::Suspend { wake },
                PollAction::Return { poll: Polled::Ready(event), wake: _ } => self.handle(event),
            },
            TaskEvent::ItemSent(Ok(_)) => {
                self.stage = Stage::Shutdown;
                TaskAction::Request(PollRequest::PollShutdown)
            },
            TaskEvent::ItemSent(Err(_)) => {
                TaskAction::Close(self.close_connection(NotifyProtocol::Yes))
            },
        }
    }
}

} // verus!
