//! What a connection is told and what it answers.
use crate::model::{PollActionView, PollEventView, PollRequestView, TaskActionView, TaskEventView};
use bytes::{Bytes, BytesMut};
use vstd::prelude::*;

verus! {

/// Whether the notification protocol is told that the connection was closed.
#[derive(Debug)]
pub enum NotifyProtocol {
    /// Notify the protocol handler.
    Yes,
    /// Do not notify the protocol handler.
    No,
}

/// Connection events.
pub enum ConnectionEvent {
    /// Close the connection.
    ///
    /// If the notification protocol asked for the connection to be closed, it does not
    /// need to be notified. If the connection closes because it ran into an error or one
    /// of its channels was closed, the protocol must be told so that it can inform the
    /// user.
    CloseConnection {
        /// Whether to notify the notification protocol or not.
        notify: NotifyProtocol,
    },
    /// Notification read from the inbound substream.
    ///
    /// It is only ever produced after a slot for it was reserved in the channel to the
    /// user.
    NotificationReceived {
        /// Notification.
        notification: BytesMut,
    },
}

/// What polling a source came back with.
#[derive(Debug)]
pub enum Polled<T> {
    /// The source had an answer.
    Ready(T),
    /// The source has no answer yet and will wake the task when it has one.
    Pending,
}

/// The failure of a substream or a channel. The connection treats all of them alike.
#[derive(Debug)]
pub struct Failed;

/// One step that a poll of the connection needs done by its surroundings.
pub enum PollRequest {
    /// Poll the signal by which the local node asks for the connection to be closed.
    PollShutdown,
    /// Poll the queues of notifications to send.
    PollOutgoing,
    /// Poll the outbound substream for readiness to take a notification.
    PollOutboundReady,
    /// Hand a notification to the outbound substream.
    StartSend(Bytes),
    /// Poll the outbound substream to flush what it was handed.
    PollFlush,
    /// Poll the channel to the user for a reserved slot.
    PollReserve,
    /// Poll the inbound substream for a notification.
    PollInbound,
}

/// The start of a poll, or the answer to the last [`PollRequest`].
pub enum PollEvent {
    /// The task polls the connection.
    Polled,
    /// The shutdown signal: sent, or its sender dropped, or neither yet.
    Shutdown(Polled<Result<(), Failed>>),
    /// The queues of notifications to send: a notification, or closed, or empty.
    Outgoing(Polled<Option<Vec<u8>>>),
    /// Readiness of the outbound substream.
    OutboundReady(Polled<Result<(), Failed>>),
    /// Whether the outbound substream took the notification.
    OutboundSent(Result<(), Failed>),
    /// Outcome of flushing the outbound substream.
    OutboundFlushed(Polled<Result<(), Failed>>),
    /// Whether the channel to the user has a slot reserved.
    Reserved(Polled<Result<(), Failed>>),
    /// The inbound substream: a notification, or a failure, or its end, or nothing yet.
    Inbound(Polled<Option<Result<BytesMut, Failed>>>),
}

/// How a poll of the connection goes on.
pub enum PollAction {
    /// Do this and come back with the answer.
    Request(PollRequest),
    /// The poll is over.
    Return {
        /// What it came back with.
        poll: Polled<Option<ConnectionEvent>>,
        /// Whether the task must be woken at once, to be polled again.
        wake: bool,
    },
}

/// What the task that runs the connection is told.
pub enum TaskEvent {
    /// An event of the poll that is under way, or the start of one.
    Poll(PollEvent),
    /// Whether the channel to the user took the notification.
    ItemSent(Result<(), Failed>),
}

/// One step of closing a connection.
#[derive(Debug)]
pub enum CloseStep<PeerId> {
    /// Close the inbound substream.
    CloseInbound,
    /// Close the outbound substream.
    CloseOutbound,
    /// Tell the notification protocol that the connection to this peer was closed.
    TellProtocol(PeerId),
    /// Report to the user that the notification stream to this peer was closed.
    ReportStreamClosed(PeerId),
}

/// What the task that runs the connection has to do.
pub enum TaskAction<PeerId> {
    /// Do this for the poll that is under way and come back with the answer.
    Request(PollRequest),
    /// Give up the thread until the task is woken.
    Suspend {
        /// Whether the task must be woken at once.
        wake: bool,
    },
    /// Put the notification and its sender into the reserved slot of the channel to the
    /// user.
    SendItem {
        /// Remote peer.
        peer: PeerId,
        /// Notification.
        notification: BytesMut,
    },
    /// Take these steps in order, whatever each comes back with; then the task is over.
    Close(Vec<CloseStep<PeerId>>),
}

impl View for PollRequest {
    type V = PollRequestView;

    open spec fn view(&self) -> PollRequestView {
        match *self {
            PollRequest::PollShutdown => PollRequestView::PollShutdown,
            PollRequest::PollOutgoing => PollRequestView::PollOutgoing,
            PollRequest::PollOutboundReady => PollRequestView::PollOutboundReady,
            PollRequest::StartSend(frame) => {
                PollRequestView::StartSend(crate::frame::frame_contents(frame))
            },
            PollRequest::PollFlush => PollRequestView::PollFlush,
            PollRequest::PollReserve => PollRequestView::PollReserve,
            PollRequest::PollInbound => PollRequestView::PollInbound,
        }
    }
}

impl View for PollEvent {
    type V = PollEventView;

    open spec fn view(&self) -> PollEventView {
        match *self {
            PollEvent::Polled => PollEventView::Polled,
            PollEvent::Shutdown(signal) => PollEventView::Shutdown(signal),
            PollEvent::Outgoing(Polled::Pending) => PollEventView::Outgoing(Polled::Pending),
            PollEvent::Outgoing(Polled::Ready(None)) => {
                PollEventView::Outgoing(Polled::Ready(None))
            },
            PollEvent::Outgoing(Polled::Ready(Some(notification))) => {
                PollEventView::Outgoing(Polled::Ready(Some(notification@)))
            },
            PollEvent::OutboundReady(ready) => PollEventView::OutboundReady(ready),
            PollEvent::OutboundSent(sent) => PollEventView::OutboundSent(sent),
            PollEvent::OutboundFlushed(flushed) => PollEventView::OutboundFlushed(flushed),
            PollEvent::Reserved(reserved) => PollEventView::Reserved(reserved),
            PollEvent::Inbound(inbound) => PollEventView::Inbound(inbound),
        }
    }
}

impl View for PollAction {
    type V = PollActionView;

    open spec fn view(&self) -> PollActionView {
        match *self {
            PollAction::Request(request) => PollActionView::Request(request@),
            PollAction::Return { poll, wake } => PollActionView::Return { poll, wake },
        }
    }
}

impl View for TaskEvent {
    type V = TaskEventView;

    open spec fn view(&self) -> TaskEventView {
        match *self {
            TaskEvent::Poll(event) => TaskEventView::Poll(event@),
            TaskEvent::ItemSent(sent) => TaskEventView::ItemSent(sent),
        }
    }
}

impl<PeerId> View for TaskAction<PeerId> {
    type V = TaskActionView<PeerId>;

    open spec fn view(&self) -> TaskActionView<PeerId> {
        match *self {
            TaskAction::Request(request) => TaskActionView::Request(request@),
            TaskAction::Suspend { wake } => TaskActionView::Suspend { wake },
            TaskAction::SendItem { peer, notification } => {
                TaskActionView::SendItem { peer, notification }
            },
            TaskAction::Close(steps) => TaskActionView::Close(steps@),
        }
    }
}

} // verus!
