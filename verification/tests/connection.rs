use bytes::BytesMut;
use notification_connection::connection::Connection;
use notification_connection::event::{
    CloseStep, ConnectionEvent, Failed, NotifyProtocol, PollAction, PollEvent, PollRequest, Polled,
    TaskAction, TaskEvent,
};
use std::collections::VecDeque;

/// How a substream or channel answers when it is asked.
#[derive(Clone, Copy, PartialEq)]
enum Answer {
    Accepts,
    Fails,
    Waits,
}

/// What the inbound substream has to give next; it waits when the list is empty.
enum Inbound {
    Item(Vec<u8>),
    Failure,
    End,
}

/// Surroundings of a connection.
struct Peer {
    shutdown: Answer,
    queue: VecDeque<Vec<u8>>,
    queue_closed: bool,
    ready: Answer,
    send_fails: bool,
    flush: Answer,
    reserve: Answer,
    inbound: VecDeque<Inbound>,
    sent: Vec<Vec<u8>>,
    log: Vec<&'static str>,
}

impl Peer {
    fn new() -> Self {
        Peer {
            shutdown: Answer::Waits,
            queue: VecDeque::new(),
            queue_closed: false,
            ready: Answer::Accepts,
            send_fails: false,
            flush: Answer::Accepts,
            reserve: Answer::Accepts,
            inbound: VecDeque::new(),
            sent: Vec::new(),
            log: Vec::new(),
        }
    }

    fn answer(answer: Answer) -> Polled<Result<(), Failed>> {
        match answer {
            Answer::Accepts => Polled::Ready(Ok(())),
            Answer::Fails => Polled::Ready(Err(Failed)),
            Answer::Waits => Polled::Pending,
        }
    }

    fn perform(&mut self, request: PollRequest) -> PollEvent {
        match request {
            PollRequest::PollShutdown => {
                self.log.push("shutdown");
                PollEvent::Shutdown(Self::answer(self.shutdown))
            }
            PollRequest::PollOutgoing => {
                self.log.push("outgoing");
                PollEvent::Outgoing(match self.queue.pop_front() {
                    Some(notification) => Polled::Ready(Some(notification)),
                    None if self.queue_closed => Polled::Ready(None),
                    None => Polled::Pending,
                })
            }
            PollRequest::PollOutboundReady => {
                self.log.push("ready");
                PollEvent::OutboundReady(Self::answer(self.ready))
            }
            PollRequest::StartSend(frame) => {
                self.log.push("send");
                self.sent.push(frame.to_vec());
                PollEvent::OutboundSent(if self.send_fails { Err(Failed) } else { Ok(()) })
            }
            PollRequest::PollFlush => {
                self.log.push("flush");
                PollEvent::OutboundFlushed(Self::answer(self.flush))
            }
            PollRequest::PollReserve => {
                self.log.push("reserve");
                PollEvent::Reserved(Self::answer(self.reserve))
            }
            PollRequest::PollInbound => {
                self.log.push("inbound");
                PollEvent::Inbound(match self.inbound.pop_front() {
                    Some(Inbound::Item(item)) => {
                        Polled::Ready(Some(Ok(BytesMut::from(item.as_slice()))))
                    }
                    Some(Inbound::Failure) => Polled::Ready(Some(Err(Failed))),
                    Some(Inbound::End) => Polled::Ready(None),
                    None => Polled::Pending,
                })
            }
        }
    }
}

fn poll(
    conn: &mut Connection<u64>,
    peer: &mut Peer,
) -> (Polled<Option<ConnectionEvent>>, bool) {
    let mut event = PollEvent::Polled;
    loop {
        assert!(conn.awaits_poll(&event));
        match conn.poll_next(event) {
            PollAction::Request(request) => event = peer.perform(request),
            PollAction::Return { poll, wake } => return (poll, wake),
        }
    }
}

/// Runs the task until it suspends, forwards a notification or closes.
fn run(conn: &mut Connection<u64>, peer: &mut Peer, event: TaskEvent) -> TaskAction<u64> {
    let mut event = event;
    loop {
        assert!(conn.awaits(&event));
        match conn.start(event) {
            TaskAction::Request(request) => event = TaskEvent::Poll(peer.perform(request)),
            action => return action,
        }
    }
}

fn polled() -> TaskEvent {
    TaskEvent::Poll(PollEvent::Polled)
}

fn is_close_yes(poll: &Polled<Option<ConnectionEvent>>) -> bool {
    matches!(
        poll,
        Polled::Ready(Some(ConnectionEvent::CloseConnection { notify: NotifyProtocol::Yes }))
    )
}

fn is_close_no(poll: &Polled<Option<ConnectionEvent>>) -> bool {
    matches!(
        poll,
        Polled::Ready(Some(ConnectionEvent::CloseConnection { notify: NotifyProtocol::No }))
    )
}

fn tells_protocol(action: &TaskAction<u64>) -> bool {
    match action {
        TaskAction::Close(steps) => {
            steps.iter().any(|step| matches!(step, CloseStep::TellProtocol(7)))
        }
        _ => panic!("the connection should close"),
    }
}

#[test]
fn half_close_does_not_tear_down_connection() {
    // Inbound ends immediately; outbound accepts writes and flushes successfully.
    let mut peer = Peer::new();
    peer.inbound.push_back(Inbound::End);
    let mut conn = Connection::new(7u64);

    // The first poll processes the end of the inbound substream and sets read_closed.
    match poll(&mut conn, &mut peer) {
        (Polled::Pending, wake) => {
            assert!(
                conn.is_read_closed(),
                "read_closed should be set after inbound returns None"
            );
            assert!(wake, "the task should be polled again");
        }
        (Polled::Ready(Some(ConnectionEvent::CloseConnection { .. })), _) => {
            panic!("Connection should NOT close on remote half-close");
        }
        (Polled::Ready(other), _) => {
            panic!("Unexpected event: {:?}", other.is_some());
        }
    }

    // Now send an outbound notification: the write side should still work.
    peer.queue.push_back(vec![1, 2, 3]);
    peer.log.clear();
    match poll(&mut conn, &mut peer) {
        (Polled::Pending, wake) => assert!(!wake),
        (Polled::Ready(Some(ConnectionEvent::CloseConnection { .. })), _) => {
            panic!("Connection should NOT close after sending outbound notification");
        }
        (Polled::Ready(other), _) => {
            panic!("Unexpected event: {:?}", other.is_some());
        }
    }
    assert_eq!(peer.sent, vec![vec![1, 2, 3]]);
    assert_eq!(
        peer.log,
        vec!["shutdown", "outgoing", "ready", "send", "outgoing", "flush"],
        "the inbound substream should not be read again"
    );
}

#[test]
fn half_close_connection_closes_on_local_shutdown() {
    // Inbound ends immediately; outbound is not ready but flushes.
    let mut peer = Peer::new();
    peer.inbound.push_back(Inbound::End);
    peer.ready = Answer::Waits;
    let mut conn = Connection::new(7u64);

    // First, let read_closed get set.
    let _ = poll(&mut conn, &mut peer);
    assert!(conn.is_read_closed());

    // Now trigger local shutdown.
    peer.shutdown = Answer::Accepts;
    let (event, _) = poll(&mut conn, &mut peer);
    assert!(
        matches!(
            event,
            Polled::Ready(Some(ConnectionEvent::CloseConnection { notify: NotifyProtocol::No }))
        ),
        "Local shutdown should close connection with NotifyProtocol::No"
    );
}

#[test]
fn half_closed_task_is_not_reported_closed() {
    let mut peer = Peer::new();
    peer.inbound.push_back(Inbound::End);
    let mut conn = Connection::new(7u64);
    let action = run(&mut conn, &mut peer, polled());
    assert!(matches!(action, TaskAction::Suspend { wake: true }));
    peer.queue.push_back(vec![1, 2, 3]);
    let action = run(&mut conn, &mut peer, polled());
    assert!(matches!(action, TaskAction::Suspend { wake: false }));
    assert_eq!(peer.sent, vec![vec![1, 2, 3]]);
}

#[test]
fn inbound_failure_is_a_half_close() {
    let mut peer = Peer::new();
    peer.inbound.push_back(Inbound::Failure);
    let mut conn = Connection::new(7u64);
    let (result, wake) = poll(&mut conn, &mut peer);
    assert!(matches!(result, Polled::Pending));
    assert!(wake);
    assert!(conn.is_read_closed());
}

#[test]
fn new_connection_is_open() {
    let conn = Connection::new(7u64);
    assert!(!conn.is_read_closed());
    assert!(conn.awaits(&polled()));
    assert!(!conn.awaits(&TaskEvent::ItemSent(Ok(()))));
    assert!(!conn.awaits_poll(&PollEvent::Shutdown(Polled::Pending)));
}

#[test]
fn idle_poll_asks_everything_once() {
    let mut peer = Peer::new();
    let mut conn = Connection::new(7u64);
    let (result, wake) = poll(&mut conn, &mut peer);
    assert!(matches!(result, Polled::Pending));
    assert!(!wake);
    assert!(!conn.is_read_closed());
    assert_eq!(peer.log, vec!["shutdown", "outgoing", "flush", "reserve", "inbound"]);
}

#[test]
fn dropped_shutdown_sender_closes_without_notice() {
    let mut peer = Peer::new();
    peer.shutdown = Answer::Fails;
    peer.queue.push_back(vec![1]);
    let mut conn = Connection::new(7u64);
    let (result, _) = poll(&mut conn, &mut peer);
    assert!(is_close_no(&result));
    assert_eq!(peer.log, vec!["shutdown"]);
    assert!(!conn.awaits_poll(&PollEvent::Polled));
}

#[test]
fn closed_queue_closes_with_notice() {
    let mut peer = Peer::new();
    peer.queue_closed = true;
    let mut conn = Connection::new(7u64);
    let (result, _) = poll(&mut conn, &mut peer);
    assert!(is_close_yes(&result));
    assert!(conn.awaits_poll(&PollEvent::Polled));
}

#[test]
fn outbound_failures_close_with_notice() {
    let mut peer = Peer::new();
    peer.queue.push_back(vec![1]);
    peer.ready = Answer::Fails;
    let mut conn = Connection::new(7u64);
    assert!(is_close_yes(&poll(&mut conn, &mut peer).0));
    assert!(peer.sent.is_empty());

    let mut peer = Peer::new();
    peer.queue.push_back(vec![1]);
    peer.send_fails = true;
    let mut conn = Connection::new(7u64);
    assert!(is_close_yes(&poll(&mut conn, &mut peer).0));

    let mut peer = Peer::new();
    peer.flush = Answer::Fails;
    let mut conn = Connection::new(7u64);
    assert!(is_close_yes(&poll(&mut conn, &mut peer).0));
}

#[test]
fn failed_readiness_drops_the_notification() {
    let mut peer = Peer::new();
    peer.queue.push_back(vec![1]);
    peer.queue.push_back(vec![2]);
    peer.ready = Answer::Fails;
    let mut conn = Connection::new(7u64);
    assert!(is_close_yes(&poll(&mut conn, &mut peer).0));
    peer.ready = Answer::Accepts;
    let _ = poll(&mut conn, &mut peer);
    assert_eq!(peer.sent, vec![vec![2]]);
}

#[test]
fn closed_user_channel_closes_with_notice() {
    let mut peer = Peer::new();
    peer.reserve = Answer::Fails;
    let mut conn = Connection::new(7u64);
    assert!(is_close_yes(&poll(&mut conn, &mut peer).0));
    assert!(!peer.log.contains(&"inbound"));
}

#[test]
fn full_user_channel_keeps_inbound_unread() {
    let mut peer = Peer::new();
    peer.reserve = Answer::Waits;
    peer.inbound.push_back(Inbound::Item(vec![9]));
    let mut conn = Connection::new(7u64);
    let (result, wake) = poll(&mut conn, &mut peer);
    assert!(matches!(result, Polled::Pending));
    assert!(!wake);
    assert_eq!(peer.inbound.len(), 1);
}

#[test]
fn busy_substream_holds_the_notification_back() {
    let mut peer = Peer::new();
    peer.queue.push_back(vec![1]);
    peer.queue.push_back(vec![2]);
    peer.ready = Answer::Waits;
    let mut conn = Connection::new(7u64);
    let _ = poll(&mut conn, &mut peer);
    assert_eq!(peer.queue.len(), 1);
    peer.log.clear();
    let _ = poll(&mut conn, &mut peer);
    // The held notification goes first: the queues are not asked for another.
    assert_eq!(peer.log, vec!["shutdown", "ready", "flush", "reserve", "inbound"]);
    assert_eq!(peer.queue.len(), 1);
    peer.ready = Answer::Accepts;
    let _ = poll(&mut conn, &mut peer);
    assert_eq!(peer.sent, vec![vec![1], vec![2]]);
}

#[test]
fn pending_flush_does_not_stop_reading() {
    let mut peer = Peer::new();
    peer.flush = Answer::Waits;
    peer.inbound.push_back(Inbound::Item(vec![4, 5]));
    let mut conn = Connection::new(7u64);
    match poll(&mut conn, &mut peer) {
        (Polled::Ready(Some(ConnectionEvent::NotificationReceived { notification })), wake) => {
            assert_eq!(notification.to_vec(), vec![4, 5]);
            assert!(!wake);
        }
        _ => panic!("expected a notification"),
    }
}

#[test]
fn task_forwards_notifications_in_order() {
    let mut peer = Peer::new();
    peer.inbound.push_back(Inbound::Item(vec![1]));
    peer.inbound.push_back(Inbound::Item(vec![]));
    peer.inbound.push_back(Inbound::Item(vec![3, 3]));
    let mut conn = Connection::new(7u64);
    let mut seen: Vec<(u64, Vec<u8>)> = Vec::new();
    let mut event = polled();
    loop {
        match run(&mut conn, &mut peer, event) {
            TaskAction::SendItem { peer, notification } => {
                seen.push((peer, notification.to_vec()));
                event = TaskEvent::ItemSent(Ok(()));
            }
            TaskAction::Suspend { wake } => {
                assert!(!wake);
                break;
            }
            _ => panic!("the connection should stay open"),
        }
    }
    assert_eq!(seen, vec![(7, vec![1]), (7, vec![]), (7, vec![3, 3])]);
    // Each was read only after a slot was reserved for it.
    let reads = peer.log.iter().filter(|step| **step == "inbound").count();
    let slots = peer.log.iter().filter(|step| **step == "reserve").count();
    assert_eq!(reads, 4);
    assert_eq!(slots, 4);
}

#[test]
fn task_closes_when_the_user_is_gone() {
    let mut peer = Peer::new();
    peer.inbound.push_back(Inbound::Item(vec![1]));
    let mut conn = Connection::new(7u64);
    let action = run(&mut conn, &mut peer, polled());
    assert!(matches!(action, TaskAction::SendItem { peer: 7, .. }));
    let action = run(&mut conn, &mut peer, TaskEvent::ItemSent(Err(Failed)));
    assert!(tells_protocol(&action));
    assert!(!conn.awaits(&polled()));
    assert!(!conn.awaits(&TaskEvent::ItemSent(Ok(()))));
}

#[test]
fn task_tells_the_protocol_unless_it_asked() {
    let mut peer = Peer::new();
    peer.shutdown = Answer::Accepts;
    let mut conn = Connection::new(7u64);
    let action = run(&mut conn, &mut peer, polled());
    assert!(!tells_protocol(&action));

    let mut peer = Peer::new();
    peer.queue_closed = true;
    let mut conn = Connection::new(7u64);
    let action = run(&mut conn, &mut peer, polled());
    assert!(tells_protocol(&action));
    assert!(!conn.awaits(&polled()));
}

#[test]
fn task_treats_the_end_of_events_as_a_failure() {
    let mut conn = Connection::new(7u64);
    assert!(tells_protocol(&conn.handle(None)));
    let mut conn = Connection::new(7u64);
    let event = ConnectionEvent::CloseConnection { notify: NotifyProtocol::No };
    assert!(!tells_protocol(&conn.handle(Some(event))));
    let mut conn = Connection::new(7u64);
    let event = ConnectionEvent::NotificationReceived { notification: BytesMut::from(&b"ab"[..]) };
    match conn.handle(Some(event)) {
        TaskAction::SendItem { peer, notification } => {
            assert_eq!(peer, 7);
            assert_eq!(notification.to_vec(), b"ab".to_vec());
        }
        _ => panic!("expected the notification to be forwarded"),
    }
}

#[test]
fn closing_takes_its_steps_in_order() {
    let mut conn = Connection::new(7u64);
    let steps = conn.close_connection(NotifyProtocol::Yes);
    assert_eq!(
        format!("{:?}", steps),
        "[CloseInbound, CloseOutbound, TellProtocol(7), ReportStreamClosed(7)]"
    );
    let mut conn = Connection::new(7u64);
    let steps = conn.close_connection(NotifyProtocol::No);
    assert_eq!(format!("{:?}", steps), "[CloseInbound, CloseOutbound, ReportStreamClosed(7)]");
}

#[test]
fn half_closed_connection_sends_as_an_open_one() {
    let mut open_peer = Peer::new();
    let mut half_peer = Peer::new();
    half_peer.inbound.push_back(Inbound::End);
    let mut open_conn = Connection::new(7u64);
    let mut half_conn = Connection::new(7u64);
    let _ = poll(&mut open_conn, &mut open_peer);
    let _ = poll(&mut half_conn, &mut half_peer);
    assert!(half_conn.is_read_closed() && !open_conn.is_read_closed());
    for peer in [&mut open_peer, &mut half_peer] {
        peer.log.clear();
        peer.queue.push_back(vec![1]);
        peer.queue.push_back(vec![2, 2]);
    }
    let _ = poll(&mut open_conn, &mut open_peer);
    let _ = poll(&mut half_conn, &mut half_peer);
    assert_eq!(open_peer.sent, half_peer.sent);
    assert_eq!(half_peer.sent, vec![vec![1], vec![2, 2]]);
    let up_to_flush = open_peer.log.iter().position(|step| *step == "flush").unwrap();
    assert_eq!(open_peer.log[..up_to_flush + 1], half_peer.log[..]);
}

#[test]
fn poll_takes_three_steps_for_each_notification() {
    let mut peer = Peer::new();
    for n in 0..50u8 {
        peer.queue.push_back(vec![n]);
    }
    let mut conn = Connection::new(7u64);
    let _ = poll(&mut conn, &mut peer);
    assert_eq!(peer.sent.len(), 50);
    assert_eq!(peer.log.len(), 3 * 50 + 5);
}
