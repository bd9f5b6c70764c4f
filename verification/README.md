# notification_connection

One connection of a notification protocol: a pair of substreams to a remote peer, over
which notifications are sent and received until the connection is closed.

The library decides what the connection does; it does no input or output itself. Given an
event, `Connection::poll_next` and `Connection::start` answer with what is to be done next,
and Verus proves the answers against the model in `src/model.rs`.

- `src/event.rs`: the events that a connection is told and the actions that it answers with.
- `src/model.rs`: the state of a connection and the transitions between states.
- `src/connection.rs`: the connection itself, proved to follow the model.
- `src/laws.rs`: what holds over the whole life of a connection, among it that a half-close
  by the remote leaves the connection open for writing, that notifications keep their
  order, and that the protocol is told of a close unless it asked for it.
- `src/frame.rs`: the byte buffers of the `bytes` crate.
- `app/`: drives a connection on tokio channels and asynchronous substreams.
