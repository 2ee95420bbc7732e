use vstd::prelude::*;
use crate::message::InputMessage;

verus! {

/// Receive and send timeout of the transport sockets: the most latency a
/// would-block adds before it is observed and retried.
pub const SOCKET_TIMEOUT_MS: u64 = 50;

/// How long the client waits on its outbound queue before checking the
/// close signal again.
pub const CLIENT_QUEUE_TIMEOUT_MS: u64 = 1000;

/// Size of the server's receive buffer; one datagram carries one command.
pub const BUF_SIZE: usize = 1024;

/// What the server's receive loop observed in one iteration.
#[derive(Clone, Copy, Debug, PartialEq, Eq, Structural)]
pub enum ServerEvent {
    /// The close signal is set.
    Closed,
    /// The receive timed out (would block).
    TimedOut,
    /// The receive failed otherwise.
    ReceiveFailed,
    /// A datagram of this many bytes arrived.
    Datagram(usize),
    /// The payload did not decode to a command.
    DecodeFailed,
    /// The payload decoded to a command.
    Decoded(InputMessage),
}

/// What the server's receive loop does next.
#[derive(Clone, Copy, Debug, PartialEq, Eq, Structural)]
pub enum ServerStep {
    /// Stop and release the queue's producer handle.
    Stop,
    /// Receive again.
    Retry,
    /// Stop with the error; the receive loop does not recover.
    Fail,
    /// Decode the first bytes of the buffer, this many.
    Decode(usize),
    /// Push the command onto the inbound queue, then receive again.
    Deliver(InputMessage),
}

pub open spec fn server_step_spec(event: ServerEvent) -> ServerStep {
    match event {
        ServerEvent::Closed => ServerStep::Stop,
        ServerEvent::TimedOut => ServerStep::Retry,
        ServerEvent::ReceiveFailed => ServerStep::Fail,
        ServerEvent::Datagram(n) => ServerStep::Decode(n),
        ServerEvent::DecodeFailed => ServerStep::Fail,
        ServerEvent::Decoded(m) => ServerStep::Deliver(m),
    }
}

/// Decides the server's next step: a timeout is retried, any other receive
/// error and any malformed payload are fatal, a decoded command is
/// delivered.
pub fn server_step(event: ServerEvent) -> (r: ServerStep)
    ensures
        r == server_step_spec(event),
{
    match event {
        ServerEvent::Closed => ServerStep::Stop,
        ServerEvent::TimedOut => ServerStep::Retry,
        ServerEvent::ReceiveFailed => ServerStep::Fail,
        ServerEvent::Datagram(n) => ServerStep::Decode(n),
        ServerEvent::DecodeFailed => ServerStep::Fail,
        ServerEvent::Decoded(m) => ServerStep::Deliver(m),
    }
}

/// The payload of a datagram of `n` bytes received into `buf`.
pub fn datagram_payload(buf: &Vec<u8>, n: usize) -> (r: Vec<u8>)
    requires
        n <= buf@.len(),
    ensures
        r@ == buf@.subrange(0, n as int),
{
    let mut out: Vec<u8> = Vec::new();
    let mut i: usize = 0;
    while i < n
        invariant
            n <= buf@.len(),
            i <= n,
            out@ == buf@.subrange(0, i as int),
        decreases n - i,
    {
        out.push(buf[i]);
        i = i + 1;
        assert(out@ =~= buf@.subrange(0, i as int));
    }
    out
}

/// What the client's send loop observed in one iteration.
#[derive(Clone, Copy, Debug, PartialEq, Eq, Structural)]
pub enum ClientEvent {
    /// The close signal is set.
    Closed,
    /// No outbound command within the queue timeout.
    QueueTimedOut,
    /// Every producer of the outbound queue is gone.
    QueueDisconnected,
    /// An outbound command.
    Message(InputMessage),
}

/// What the client's send loop does next.
#[derive(Clone, Copy, Debug, PartialEq, Eq, Structural)]
pub enum ClientStep {
    Stop,
    /// Wait on the queue again.
    Retry,
    /// Encode and send the command, ignoring a failed send, then wait again.
    Send(InputMessage),
}

pub open spec fn client_step_spec(event: ClientEvent) -> ClientStep {
    match event {
        ClientEvent::Closed => ClientStep::Stop,
        ClientEvent::QueueTimedOut => ClientStep::Retry,
        ClientEvent::QueueDisconnected => ClientStep::Retry,
        ClientEvent::Message(m) => ClientStep::Send(m),
    }
}

/// Decides the client's next step: only the close signal stops it; sending
/// is best effort.
pub fn client_step(event: ClientEvent) -> (r: ClientStep)
    ensures
        r == client_step_spec(event),
{
    match event {
        ClientEvent::Closed => ClientStep::Stop,
        ClientEvent::QueueTimedOut => ClientStep::Retry,
        ClientEvent::QueueDisconnected => ClientStep::Retry,
        ClientEvent::Message(m) => ClientStep::Send(m),
    }
}

} // verus!
