//! The bridge engine: the two relay channels and the decision logic of the
//! two relay tasks, written as step functions over observed transport events.
//!
//! The engine performs no I/O. The surrounding loops own the serial port and
//! the socket; after every read, write or accept they hand the outcome in as
//! an event, the engine moves bytes between the channels accordingly, and the
//! returned action says what the loop must do next (write these bytes out,
//! retry a refused hand-off once a slot frees up, accept a connection, tear a
//! session down, or nothing). The two directions touch disjoint channels, so
//! neither direction's progress ever depends on the other's.

use vstd::prelude::*;

use crate::channel::RelayChannel;
use crate::channel::receive_transition;
use crate::channel::send_transition;
use crate::supervisor::NetEvent;
use crate::supervisor::SupervisorState;
use crate::supervisor::event_fits;
use crate::supervisor::supervisor_next;

verus! {

/// What the serial relay task observed: one arm of its race between a
/// serial read and the net→uart channel.
#[derive(Debug)]
pub enum SerialEvent {
    /// A read-until-idle completed with these bytes (at least one).
    ReadDone(Vec<u8>),
    /// The serial read failed; non-fatal, the port stays open.
    ReadFailed,
    /// The net→uart side of the race won: a chunk may be pending to write.
    NetChunk,
}

/// What the serial relay loop must do after a step.
#[derive(Debug)]
pub enum SerialAction {
    /// Write these bytes out the serial port; a failure is logged and the
    /// loop continues.
    WriteSerial(Vec<u8>),
    /// The uart→net channel was full: suspend until the consumer drains a
    /// slot, then offer exactly these bytes again. Nothing was dropped.
    Retry(Vec<u8>),
    /// Nothing to do this iteration.
    Nothing,
}

/// What the network relay loop must do after a step.
#[derive(Debug)]
pub enum NetAction {
    /// Await a new connection, with the idle timeout.
    Accept,
    /// Write these bytes to the socket; a failure comes back as
    /// `NetEvent::WriteFailed`.
    WriteNet(Vec<u8>),
    /// The net→uart channel was full: suspend until the consumer drains a
    /// slot, then offer exactly these bytes again. Nothing was dropped.
    Retry(Vec<u8>),
    /// The session ended: discard the socket.
    CloseSession,
    /// Nothing to do this iteration.
    Nothing,
}

/// The process-lifetime core of the bridge: one relay channel per direction.
/// Both outlive every network session.
pub struct BridgeEngine {
    /// Chunks read from the serial port, awaiting a socket write.
    pub uart_to_net: RelayChannel,
    /// Chunks read from the socket, awaiting a serial write.
    pub net_to_uart: RelayChannel,
}

impl BridgeEngine {
    /// Well-formedness: both channels are well-formed.
    pub open spec fn wf(&self) -> bool {
        &&& self.uart_to_net.wf()
        &&& self.net_to_uart.wf()
    }

    /// A fresh engine: two empty channels of the given capacity.
    pub fn new(capacity: usize) -> (e: BridgeEngine)
        requires
            capacity >= 1,
        ensures
            e.wf(),
            e.uart_to_net.cap() == capacity,
            e.net_to_uart.cap() == capacity,
            e.uart_to_net.pending() == Seq::<Seq<u8>>::empty(),
            e.net_to_uart.pending() == Seq::<Seq<u8>>::empty(),
            e.uart_to_net.submitted() == Seq::<Seq<u8>>::empty(),
            e.net_to_uart.submitted() == Seq::<Seq<u8>>::empty(),
            e.uart_to_net.delivered() == Seq::<Seq<u8>>::empty(),
            e.net_to_uart.delivered() == Seq::<Seq<u8>>::empty(),
    {
        BridgeEngine { uart_to_net: RelayChannel::new(capacity), net_to_uart: RelayChannel::new(capacity) }
    }

    /// One step of the serial relay task. Bytes read off the serial port are
    /// handed to the uart→net channel (or handed back for a retry when it is
    /// full); a win of the channel arm of the race drains the oldest chunk of
    /// the net→uart channel for a serial write; a failed read changes
    /// nothing. Each event touches at most one channel — the opposite
    /// direction is left exactly as it was.
    pub fn serial_step(&mut self, event: SerialEvent) -> (a: SerialAction)
        requires
            old(self).wf(),
            event matches SerialEvent::ReadDone(d) ==> d@.len() > 0,
        ensures
            final(self).wf(),
            event matches SerialEvent::ReadDone(d) ==> {
                &&& final(self).net_to_uart == old(self).net_to_uart
                &&& send_transition(
                    old(self).uart_to_net,
                    final(self).uart_to_net,
                    d@,
                    a is Nothing,
                )
                &&& (a is Nothing || a is Retry)
                &&& (a matches SerialAction::Retry(back) ==> back@ == d@)
            },
            event is ReadFailed ==> {
                &&& final(self).uart_to_net == old(self).uart_to_net
                &&& final(self).net_to_uart == old(self).net_to_uart
                &&& a is Nothing
            },
            event is NetChunk ==> {
                &&& final(self).uart_to_net == old(self).uart_to_net
                &&& receive_transition(
                    old(self).net_to_uart,
                    final(self).net_to_uart,
                    match a {
                        SerialAction::WriteSerial(ref c) => Some(c@),
                        _ => None,
                    },
                )
                &&& (a is WriteSerial || a is Nothing)
            },
    {
        match event {
            SerialEvent::ReadDone(data) => match self.uart_to_net.try_send(data) {
                Ok(()) => SerialAction::Nothing,
                Err(back) => SerialAction::Retry(back),
            },
            SerialEvent::ReadFailed => SerialAction::Nothing,
            SerialEvent::NetChunk => match self.net_to_uart.try_receive() {
                Some(chunk) => SerialAction::WriteSerial(chunk),
                None => SerialAction::Nothing,
            },
        }
    }

    /// One step of the network relay task and its supervisor. The returned
    /// state is exactly `supervisor_next(state, event)`. While bridging,
    /// bytes read off the socket are handed to the net→uart channel (or
    /// handed back for a retry when it is full), and a win of the channel arm
    /// of the race drains the oldest chunk of the uart→net channel for a
    /// socket write. Session teardown touches neither channel: a chunk still
    /// pending for the serial port survives the session, and bytes a peer
    /// sent never enter the uart→net channel, so no session's input can
    /// resurface on a later session's socket.
    pub fn net_step(&mut self, state: SupervisorState, event: NetEvent) -> (r: (
        SupervisorState,
        NetAction,
    ))
        requires
            old(self).wf(),
            event_fits(state, event),
            event matches NetEvent::ReadData(d) ==> d@.len() > 0,
        ensures
            final(self).wf(),
            r.0 == supervisor_next(state, event),
            state is Bridging ==> (event matches NetEvent::ReadData(d) ==> {
                &&& final(self).uart_to_net == old(self).uart_to_net
                &&& send_transition(
                    old(self).net_to_uart,
                    final(self).net_to_uart,
                    d@,
                    r.1 is Nothing,
                )
                &&& (r.1 is Nothing || r.1 is Retry)
                &&& (r.1 matches NetAction::Retry(back) ==> back@ == d@)
            }),
            state is Bridging && event is UartChunk ==> {
                &&& final(self).net_to_uart == old(self).net_to_uart
                &&& receive_transition(
                    old(self).uart_to_net,
                    final(self).uart_to_net,
                    match r.1 {
                        NetAction::WriteNet(ref c) => Some(c@),
                        _ => None,
                    },
                )
                &&& (r.1 is WriteNet || r.1 is Nothing)
            },
            state is Bridging && (event is ReadEof || event is WriteFailed) ==> {
                &&& final(self).uart_to_net == old(self).uart_to_net
                &&& final(self).net_to_uart == old(self).net_to_uart
                &&& r.1 is CloseSession
            },
            state is Bridging && (event is ReadError || event is WroteOk) ==> {
                &&& final(self).uart_to_net == old(self).uart_to_net
                &&& final(self).net_to_uart == old(self).net_to_uart
                &&& r.1 is Nothing
            },
            state is Listening ==> {
                &&& final(self).uart_to_net == old(self).uart_to_net
                &&& final(self).net_to_uart == old(self).net_to_uart
                &&& (event is Accepted ==> r.1 is Nothing)
                &&& (!(event is Accepted) ==> r.1 is Accept)
            },
            state is Closed ==> {
                &&& final(self).uart_to_net == old(self).uart_to_net
                &&& final(self).net_to_uart == old(self).net_to_uart
                &&& r.1 is Accept
            },
    {
        match state {
            SupervisorState::Listening => match event {
                NetEvent::Accepted => (SupervisorState::Bridging, NetAction::Nothing),
                _ => (SupervisorState::Listening, NetAction::Accept),
            },
            SupervisorState::Bridging => match event {
                NetEvent::ReadData(data) => match self.net_to_uart.try_send(data) {
                    Ok(()) => (SupervisorState::Bridging, NetAction::Nothing),
                    Err(back) => (SupervisorState::Bridging, NetAction::Retry(back)),
                },
                NetEvent::ReadEof => (SupervisorState::Closed, NetAction::CloseSession),
                NetEvent::ReadError => (SupervisorState::Bridging, NetAction::Nothing),
                NetEvent::UartChunk => match self.uart_to_net.try_receive() {
                    Some(chunk) => (SupervisorState::Bridging, NetAction::WriteNet(chunk)),
                    None => (SupervisorState::Bridging, NetAction::Nothing),
                },
                NetEvent::WroteOk => (SupervisorState::Bridging, NetAction::Nothing),
                NetEvent::WriteFailed => (SupervisorState::Closed, NetAction::CloseSession),
                _ => (SupervisorState::Bridging, NetAction::Nothing),
            },
            SupervisorState::Closed => (SupervisorState::Listening, NetAction::Accept),
        }
    }
}

} // verus!
