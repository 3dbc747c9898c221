//! The session driver: one connection at a time over the receive pool and an
//! outbox of packets for the transmit queue.
//!
//! The driver never touches a device. What it sends is appended to the outbox,
//! from which the transport side takes packets in order (`pop_sent`); what the
//! device delivers is written into an available slot of the receive pool
//! (`deliver`). Every operation runs to completion on what is there.

use crate::connection::{counter_range, ConnectionInfo};
use crate::error::SocketError;
use crate::pool::{RxPool, RxPoolView, SlotState, QUEUE_SIZE};
use crate::protocol::{
    body_after, decode, read_header_and_body, VirtioVsockHdr, VirtioVsockOp, VsockAddr,
};
use vstd::prelude::*;

verus! {

/// The index of the queue on which packets arrive.
pub const RX_QUEUE_IDX: u16 = 0;

/// The index of the queue on which packets are sent.
pub const TX_QUEUE_IDX: u16 = 1;

/// The index of the queue on which the device reports events of its own.
pub const EVENT_QUEUE_IDX: u16 = 2;

/// Why a connection ended.
#[derive(Copy, Clone, Debug, PartialEq, Eq, Structural)]
pub enum DisconnectReason {
    /// The peer reset the connection: in answer to a shutdown, or of its own
    /// accord.
    Reset,
    /// The peer asked to shut the connection down.
    Shutdown,
}

/// What happened on the connection.
#[derive(Copy, Clone, Debug, PartialEq, Eq, Structural)]
pub enum VsockEventType {
    /// The peer accepted the connection.
    Connected,
    /// The connection was closed.
    Disconnected {
        /// Why it was closed.
        reason: DisconnectReason,
    },
    /// Data arrived and lies at the front of the caller's buffer.
    Received {
        /// The number of bytes that arrived.
        length: usize,
    },
}

/// An event on the connection, with the addresses of both ends.
#[derive(Copy, Clone, Debug, PartialEq, Eq, Structural)]
pub struct VsockEvent {
    /// The peer that caused the event.
    pub source: VsockAddr,
    /// The address on this side.
    pub destination: VsockAddr,
    /// What happened.
    pub event_type: VsockEventType,
}

/// The features that the driver takes up of those that the device offers:
/// none, since the baseline is all it needs.
pub fn negotiate_features(device_features: u64) -> (accepted: u64)
    ensures
        accepted == 0,
{
    let supported: u64 = 0;
    let accepted: u64 = device_features & supported;
    assert(device_features & 0 == 0) by (bit_vector);
    accepted
}

/// The context id whose low and high halves are `low` and `high`.
pub open spec fn spec_combine_cid(low: u32, high: u32) -> u64 {
    (low + high * counter_range()) as u64
}

/// Joins the two halves of a context id as they stand in the device's
/// configuration.
pub fn combine_cid(low: u32, high: u32) -> (cid: u64)
    ensures
        cid == spec_combine_cid(low, high),
        cid == low + high * counter_range(),
{
    let cid: u64 = (low as u64) | ((high as u64) << 32);
    assert(((low as u64) | ((high as u64) << 32)) == (low as u64) + (high as u64)
        * 0x1_0000_0000u64) by (bit_vector);
    cid
}

/// The header of a packet on the connection `conn` of the guest `guest_cid`.
pub open spec fn packet_header(
    conn: ConnectionInfo,
    guest_cid: u64,
    op: VirtioVsockOp,
    len: u32,
    buf_alloc: u32,
) -> VirtioVsockHdr {
    VirtioVsockHdr { op: op.wire_code(), len, buf_alloc, ..conn.spec_new_header(guest_cid) }
}

/// The header of a packet without body that advertises no capacity.
pub open spec fn control_header(conn: ConnectionInfo, guest_cid: u64, op: VirtioVsockOp)
    -> VirtioVsockHdr {
    packet_header(conn, guest_cid, op, 0, 0)
}

/// The driver as contracts see it.
pub struct SocketView {
    /// The context id of this guest.
    pub guest_cid: u64,
    /// The connection, if one is open or has been requested.
    pub connection: Option<ConnectionInfo>,
    /// The packets sent and not yet taken by the transport side, oldest first,
    /// each as it goes on the wire.
    pub outbox: Seq<Seq<u8>>,
    /// The receive pool.
    pub rx: RxPoolView,
}

impl SocketView {
    /// Whether the view is that of a well-formed driver: the receive pool is
    /// well-formed and every slot of it is on loan to the queue. The driver
    /// owns a slot only within an operation, between taking it back and
    /// submitting it again.
    pub open spec fn wf(self) -> bool {
        &&& self.rx.wf()
        &&& forall|i: int| 0 <= i < QUEUE_SIZE ==> self.rx.on_loan(i)
    }

    /// The driver after start-up: no connection, nothing sent, and every slot
    /// of the receive pool handed to the queue.
    pub open spec fn initial(guest_cid: u64) -> SocketView {
        SocketView {
            guest_cid,
            connection: None,
            outbox: Seq::empty(),
            rx: RxPoolView {
                states: Seq::new(QUEUE_SIZE as nat, |i: int| SlotState::Available),
                ..RxPoolView::fresh()
            },
        }
    }

    /// The same driver with one more packet in the outbox.
    pub open spec fn emit(self, header: VirtioVsockHdr, body: Seq<u8>) -> SocketView {
        SocketView { outbox: self.outbox.push(header.wire() + body), ..self }
    }

    /// The same driver with another connection state.
    pub open spec fn with_connection(self, connection: Option<ConnectionInfo>) -> SocketView {
        SocketView { connection, ..self }
    }

    /// The address of this side for a connection from `src_port`.
    pub open spec fn local_addr(self, src_port: u32) -> VsockAddr {
        VsockAddr { cid: self.guest_cid, port: src_port }
    }

    /// `connect`: refused while a connection exists; else a fresh connection
    /// state and a Request in the outbox.
    pub open spec fn connect(self, destination: VsockAddr, src_port: u32) -> (
        SocketView,
        Result<(), SocketError>,
    ) {
        if self.connection is Some {
            (self, Err(SocketError::ConnectionExists))
        } else {
            let conn = ConnectionInfo::fresh(destination, src_port);
            (
                self.emit(
                    control_header(conn, self.guest_cid, VirtioVsockOp::Request),
                    Seq::empty(),
                ).with_connection(Some(conn)),
                Ok(()),
            )
        }
    }

    /// A packet without body on the current connection: refused when idle,
    /// else appended to the outbox.
    pub open spec fn control(self, op: VirtioVsockOp) -> (SocketView, Result<(), SocketError>) {
        match self.connection {
            None => (self, Err(SocketError::NotConnected)),
            Some(conn) => (
                self.emit(control_header(conn, self.guest_cid, op), Seq::empty()),
                Ok(()),
            ),
        }
    }

    /// `force_close`: a Reset in the outbox and no connection any more;
    /// refused when idle.
    pub open spec fn force_close(self) -> (SocketView, Result<(), SocketError>) {
        match self.connection {
            None => (self, Err(SocketError::NotConnected)),
            Some(conn) => (self.control(VirtioVsockOp::Rst).0.with_connection(None), Ok(())),
        }
    }

    /// The credit check before `length` bytes are sent on behalf of `conn`.
    ///
    /// Passes if the peer has room. If not, the caller is told so, after a
    /// CreditRequest was sent unless one is under way; sending it marks `conn`.
    /// Should the driver be idle, that request fails and its error is
    /// returned instead.
    pub open spec fn check_credit(self, conn: ConnectionInfo, length: usize) -> (
        SocketView,
        ConnectionInfo,
        Result<(), SocketError>,
    ) {
        if length <= conn.spec_peer_free() {
            (self, conn, Ok(()))
        } else if conn.has_pending_credit_request {
            (self, conn, Err(SocketError::InsufficientBufferSpaceInPeer))
        } else if self.connection is None {
            (self, conn, Err(SocketError::NotConnected))
        } else {
            (
                self.control(VirtioVsockOp::CreditRequest).0,
                ConnectionInfo { has_pending_credit_request: true, ..conn },
                Err(SocketError::InsufficientBufferSpaceInPeer),
            )
        }
    }

    /// `send`: refused when idle. If the peer has room for the payload, a data
    /// packet with the payload goes to the outbox and the sent count grows by
    /// its length. If not, the call fails, and a CreditRequest goes to the
    /// outbox unless one is under way.
    pub open spec fn send(self, payload: Seq<u8>) -> (SocketView, Result<(), SocketError>) {
        match self.connection {
            None => (self, Err(SocketError::NotConnected)),
            Some(conn) => if payload.len() <= conn.spec_peer_free() {
                (
                    self.emit(
                        packet_header(
                            conn,
                            self.guest_cid,
                            VirtioVsockOp::Rw,
                            payload.len() as u32,
                            0,
                        ),
                        payload,
                    ).with_connection(
                        Some(
                            ConnectionInfo {
                                tx_cnt: ((conn.tx_cnt + payload.len()) % counter_range()) as u32,
                                ..conn
                            },
                        ),
                    ),
                    Ok(()),
                )
            } else if conn.has_pending_credit_request {
                (self, Err(SocketError::InsufficientBufferSpaceInPeer))
            } else {
                (
                    self.control(VirtioVsockOp::CreditRequest).0.with_connection(
                        Some(ConnectionInfo { has_pending_credit_request: true, ..conn }),
                    ),
                    Err(SocketError::InsufficientBufferSpaceInPeer),
                )
            },
        }
    }

    /// What a received packet with this header does to the driver, and what it
    /// gives the caller: an event, nothing (`None`), or an error.
    ///
    /// A packet that is not from the peer to this side is dropped; so is every
    /// packet while no connection exists. Any other packet first brings the
    /// peer's credit up to date. Then: a Response reports the connection; a
    /// Reset or Shutdown ends it and reports that; a data packet counts its
    /// body as consumed and reports it; a CreditUpdate clears the pending
    /// request; a Request or CreditRequest does nothing more. All but the data
    /// packet must come without body. An unknown operation is an error.
    pub open spec fn receive(self, header: VirtioVsockHdr) -> (
        SocketView,
        Result<Option<VsockEvent>, SocketError>,
    ) {
        match self.connection {
            None => (self, Ok(None)),
            Some(conn) => if !conn.spec_accepts(self.guest_cid, header) {
                (self, Ok(None))
            } else {
                let updated = ConnectionInfo {
                    peer_buf_alloc: header.buf_alloc,
                    peer_fwd_cnt: header.fwd_cnt,
                    ..conn
                };
                let op = VirtioVsockOp::of_code(header.op);
                let event = |event_type: VsockEventType|
                    VsockEvent {
                        source: conn.dst,
                        destination: self.local_addr(conn.src_port),
                        event_type,
                    };
                if op == VirtioVsockOp::Invalid {
                    (self.with_connection(Some(updated)), Err(SocketError::InvalidOperation))
                } else if op == VirtioVsockOp::Rw {
                    (
                        self.with_connection(
                            Some(
                                ConnectionInfo {
                                    fwd_cnt: ((conn.fwd_cnt + header.len) % counter_range()) as u32,
                                    ..updated
                                },
                            ),
                        ),
                        Ok(Some(event(VsockEventType::Received { length: header.len as usize }))),
                    )
                } else if header.len != 0 {
                    (self.with_connection(Some(updated)), Err(SocketError::InvalidOperation))
                } else if op == VirtioVsockOp::Response {
                    (
                        self.with_connection(Some(updated)),
                        Ok(Some(event(VsockEventType::Connected))),
                    )
                } else if op == VirtioVsockOp::Rst {
                    (
                        self.with_connection(None),
                        Ok(
                            Some(
                                event(
                                    VsockEventType::Disconnected { reason: DisconnectReason::Reset },
                                ),
                            ),
                        ),
                    )
                } else if op == VirtioVsockOp::Shutdown {
                    (
                        self.with_connection(None),
                        Ok(
                            Some(
                                event(
                                    VsockEventType::Disconnected {
                                        reason: DisconnectReason::Shutdown,
                                    },
                                ),
                            ),
                        ),
                    )
                } else if op == VirtioVsockOp::CreditUpdate {
                    (
                        self.with_connection(
                            Some(ConnectionInfo { has_pending_credit_request: false, ..updated }),
                        ),
                        Ok(None),
                    )
                } else {
                    (self.with_connection(Some(updated)), Ok(None))
                }
            },
        }
    }

    /// Taking one packet from the receive queue: nothing if no slot is used;
    /// else the first used slot is read into `body` and goes back to the queue
    /// at once, whether the read succeeds or not.
    pub open spec fn pop_packet(self, body: Seq<u8>) -> (
        SocketView,
        Seq<u8>,
        Result<Option<VirtioVsockHdr>, SocketError>,
    ) {
        match self.rx.first_used() {
            None => (self, body, Ok(None)),
            Some(slot) => {
                let buffer = self.rx.buffers[slot as int];
                (
                    SocketView { rx: self.rx.recycle(), ..self },
                    body_after(buffer, body),
                    match decode(buffer, body.len()) {
                        Ok(header) => Ok(Some(header)),
                        Err(error) => Err(error),
                    },
                )
            },
        }
    }

    /// Working through the receive queue: packets are taken one by one until
    /// one gives an event or an error, or none is left.
    pub open spec fn drain(self, body: Seq<u8>) -> (
        SocketView,
        Seq<u8>,
        Result<Option<VsockEvent>, SocketError>,
    )
        decreases self.rx.used.len(),
    {
        if self.rx.used.len() == 0 {
            (self, body, Ok(None))
        } else {
            let (popped, filled, header) = self.pop_packet(body);
            match header {
                Err(error) => (popped, filled, Err(error)),
                Ok(None) => (popped, filled, Ok(None)),
                Ok(Some(header)) => {
                    let (next, outcome) = popped.receive(header);
                    if outcome == Ok::<Option<VsockEvent>, SocketError>(None) {
                        next.drain(filled)
                    } else {
                        (next, filled, outcome)
                    }
                },
            }
        }
    }

    /// `poll_recv`: refused when idle; else a CreditUpdate that advertises the
    /// size of the caller's buffer goes to the outbox, and the receive queue
    /// is worked through.
    pub open spec fn poll_recv(self, body: Seq<u8>) -> (
        SocketView,
        Seq<u8>,
        Result<Option<VsockEvent>, SocketError>,
    ) {
        match self.connection {
            None => (self, body, Err(SocketError::NotConnected)),
            Some(conn) => self.emit(
                packet_header(
                    conn,
                    self.guest_cid,
                    VirtioVsockOp::CreditUpdate,
                    0,
                    (body.len() % (counter_range() as nat)) as u32,
                ),
                Seq::empty(),
            ).drain(body),
        }
    }

    /// What an event means to someone who waits for the peer's answer to a
    /// connection request.
    pub open spec fn connect_outcome(event: VsockEventType) -> Result<(), SocketError> {
        match event {
            VsockEventType::Connected => Ok(()),
            VsockEventType::Disconnected { .. } => Err(SocketError::ConnectionFailed),
            VsockEventType::Received { .. } => Err(SocketError::InvalidOperation),
        }
    }

    /// `poll_connect`: one poll with an empty buffer; `true` if the peer has
    /// accepted, `false` if nothing has been decided yet.
    pub open spec fn poll_connect(self) -> (SocketView, Result<bool, SocketError>) {
        let (next, _, polled) = self.poll_recv(Seq::empty());
        (
            next,
            match polled {
                Err(error) => Err(error),
                Ok(None) => Ok(false),
                Ok(Some(event)) => match SocketView::connect_outcome(event.event_type) {
                    Ok(_) => Ok(true),
                    Err(error) => Err(error),
                },
            },
        )
    }
}

impl SocketView {
    /// Every operation on a connection is refused while there is none, and
    /// leaves the driver as it was; that is so right after start-up.
    pub proof fn lemma_idle_refuses(self, payload: Seq<u8>, body: Seq<u8>)
        requires
            self.connection is None,
        ensures
            self.send(payload) == (self, Err::<(), SocketError>(SocketError::NotConnected)),
            self.control(VirtioVsockOp::Shutdown) == (
                self,
                Err::<(), SocketError>(SocketError::NotConnected),
            ),
            self.control(VirtioVsockOp::CreditRequest) == (
                self,
                Err::<(), SocketError>(SocketError::NotConnected),
            ),
            self.force_close() == (self, Err::<(), SocketError>(SocketError::NotConnected)),
            self.poll_recv(body) == (
                self,
                body,
                Err::<Option<VsockEvent>, SocketError>(SocketError::NotConnected),
            ),
            SocketView::initial(self.guest_cid).connection is None,
    {
    }

    /// A forced close always succeeds after a connect and leaves the driver
    /// idle, so that the next connect is accepted.
    pub proof fn lemma_reconnect_after_force_close(
        self,
        first: VsockAddr,
        first_port: u32,
        second: VsockAddr,
        second_port: u32,
    )
        ensures
            ({
                let requested = self.connect(first, first_port).0;
                let (closed, closing) = requested.force_close();
                &&& closing is Ok
                &&& closed.connection is None
                &&& closed.connect(second, second_port).1 is Ok
                &&& closed.connect(second, second_port).0.connection == Some(
                    ConnectionInfo::fresh(second, second_port),
                )
            }),
    {
    }

    /// A send for which the peer has no room fails and asks for credit once:
    /// the first such send puts one CreditRequest in the outbox, unless a
    /// request is under way already, and a second one changes nothing at all.
    pub proof fn lemma_credit_requested_once(self, payload: Seq<u8>)
        requires
            self.connection is Some,
            payload.len() > self.connection.unwrap().spec_peer_free(),
        ensures
            ({
                let conn = self.connection.unwrap();
                let (first, first_result) = self.send(payload);
                let (second, second_result) = first.send(payload);
                &&& first_result == Err::<(), SocketError>(
                    SocketError::InsufficientBufferSpaceInPeer,
                )
                &&& second_result == first_result
                &&& first.outbox == (if conn.has_pending_credit_request {
                    self.outbox
                } else {
                    self.outbox.push(
                        control_header(conn, self.guest_cid, VirtioVsockOp::CreditRequest).wire(),
                    )
                })
                &&& first.connection == Some(
                    ConnectionInfo { has_pending_credit_request: true, ..conn },
                )
                &&& second == first
            }),
    {
        let conn = self.connection.unwrap();
        assert(control_header(conn, self.guest_cid, VirtioVsockOp::CreditRequest).wire()
            + Seq::<u8>::empty() =~= control_header(
            conn,
            self.guest_cid,
            VirtioVsockOp::CreditRequest,
        ).wire());
        let marked = ConnectionInfo { has_pending_credit_request: true, ..conn };
        assert(marked.spec_peer_free() == conn.spec_peer_free());
    }

    /// A packet of the connection that should have no body and declares one
    /// is refused, and its body is not counted: of the connection state only
    /// the peer's credit changes.
    pub proof fn lemma_unexpected_body_rejected(self, header: VirtioVsockHdr)
        requires
            self.connection is Some,
            self.connection.unwrap().spec_accepts(self.guest_cid, header),
            VirtioVsockOp::of_code(header.op) != VirtioVsockOp::Rw,
            header.len != 0,
        ensures
            self.receive(header).1 == Err::<Option<VsockEvent>, SocketError>(
                SocketError::InvalidOperation,
            ),
            self.receive(header).0 == self.with_connection(
                Some(
                    ConnectionInfo {
                        peer_buf_alloc: header.buf_alloc,
                        peer_fwd_cnt: header.fwd_cnt,
                        ..self.connection.unwrap()
                    },
                ),
            ),
    {
    }

    /// A reset from the peer while its answer to a connection request is
    /// awaited makes the wait fail with `ConnectionFailed` and leaves the
    /// driver idle; a response makes it succeed.
    pub proof fn lemma_answer_to_connect(self, header: VirtioVsockHdr)
        requires
            self.connection is Some,
            self.connection.unwrap().spec_accepts(self.guest_cid, header),
            header.len == 0,
        ensures
            ({
                let (next, outcome) = self.receive(header);
                let op = VirtioVsockOp::of_code(header.op);
                &&& op == VirtioVsockOp::Rst ==> {
                    &&& next.connection is None
                    &&& outcome is Ok
                    &&& outcome.unwrap() is Some
                    &&& SocketView::connect_outcome(outcome.unwrap().unwrap().event_type) == Err::<
                        (),
                        SocketError,
                    >(SocketError::ConnectionFailed)
                }
                &&& op == VirtioVsockOp::Response ==> {
                    &&& next.connection is Some
                    &&& outcome is Ok
                    &&& outcome.unwrap() is Some
                    &&& SocketView::connect_outcome(outcome.unwrap().unwrap().event_type) == Ok::<
                        (),
                        SocketError,
                    >(())
                }
            }),
    {
    }

    /// Taking a packet returns its slot to the queue under the same index:
    /// no buffer changes, the slot is available to the device again, and
    /// every other slot is as it was.
    pub proof fn lemma_pop_packet_recycles(self, body: Seq<u8>)
        requires
            self.wf(),
            self.rx.used.len() > 0,
        ensures
            ({
                let popped = self.pop_packet(body).0;
                &&& popped.wf()
                &&& popped.rx.buffers == self.rx.buffers
                &&& popped.rx.states == self.rx.states.update(
                    self.rx.used[0] as int,
                    SlotState::Available,
                )
                &&& popped.rx.used == self.rx.used.drop_first()
                &&& popped.guest_cid == self.guest_cid
                &&& popped.connection == self.connection
                &&& popped.outbox == self.outbox
            }),
    {
        self.rx.lemma_recycle();
        let popped = self.pop_packet(body).0;
        assert(popped.rx == self.rx.recycle());
        assert forall|i: int| 0 <= i < QUEUE_SIZE implies popped.rx.on_loan(i) by {
            assert(self.rx.on_loan(i));
        }
    }

    /// Working through the receive queue keeps every slot on loan that was on
    /// loan and every slot owned that was owned, changes no buffer, sends
    /// nothing, and keeps the length of the caller's buffer.
    pub proof fn lemma_drain_keeps_pool(self, body: Seq<u8>)
        requires
            self.wf(),
        ensures
            ({
                let drained = self.drain(body).0;
                &&& drained.wf()
                &&& drained.rx.buffers == self.rx.buffers
                &&& forall|i: int|
                    0 <= i < QUEUE_SIZE ==> (drained.rx.on_loan(i) <==> self.rx.on_loan(i))
                &&& drained.outbox == self.outbox
                &&& drained.guest_cid == self.guest_cid
                &&& self.drain(body).1.len() == body.len()
            }),
        decreases self.rx.used.len(),
    {
        if self.rx.used.len() > 0 {
            self.lemma_pop_packet_recycles(body);
            self.rx.lemma_recycle();
            let (popped, filled, header) = self.pop_packet(body);
            if let Ok(Some(header)) = header {
                let (next, outcome) = popped.receive(header);
                if outcome == Ok::<Option<VsockEvent>, SocketError>(None) {
                    next.lemma_drain_keeps_pool(filled);
                }
            }
        }
    }
}

/// The driver of one socket device.
pub struct VirtIOSocket {
    guest_cid: u64,
    rx: RxPool,
    tx: Vec<Vec<u8>>,
    connection_info: Option<ConnectionInfo>,
}

impl View for VirtIOSocket {
    type V = SocketView;

    closed spec fn view(&self) -> SocketView {
        SocketView {
            guest_cid: self.guest_cid,
            connection: self.connection_info,
            outbox: Seq::new(self.tx@.len(), |i: int| self.tx@[i]@),
            rx: self.rx@,
        }
    }
}

impl VirtIOSocket {
    /// Whether the driver is well-formed. `new` makes it so and every
    /// operation keeps it so.
    pub open spec fn wf(&self) -> bool {
        self@.wf()
    }

    /// Sets the driver up for the guest whose context id stands in the
    /// device's configuration as the halves `guest_cid_low` and
    /// `guest_cid_high`: allocates the receive pool and hands every slot to
    /// the queue.
    pub fn new(guest_cid_low: u32, guest_cid_high: u32) -> (socket: VirtIOSocket)
        ensures
            socket.wf(),
            socket@ == SocketView::initial(spec_combine_cid(guest_cid_low, guest_cid_high)),
    {
        let guest_cid = combine_cid(guest_cid_low, guest_cid_high);
        let mut rx = RxPool::new();
        let mut i: usize = 0;
        while i < QUEUE_SIZE
            invariant
                i <= QUEUE_SIZE,
                rx.wf(),
                rx@.buffers == RxPoolView::fresh().buffers,
                rx@.used == RxPoolView::fresh().used,
                forall|j: int| 0 <= j < i ==> #[trigger] rx@.states[j] == SlotState::Available,
                forall|j: int| i <= j < QUEUE_SIZE ==> #[trigger] rx@.states[j] == SlotState::Owned,
            decreases QUEUE_SIZE - i,
        {
            let submitted = rx.submit(i);
            assert(submitted is Ok);
            i += 1;
        }
        let socket = VirtIOSocket { guest_cid, rx, tx: Vec::new(), connection_info: None };
        proof {
            let initial = SocketView::initial(guest_cid);
            assert(socket@.rx.states =~= initial.rx.states);
            assert(socket@.outbox =~= initial.outbox);
        }
        socket
    }

    /// The context id of this guest.
    pub fn guest_cid(&self) -> (cid: u64)
        ensures
            cid == self@.guest_cid,
    {
        self.guest_cid
    }

    /// The state of the connection, or `NotConnected` if there is none.
    pub fn connection_info(&self) -> (info: Result<ConnectionInfo, SocketError>)
        ensures
            info == (match self@.connection {
                Some(conn) => Ok::<ConnectionInfo, SocketError>(conn),
                None => Err(SocketError::NotConnected),
            }),
    {
        match self.connection_info {
            Some(conn) => Ok(conn),
            None => Err(SocketError::NotConnected),
        }
    }

    /// Asks the peer at `destination` for a connection from the local port
    /// `src_port`.
    ///
    /// Returns as soon as the request is in the outbox. The peer's answer
    /// comes as a `Connected` or `Disconnected` event of a later poll.
    pub fn connect(&mut self, destination: VsockAddr, src_port: u32) -> (connected: Result<
        (),
        SocketError,
    >)
        requires
            old(self).wf(),
        ensures
            final(self).wf(),
            (final(self)@, connected) == old(self)@.connect(destination, src_port),
    {
        if self.connection_info.is_some() {
            return Err(SocketError::ConnectionExists);
        }
        let new_connection_info = ConnectionInfo::new(destination, src_port);
        let mut header = new_connection_info.new_header(self.guest_cid);
        header.op = VirtioVsockOp::Request.code();
        self.send_packet_to_tx_queue(&header, &[]);
        self.connection_info = Some(new_connection_info);
        Ok(())
    }

    /// Sends a packet without body, with the operation `op`, on the current
    /// connection.
    fn send_control(&mut self, op: VirtioVsockOp) -> (sent: Result<(), SocketError>)
        requires
            old(self).wf(),
        ensures
            final(self).wf(),
            (final(self)@, sent) == old(self)@.control(op),
    {
        let connection_info = match self.connection_info() {
            Ok(conn) => conn,
            Err(error) => {
                return Err(error);
            },
        };
        let mut header = connection_info.new_header(self.guest_cid);
        header.op = op.code();
        self.send_packet_to_tx_queue(&header, &[]);
        Ok(())
    }

    /// Asks the peer for a credit update on the current connection.
    pub fn request_credit(&mut self) -> (requested: Result<(), SocketError>)
        requires
            old(self).wf(),
        ensures
            final(self).wf(),
            (final(self)@, requested) == old(self)@.control(VirtioVsockOp::CreditRequest),
    {
        self.send_control(VirtioVsockOp::CreditRequest)
    }

    /// Sends `buffer` to the peer.
    ///
    /// Fails with `InsufficientBufferSpaceInPeer` while the peer has not
    /// advertised room for all of it; the caller may try again after a credit
    /// update has come in.
    pub fn send(&mut self, buffer: &[u8]) -> (sent: Result<(), SocketError>)
        requires
            old(self).wf(),
        ensures
            final(self).wf(),
            (final(self)@, sent) == old(self)@.send(buffer@),
    {
        let mut connection_info = match self.connection_info() {
            Ok(conn) => conn,
            Err(error) => {
                return Err(error);
            },
        };
        let result = self.check_peer_buffer_is_sufficient(&mut connection_info, buffer.len());
        self.connection_info = Some(connection_info);
        if let Err(error) = result {
            return Err(error);
        }
        let len: u32 = buffer.len() as u32;
        let mut header = connection_info.new_header(self.guest_cid);
        header.op = VirtioVsockOp::Rw.code();
        header.len = len;
        header.buf_alloc = 0;
        connection_info.tx_cnt = connection_info.tx_cnt.wrapping_add(len);
        self.connection_info = Some(connection_info);
        self.send_packet_to_tx_queue(&header, buffer);
        Ok(())
    }

    /// Checks that the peer has room for `buffer_len` more bytes on the
    /// connection `connection_info`, and asks it for a credit update if it
    /// has not and no such request is under way.
    pub fn check_peer_buffer_is_sufficient(
        &mut self,
        connection_info: &mut ConnectionInfo,
        buffer_len: usize,
    ) -> (checked: Result<(), SocketError>)
        requires
            old(self).wf(),
        ensures
            final(self).wf(),
            (final(self)@, *final(connection_info), checked) == old(self)@.check_credit(
                *old(connection_info),
                buffer_len,
            ),
    {
        if connection_info.peer_free() as usize >= buffer_len {
            Ok(())
        } else {
            if !connection_info.has_pending_credit_request {
                if let Err(error) = self.request_credit() {
                    return Err(error);
                }
                connection_info.has_pending_credit_request = true;
            }
            Err(SocketError::InsufficientBufferSpaceInPeer)
        }
    }

    /// Looks for an event without waiting.
    ///
    /// Tells the peer first that `buffer.len()` bytes can be received, then
    /// works through the packets that have arrived until one of them gives an
    /// event. Returns `None` if none does. The body of a data packet is copied
    /// to the front of `buffer`.
    pub fn poll_recv(&mut self, buffer: &mut [u8]) -> (event: Result<
        Option<VsockEvent>,
        SocketError,
    >)
        requires
            old(self).wf(),
        ensures
            final(self).wf(),
            (final(self)@, final(buffer)@, event) == old(self)@.poll_recv(old(buffer)@),
    {
        let connection_info = match self.connection_info() {
            Ok(conn) => conn,
            Err(error) => {
                return Err(error);
            },
        };
        let mut header = connection_info.new_header(self.guest_cid);
        header.op = VirtioVsockOp::CreditUpdate.code();
        header.buf_alloc = low_half(buffer.len());
        self.send_packet_to_tx_queue(&header, &[]);
        self.poll_rx_queue(buffer)
    }

    /// Looks, without waiting, for the peer's answer to a connection request.
    ///
    /// Returns `true` once the peer has accepted and `false` while nothing has
    /// been decided. Fails with `ConnectionFailed` if the peer refused, and
    /// with `InvalidOperation` if data arrived instead of an answer.
    pub fn poll_connect(&mut self) -> (connected: Result<bool, SocketError>)
        requires
            old(self).wf(),
        ensures
            final(self).wf(),
            (final(self)@, connected) == old(self)@.poll_connect(),
    {
        let mut nothing: Vec<u8> = Vec::new();
        match self.poll_recv(nothing.as_mut_slice()) {
            Err(error) => Err(error),
            Ok(None) => Ok(false),
            Ok(Some(event)) => match connect_outcome(&event.event_type) {
                Ok(()) => Ok(true),
                Err(error) => Err(error),
            },
        }
    }

    /// Asks the peer to shut the connection down.
    ///
    /// The connection stays as it is until the peer's answer comes as a
    /// `Disconnected` event of a later poll.
    pub fn shutdown(&mut self) -> (sent: Result<(), SocketError>)
        requires
            old(self).wf(),
        ensures
            final(self).wf(),
            (final(self)@, sent) == old(self)@.control(VirtioVsockOp::Shutdown),
    {
        self.send_control(VirtioVsockOp::Shutdown)
    }

    /// Closes the connection at once, without waiting for the peer.
    pub fn force_close(&mut self) -> (closed: Result<(), SocketError>)
        requires
            old(self).wf(),
        ensures
            final(self).wf(),
            (final(self)@, closed) == old(self)@.force_close(),
    {
        if let Err(error) = self.send_control(VirtioVsockOp::Rst) {
            return Err(error);
        }
        self.connection_info = None;
        Ok(())
    }

    /// Appends the packet made of `header` and `buffer` to the outbox.
    pub fn send_packet_to_tx_queue(&mut self, header: &VirtioVsockHdr, buffer: &[u8])
        requires
            old(self).wf(),
        ensures
            final(self).wf(),
            final(self)@ == old(self)@.emit(*header, buffer@),
    {
        let mut packet = header.to_bytes();
        packet.extend_from_slice(buffer);
        assert(packet@ =~= header.wire() + buffer@);
        self.tx.push(packet);
        assert(self@.outbox =~= old(self)@.emit(*header, buffer@).outbox);
    }

    /// The transport's side of the outbox: takes the oldest packet out, if
    /// there is one.
    pub fn pop_sent(&mut self) -> (packet: Option<Vec<u8>>)
        requires
            old(self).wf(),
        ensures
            final(self).wf(),
            old(self)@.outbox.len() == 0 ==> packet is None && final(self)@ == old(self)@,
            old(self)@.outbox.len() > 0 ==> packet is Some && packet.unwrap()@
                == old(self)@.outbox[0] && final(self)@ == (SocketView {
                outbox: old(self)@.outbox.drop_first(),
                ..old(self)@
            }),
    {
        if self.tx.len() == 0 {
            return None;
        }
        let packet = self.tx.remove(0);
        assert(self@.outbox =~= old(self)@.outbox.drop_first());
        Some(packet)
    }

    /// The device's side of the receive queue: writes the packet `data` into
    /// the available slot `slot` and marks the slot used.
    pub fn deliver(&mut self, slot: usize, data: &[u8]) -> (delivered: Result<(), SocketError>)
        requires
            old(self).wf(),
        ensures
            final(self).wf(),
            final(self)@ == (SocketView { rx: old(self)@.rx.fill(slot, data@), ..old(self)@ }),
            delivered == (match old(self)@.rx.fill_error(slot, data@) {
                Some(error) => Err::<(), SocketError>(error),
                None => Ok(()),
            }),
    {
        let delivered = self.rx.fill(slot, data);
        proof {
            assert forall|i: int| 0 <= i < QUEUE_SIZE implies self@.rx.on_loan(i) by {
                assert(old(self)@.rx.on_loan(i));
            }
        }
        delivered
    }

    /// The state of the slot `slot` of the receive pool.
    pub fn slot_state(&self, slot: usize) -> (state: Option<SlotState>)
        requires
            self.wf(),
        ensures
            state == (if slot < QUEUE_SIZE {
                Some(self@.rx.states[slot as int])
            } else {
                None
            }),
    {
        self.rx.state(slot)
    }

    /// Works through the packets that have arrived until one of them gives an
    /// event or an error, or none is left.
    pub fn poll_rx_queue(&mut self, body: &mut [u8]) -> (event: Result<
        Option<VsockEvent>,
        SocketError,
    >)
        requires
            old(self).wf(),
        ensures
            final(self).wf(),
            (final(self)@, final(body)@, event) == old(self)@.drain(old(body)@),
    {
        loop
            invariant
                self.wf(),
                self@.drain(body@) == old(self)@.drain(old(body)@),
            decreases self@.rx.used.len(),
        {
            let ghost before = self@;
            let ghost body_before = body@;
            let header = match self.pop_packet_from_rx_queue(body) {
                Err(error) => {
                    return Err(error);
                },
                Ok(None) => {
                    return Ok(None);
                },
                Ok(Some(header)) => header,
            };
            proof {
                before.rx.lemma_recycle();
            }
            match self.handle_packet(&header) {
                Err(error) => {
                    return Err(error);
                },
                Ok(Some(event)) => {
                    return Ok(Some(event));
                },
                Ok(None) => {},
            }
        }
    }

    /// Takes the next packet that has arrived, if there is one: returns its
    /// header and copies its body to the front of `body`. The slot that held
    /// it goes back to the queue under its own index, also where the packet
    /// cannot be read.
    pub fn pop_packet_from_rx_queue(&mut self, body: &mut [u8]) -> (header: Result<
        Option<VirtioVsockHdr>,
        SocketError,
    >)
        requires
            old(self).wf(),
        ensures
            final(self).wf(),
            (final(self)@, final(body)@, header) == old(self)@.pop_packet(old(body)@),
    {
        let slot = match self.rx.try_take_filled() {
            None => {
                return Ok(None);
            },
            Some(slot) => slot,
        };
        proof {
            old(self)@.rx.lemma_recycle();
        }
        let header_result = match self.rx.buffer(slot) {
            Some(buffer) => read_header_and_body(buffer, body),
            None => Err(SocketError::WrongToken),
        };
        let resubmitted = self.rx.submit(slot);
        proof {
            assert(resubmitted is Ok);
            old(self)@.lemma_pop_packet_recycles(old(body)@);
        }
        match header_result {
            Ok(header) => Ok(Some(header)),
            Err(error) => Err(error),
        }
    }

    /// Applies one received packet to the connection and says what it means
    /// to the caller: an event, nothing, or an error.
    pub fn handle_packet(&mut self, header: &VirtioVsockHdr) -> (event: Result<
        Option<VsockEvent>,
        SocketError,
    >)
        requires
            old(self).wf(),
        ensures
            final(self).wf(),
            (final(self)@, event) == old(self)@.receive(*header),
    {
        let mut connection_info = match self.connection_info {
            Some(conn) => conn,
            None => {
                return Ok(None);
            },
        };
        let op = header.op();
        if !connection_info.accepts(self.guest_cid, header) {
            return Ok(None);
        }
        let source = connection_info.dst;
        let destination = VsockAddr { cid: self.guest_cid, port: connection_info.src_port };
        connection_info.peer_buf_alloc = header.buf_alloc;
        connection_info.peer_fwd_cnt = header.fwd_cnt;
        self.connection_info = Some(connection_info);
        match op {
            VirtioVsockOp::Request => {
                if let Err(error) = header.check_data_is_empty() {
                    return Err(error);
                }
                Ok(None)
            },
            VirtioVsockOp::Response => {
                if let Err(error) = header.check_data_is_empty() {
                    return Err(error);
                }
                Ok(Some(VsockEvent { source, destination, event_type: VsockEventType::Connected }))
            },
            VirtioVsockOp::CreditUpdate => {
                if let Err(error) = header.check_data_is_empty() {
                    return Err(error);
                }
                connection_info.has_pending_credit_request = false;
                self.connection_info = Some(connection_info);
                Ok(None)
            },
            VirtioVsockOp::Rst | VirtioVsockOp::Shutdown => {
                if let Err(error) = header.check_data_is_empty() {
                    return Err(error);
                }
                self.connection_info = None;
                let reason = if matches!(op, VirtioVsockOp::Rst) {
                    DisconnectReason::Reset
                } else {
                    DisconnectReason::Shutdown
                };
                Ok(
                    Some(
                        VsockEvent {
                            source,
                            destination,
                            event_type: VsockEventType::Disconnected { reason },
                        },
                    ),
                )
            },
            VirtioVsockOp::Rw => {
                connection_info.fwd_cnt = connection_info.fwd_cnt.wrapping_add(header.len());
                self.connection_info = Some(connection_info);
                Ok(
                    Some(
                        VsockEvent {
                            source,
                            destination,
                            event_type: VsockEventType::Received { length: header.len() as usize },
                        },
                    ),
                )
            },
            VirtioVsockOp::CreditRequest => {
                if let Err(error) = header.check_data_is_empty() {
                    return Err(error);
                }
                Ok(None)
            },
            VirtioVsockOp::Invalid => Err(SocketError::InvalidOperation),
        }
    }
}

/// The low 32 bits of a length.
fn low_half(length: usize) -> (low: u32)
    ensures
        low == (length as nat) % (counter_range() as nat),
{
    let wide: u64 = length as u64;
    let low: u64 = wide & 0xffff_ffff;
    assert(wide & 0xffff_ffff == wide % 0x1_0000_0000) by (bit_vector);
    low as u32
}

/// What an event means to someone who waits for the peer's answer to a
/// connection request: success if the peer accepted, `ConnectionFailed` if the
/// connection was closed, `InvalidOperation` if data arrived instead.
pub fn connect_outcome(event: &VsockEventType) -> (outcome: Result<(), SocketError>)
    ensures
        outcome == SocketView::connect_outcome(*event),
{
    match event {
        VsockEventType::Connected => Ok(()),
        VsockEventType::Disconnected { .. } => Err(SocketError::ConnectionFailed),
        VsockEventType::Received { .. } => Err(SocketError::InvalidOperation),
    }
}

} // verus!
