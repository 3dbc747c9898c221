//! The packet header, its fixed wire layout, and the operation codes.

use crate::endian::{
    le_bytes, le_value, lemma_le_bytes_len, lemma_le_bytes_of_le_value, lemma_le_round_trip,
    lemma_le_value_bound, lemma_radix_pow_values, radix_pow, u16_from_le, u16_to_le, u32_from_le,
    u32_to_le, u64_from_le, u64_to_le,
};
use crate::error::SocketError;
use vstd::prelude::*;

verus! {

/// The number of bytes that a header takes on the wire.
pub const HEADER_SIZE: usize = 44;

/// The socket-type tag of a stream socket, the only type that is spoken.
pub const SOCKET_TYPE_STREAM: u16 = 1;

/// An endpoint: a context id and a port.
#[derive(Copy, Clone, Debug, PartialEq, Eq, Structural)]
pub struct VsockAddr {
    /// The context id of the guest or host.
    pub cid: u64,
    /// The port on that guest or host.
    pub port: u32,
}

/// What a packet asks for or announces.
#[derive(Copy, Clone, Debug, PartialEq, Eq, Structural)]
pub enum VirtioVsockOp {
    /// Any code that names no operation.
    Invalid,
    /// Open a connection.
    Request,
    /// Accept a connection.
    Response,
    /// Refuse or tear down a connection.
    Rst,
    /// Close a connection in an orderly way.
    Shutdown,
    /// Carry payload bytes.
    Rw,
    /// Announce the sender's receive capacity and consumed byte count.
    CreditUpdate,
    /// Ask the peer for a credit update.
    CreditRequest,
}

impl VirtioVsockOp {
    /// The operation that a wire code names; `Invalid` for every code without one.
    pub open spec fn of_code(code: u16) -> VirtioVsockOp {
        if code == 1 {
            VirtioVsockOp::Request
        } else if code == 2 {
            VirtioVsockOp::Response
        } else if code == 3 {
            VirtioVsockOp::Rst
        } else if code == 4 {
            VirtioVsockOp::Shutdown
        } else if code == 5 {
            VirtioVsockOp::Rw
        } else if code == 6 {
            VirtioVsockOp::CreditUpdate
        } else if code == 7 {
            VirtioVsockOp::CreditRequest
        } else {
            VirtioVsockOp::Invalid
        }
    }

    /// The wire code of an operation; `Invalid` is written as zero.
    pub open spec fn wire_code(self) -> u16 {
        match self {
            VirtioVsockOp::Invalid => 0,
            VirtioVsockOp::Request => 1,
            VirtioVsockOp::Response => 2,
            VirtioVsockOp::Rst => 3,
            VirtioVsockOp::Shutdown => 4,
            VirtioVsockOp::Rw => 5,
            VirtioVsockOp::CreditUpdate => 6,
            VirtioVsockOp::CreditRequest => 7,
        }
    }

    /// Reads an operation code. Never fails: an unknown code gives `Invalid`.
    pub fn from_code(code: u16) -> (op: VirtioVsockOp)
        ensures
            op == VirtioVsockOp::of_code(code),
    {
        match code {
            1 => VirtioVsockOp::Request,
            2 => VirtioVsockOp::Response,
            3 => VirtioVsockOp::Rst,
            4 => VirtioVsockOp::Shutdown,
            5 => VirtioVsockOp::Rw,
            6 => VirtioVsockOp::CreditUpdate,
            7 => VirtioVsockOp::CreditRequest,
            _ => VirtioVsockOp::Invalid,
        }
    }

    /// The code under which this operation is sent.
    pub fn code(self) -> (code: u16)
        ensures
            code == self.wire_code(),
    {
        match self {
            VirtioVsockOp::Invalid => 0,
            VirtioVsockOp::Request => 1,
            VirtioVsockOp::Response => 2,
            VirtioVsockOp::Rst => 3,
            VirtioVsockOp::Shutdown => 4,
            VirtioVsockOp::Rw => 5,
            VirtioVsockOp::CreditUpdate => 6,
            VirtioVsockOp::CreditRequest => 7,
        }
    }

    /// Every operation is read back from its own wire code.
    pub proof fn lemma_code_round_trip(self)
        ensures
            VirtioVsockOp::of_code(self.wire_code()) == self,
    {
    }
}

/// The header that precedes every packet body.
#[derive(Copy, Clone, Debug, PartialEq, Eq, Structural)]
pub struct VirtioVsockHdr {
    /// Context id of the sender.
    pub src_cid: u64,
    /// Context id of the receiver.
    pub dst_cid: u64,
    /// Port of the sender.
    pub src_port: u32,
    /// Port of the receiver.
    pub dst_port: u32,
    /// Number of body bytes that follow the header.
    pub len: u32,
    /// Socket-type tag.
    pub socket_type: u16,
    /// Operation code, as sent.
    pub op: u16,
    /// Operation-specific flags.
    pub flags: u32,
    /// Receive capacity that the sender advertises, in bytes.
    pub buf_alloc: u32,
    /// Body bytes that the sender has consumed so far, modulo 2^32.
    pub fwd_cnt: u32,
}

impl Default for VirtioVsockHdr {
    /// A stream-socket header with every other field zero.
    fn default() -> (header: VirtioVsockHdr)
        ensures
            header == VirtioVsockHdr::blank(),
    {
        VirtioVsockHdr {
            src_cid: 0,
            dst_cid: 0,
            src_port: 0,
            dst_port: 0,
            len: 0,
            socket_type: SOCKET_TYPE_STREAM,
            op: 0,
            flags: 0,
            buf_alloc: 0,
            fwd_cnt: 0,
        }
    }
}

impl VirtioVsockHdr {
    /// The stream-socket header with every other field zero.
    pub open spec fn blank() -> VirtioVsockHdr {
        VirtioVsockHdr {
            src_cid: 0,
            dst_cid: 0,
            src_port: 0,
            dst_port: 0,
            len: 0,
            socket_type: SOCKET_TYPE_STREAM,
            op: 0,
            flags: 0,
            buf_alloc: 0,
            fwd_cnt: 0,
        }
    }

    /// The 44 bytes of the header on the wire: the fields in their fixed order,
    /// each little-endian.
    pub open spec fn wire(self) -> Seq<u8> {
        le_bytes(self.src_cid as nat, 8) + le_bytes(self.dst_cid as nat, 8) + le_bytes(
            self.src_port as nat,
            4,
        ) + le_bytes(self.dst_port as nat, 4) + le_bytes(self.len as nat, 4) + le_bytes(
            self.socket_type as nat,
            2,
        ) + le_bytes(self.op as nat, 2) + le_bytes(self.flags as nat, 4) + le_bytes(
            self.buf_alloc as nat,
            4,
        ) + le_bytes(self.fwd_cnt as nat, 4)
    }

    /// The header that the first 44 bytes of `bytes` stand for.
    pub open spec fn parse(bytes: Seq<u8>) -> VirtioVsockHdr
        recommends
            bytes.len() >= HEADER_SIZE,
    {
        VirtioVsockHdr {
            src_cid: le_value(bytes.subrange(0, 8)) as u64,
            dst_cid: le_value(bytes.subrange(8, 16)) as u64,
            src_port: le_value(bytes.subrange(16, 20)) as u32,
            dst_port: le_value(bytes.subrange(20, 24)) as u32,
            len: le_value(bytes.subrange(24, 28)) as u32,
            socket_type: le_value(bytes.subrange(28, 30)) as u16,
            op: le_value(bytes.subrange(30, 32)) as u16,
            flags: le_value(bytes.subrange(32, 36)) as u32,
            buf_alloc: le_value(bytes.subrange(36, 40)) as u32,
            fwd_cnt: le_value(bytes.subrange(40, 44)) as u32,
        }
    }

    /// A header always takes `HEADER_SIZE` bytes.
    pub proof fn lemma_wire_len(self)
        ensures
            self.wire().len() == HEADER_SIZE,
    {
        lemma_le_bytes_len(self.src_cid as nat, 8);
        lemma_le_bytes_len(self.dst_cid as nat, 8);
        lemma_le_bytes_len(self.src_port as nat, 4);
        lemma_le_bytes_len(self.dst_port as nat, 4);
        lemma_le_bytes_len(self.len as nat, 4);
        lemma_le_bytes_len(self.socket_type as nat, 2);
        lemma_le_bytes_len(self.op as nat, 2);
        lemma_le_bytes_len(self.flags as nat, 4);
        lemma_le_bytes_len(self.buf_alloc as nat, 4);
        lemma_le_bytes_len(self.fwd_cnt as nat, 4);
    }

    /// Decoding what was encoded gives the header back, whatever follows it.
    pub proof fn lemma_parse_wire(self, rest: Seq<u8>)
        ensures
            VirtioVsockHdr::parse(self.wire() + rest) == self,
    {
        let bytes = self.wire() + rest;
        self.lemma_wire_len();
        lemma_radix_pow_values();
        lemma_le_round_trip(self.src_cid as nat, 8);
        lemma_le_round_trip(self.dst_cid as nat, 8);
        lemma_le_round_trip(self.src_port as nat, 4);
        lemma_le_round_trip(self.dst_port as nat, 4);
        lemma_le_round_trip(self.len as nat, 4);
        lemma_le_round_trip(self.socket_type as nat, 2);
        lemma_le_round_trip(self.op as nat, 2);
        lemma_le_round_trip(self.flags as nat, 4);
        lemma_le_round_trip(self.buf_alloc as nat, 4);
        lemma_le_round_trip(self.fwd_cnt as nat, 4);
        assert(bytes.subrange(0, 8) =~= le_bytes(self.src_cid as nat, 8));
        assert(bytes.subrange(8, 16) =~= le_bytes(self.dst_cid as nat, 8));
        assert(bytes.subrange(16, 20) =~= le_bytes(self.src_port as nat, 4));
        assert(bytes.subrange(20, 24) =~= le_bytes(self.dst_port as nat, 4));
        assert(bytes.subrange(24, 28) =~= le_bytes(self.len as nat, 4));
        assert(bytes.subrange(28, 30) =~= le_bytes(self.socket_type as nat, 2));
        assert(bytes.subrange(30, 32) =~= le_bytes(self.op as nat, 2));
        assert(bytes.subrange(32, 36) =~= le_bytes(self.flags as nat, 4));
        assert(bytes.subrange(36, 40) =~= le_bytes(self.buf_alloc as nat, 4));
        assert(bytes.subrange(40, 44) =~= le_bytes(self.fwd_cnt as nat, 4));
    }

    /// Encoding what was decoded gives the first 44 bytes back.
    pub proof fn lemma_wire_parse(bytes: Seq<u8>)
        requires
            bytes.len() >= HEADER_SIZE,
        ensures
            VirtioVsockHdr::parse(bytes).wire() == bytes.subrange(0, HEADER_SIZE as int),
    {
        lemma_radix_pow_values();
        lemma_field_bytes(bytes, 0, 8);
        lemma_field_bytes(bytes, 8, 8);
        lemma_field_bytes(bytes, 16, 4);
        lemma_field_bytes(bytes, 20, 4);
        lemma_field_bytes(bytes, 24, 4);
        lemma_field_bytes(bytes, 28, 2);
        lemma_field_bytes(bytes, 30, 2);
        lemma_field_bytes(bytes, 32, 4);
        lemma_field_bytes(bytes, 36, 4);
        lemma_field_bytes(bytes, 40, 4);
        assert(VirtioVsockHdr::parse(bytes).wire() =~= bytes.subrange(0, HEADER_SIZE as int));
    }

    /// Encodes the header.
    pub fn to_bytes(&self) -> (bytes: Vec<u8>)
        ensures
            bytes@ == self.wire(),
    {
        let mut bytes: Vec<u8> = Vec::with_capacity(HEADER_SIZE);
        bytes.extend_from_slice(u64_to_le(self.src_cid).as_slice());
        bytes.extend_from_slice(u64_to_le(self.dst_cid).as_slice());
        bytes.extend_from_slice(u32_to_le(self.src_port).as_slice());
        bytes.extend_from_slice(u32_to_le(self.dst_port).as_slice());
        bytes.extend_from_slice(u32_to_le(self.len).as_slice());
        bytes.extend_from_slice(u16_to_le(self.socket_type).as_slice());
        bytes.extend_from_slice(u16_to_le(self.op).as_slice());
        bytes.extend_from_slice(u32_to_le(self.flags).as_slice());
        bytes.extend_from_slice(u32_to_le(self.buf_alloc).as_slice());
        bytes.extend_from_slice(u32_to_le(self.fwd_cnt).as_slice());
        bytes
    }

    /// Decodes a header from the front of `bytes`. Fails exactly when fewer than
    /// `HEADER_SIZE` bytes are there; no field is judged.
    pub fn read_from_prefix(bytes: &[u8]) -> (header: Option<VirtioVsockHdr>)
        ensures
            bytes@.len() < HEADER_SIZE ==> header is None,
            bytes@.len() >= HEADER_SIZE ==> header == Some(VirtioVsockHdr::parse(bytes@)),
    {
        if bytes.len() < HEADER_SIZE {
            return None;
        }
        Some(
            VirtioVsockHdr {
                src_cid: read_u64(bytes, 0),
                dst_cid: read_u64(bytes, 8),
                src_port: read_u32(bytes, 16),
                dst_port: read_u32(bytes, 20),
                len: read_u32(bytes, 24),
                socket_type: read_u16(bytes, 28),
                op: read_u16(bytes, 30),
                flags: read_u32(bytes, 32),
                buf_alloc: read_u32(bytes, 36),
                fwd_cnt: read_u32(bytes, 40),
            },
        )
    }

    /// The declared body length.
    pub fn len(&self) -> (len: u32)
        ensures
            len == self.len,
    {
        self.len
    }

    /// The operation that the header names.
    pub fn op(&self) -> (op: VirtioVsockOp)
        ensures
            op == VirtioVsockOp::of_code(self.op),
    {
        VirtioVsockOp::from_code(self.op)
    }

    /// The sender's address.
    pub open spec fn spec_source(self) -> VsockAddr {
        VsockAddr { cid: self.src_cid, port: self.src_port }
    }

    /// The receiver's address.
    pub open spec fn spec_destination(self) -> VsockAddr {
        VsockAddr { cid: self.dst_cid, port: self.dst_port }
    }

    /// The sender's address.
    pub fn source(&self) -> (addr: VsockAddr)
        ensures
            addr == self.spec_source(),
    {
        VsockAddr { cid: self.src_cid, port: self.src_port }
    }

    /// The receiver's address.
    pub fn destination(&self) -> (addr: VsockAddr)
        ensures
            addr == self.spec_destination(),
    {
        VsockAddr { cid: self.dst_cid, port: self.dst_port }
    }

    /// Accepts a header that declares no body, and rejects any other.
    pub fn check_data_is_empty(&self) -> (checked: Result<(), SocketError>)
        ensures
            checked == (if self.len == 0 {
                Ok::<(), SocketError>(())
            } else {
                Err(SocketError::InvalidOperation)
            }),
    {
        if self.len == 0 {
            Ok(())
        } else {
            Err(SocketError::InvalidOperation)
        }
    }
}

/// What reading one packet from `buffer` yields when the caller can take
/// `capacity` body bytes: the header, or the reason why there is none.
///
/// The header must be whole, the body it declares must lie within `buffer`, and
/// the caller must have room for that body. Nothing else is judged.
pub open spec fn decode(buffer: Seq<u8>, capacity: nat) -> Result<VirtioVsockHdr, SocketError> {
    if buffer.len() < HEADER_SIZE {
        Err(SocketError::BufferTooShort)
    } else {
        let header = VirtioVsockHdr::parse(buffer);
        if HEADER_SIZE + header.len > usize::MAX {
            Err(SocketError::InvalidNumber)
        } else if buffer.len() < HEADER_SIZE + header.len {
            Err(SocketError::BufferTooShort)
        } else if capacity < header.len {
            Err(SocketError::OutputBufferTooShort(header.len as usize))
        } else {
            Ok(header)
        }
    }
}

/// The body bytes of the packet at the front of `buffer`.
pub open spec fn body_of(buffer: Seq<u8>) -> Seq<u8>
    recommends
        decode(buffer, buffer.len()) is Ok,
{
    buffer.subrange(HEADER_SIZE as int, HEADER_SIZE + VirtioVsockHdr::parse(buffer).len)
}

/// What the caller's buffer holds after a packet was read from `buffer`: the
/// body at its front and its old contents behind that; unchanged if the read
/// failed.
pub open spec fn body_after(buffer: Seq<u8>, body: Seq<u8>) -> Seq<u8> {
    if decode(buffer, body.len()) is Ok {
        body_of(buffer) + body.skip(VirtioVsockHdr::parse(buffer).len as int)
    } else {
        body
    }
}

/// Reads the packet at the front of `buffer`: returns its header and copies its
/// body to the front of `body`.
pub fn read_header_and_body(buffer: &[u8], body: &mut [u8]) -> (header: Result<
    VirtioVsockHdr,
    SocketError,
>)
    ensures
        header == decode(buffer@, old(body)@.len()),
        final(body)@ == body_after(buffer@, old(body)@),
{
    let header = match VirtioVsockHdr::read_from_prefix(buffer) {
        Some(header) => header,
        None => {
            return Err(SocketError::BufferTooShort);
        },
    };
    let body_length: usize = header.len() as usize;
    let data_end: usize = match HEADER_SIZE.checked_add(body_length) {
        Some(end) => end,
        None => {
            return Err(SocketError::InvalidNumber);
        },
    };
    if buffer.len() < data_end {
        return Err(SocketError::BufferTooShort);
    }
    if body.len() < body_length {
        return Err(SocketError::OutputBufferTooShort(body_length));
    }
    let mut i: usize = 0;
    while i < body_length
        invariant
            i <= body_length,
            body_length == header.len,
            data_end == HEADER_SIZE + body_length,
            data_end <= buffer@.len(),
            body@.len() == old(body)@.len(),
            body_length <= body@.len(),
            forall|k: int| 0 <= k < i ==> body@[k] == buffer@[HEADER_SIZE + k],
            forall|k: int| i <= k < body@.len() ==> body@[k] == old(body)@[k],
        decreases body_length - i,
    {
        body[i] = buffer[HEADER_SIZE + i];
        i += 1;
    }
    assert(body@ =~= body_after(buffer@, old(body)@));
    Ok(header)
}

/// A header followed by the body it declares is read back as that header and
/// that body, if the caller has room for the body.
pub proof fn lemma_decode_round_trip(header: VirtioVsockHdr, body: Seq<u8>, capacity: nat)
    requires
        body.len() == header.len,
        HEADER_SIZE + header.len <= usize::MAX,
        header.len <= capacity,
    ensures
        decode(header.wire() + body, capacity) == Ok::<VirtioVsockHdr, SocketError>(header),
        body_of(header.wire() + body) == body,
{
    header.lemma_wire_len();
    header.lemma_parse_wire(body);
    assert(body_of(header.wire() + body) =~= body);
}

/// The bytes of one field are the digits of the number they stand for.
proof fn lemma_field_bytes(bytes: Seq<u8>, at: int, width: nat)
    requires
        0 <= at,
        at + width <= bytes.len(),
    ensures
        le_bytes(le_value(bytes.subrange(at, at + width)), width) == bytes.subrange(
            at,
            at + width,
        ),
        le_value(bytes.subrange(at, at + width)) < radix_pow(width),
{
    lemma_le_bytes_of_le_value(bytes.subrange(at, at + width));
    lemma_le_value_bound(bytes.subrange(at, at + width));
}

fn read_u16(bytes: &[u8], at: usize) -> (value: u16)
    requires
        at + 2 <= bytes@.len(),
    ensures
        value == le_value(bytes@.subrange(at as int, at + 2)) as u16,
        value as nat == le_value(bytes@.subrange(at as int, at + 2)),
{
    let field: [u8; 2] = [bytes[at], bytes[at + 1]];
    assert(field@ =~= bytes@.subrange(at as int, at + 2));
    u16_from_le(field)
}

fn read_u32(bytes: &[u8], at: usize) -> (value: u32)
    requires
        at + 4 <= bytes@.len(),
    ensures
        value == le_value(bytes@.subrange(at as int, at + 4)) as u32,
        value as nat == le_value(bytes@.subrange(at as int, at + 4)),
{
    let field: [u8; 4] = [bytes[at], bytes[at + 1], bytes[at + 2], bytes[at + 3]];
    assert(field@ =~= bytes@.subrange(at as int, at + 4));
    u32_from_le(field)
}

fn read_u64(bytes: &[u8], at: usize) -> (value: u64)
    requires
        at + 8 <= bytes@.len(),
    ensures
        value == le_value(bytes@.subrange(at as int, at + 8)) as u64,
        value as nat == le_value(bytes@.subrange(at as int, at + 8)),
{
    let field: [u8; 8] = [
        bytes[at],
        bytes[at + 1],
        bytes[at + 2],
        bytes[at + 3],
        bytes[at + 4],
        bytes[at + 5],
        bytes[at + 6],
        bytes[at + 7],
    ];
    assert(field@ =~= bytes@.subrange(at as int, at + 8));
    u64_from_le(field)
}

} // verus!
