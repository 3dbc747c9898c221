//! The state of the one connection: who the peer is, and the credit accounts
//! of both directions.

use crate::protocol::{VirtioVsockHdr, VsockAddr, SOCKET_TYPE_STREAM};
use vstd::prelude::*;

verus! {

/// The number of values of a 32-bit counter; the credit counters run modulo it.
pub open spec fn counter_range() -> int {
    0x1_0000_0000
}

/// The state of a connection.
#[derive(Copy, Clone, Debug, PartialEq, Eq, Structural)]
pub struct ConnectionInfo {
    /// The peer's address.
    pub dst: VsockAddr,
    /// The port on this side.
    pub src_port: u32,
    /// The receive capacity that the peer advertised last, in bytes.
    pub peer_buf_alloc: u32,
    /// The count of body bytes that the peer reported last as consumed.
    pub peer_fwd_cnt: u32,
    /// The count of body bytes sent to the peer.
    pub tx_cnt: u32,
    /// The count of body bytes received from the peer and handed on.
    pub fwd_cnt: u32,
    /// Whether a credit request is under way: set when one is sent, cleared
    /// when a credit update arrives.
    pub has_pending_credit_request: bool,
}

impl ConnectionInfo {
    /// The state of a connection on which nothing has been sent or received.
    pub open spec fn fresh(dst: VsockAddr, src_port: u32) -> ConnectionInfo {
        ConnectionInfo {
            dst,
            src_port,
            peer_buf_alloc: 0,
            peer_fwd_cnt: 0,
            tx_cnt: 0,
            fwd_cnt: 0,
            has_pending_credit_request: false,
        }
    }

    /// The bytes sent that the peer has not yet reported as consumed, modulo
    /// 2^32.
    pub open spec fn in_flight(self) -> int {
        (self.tx_cnt - self.peer_fwd_cnt) % counter_range()
    }

    /// The space left in the peer's receive buffer: its advertised capacity
    /// less the bytes in flight, modulo 2^32.
    pub open spec fn spec_peer_free(self) -> int {
        (self.peer_buf_alloc - self.in_flight()) % counter_range()
    }

    /// The header that every packet of this connection starts from: the two
    /// addresses and this side's consumed byte count; no operation, no body,
    /// no advertised capacity.
    pub open spec fn spec_new_header(self, src_cid: u64) -> VirtioVsockHdr {
        VirtioVsockHdr {
            src_cid,
            dst_cid: self.dst.cid,
            src_port: self.src_port,
            dst_port: self.dst.port,
            len: 0,
            socket_type: SOCKET_TYPE_STREAM,
            op: 0,
            flags: 0,
            buf_alloc: 0,
            fwd_cnt: self.fwd_cnt,
        }
    }

    /// Whether a packet with this header belongs to this connection of the
    /// guest `guest_cid`: it comes from the peer and is addressed to this side.
    pub open spec fn spec_accepts(self, guest_cid: u64, header: VirtioVsockHdr) -> bool {
        &&& header.spec_source() == self.dst
        &&& header.dst_cid == guest_cid
        &&& header.dst_port == self.src_port
    }

    /// Starts a connection to `dst` from the local port `src_port`.
    pub fn new(dst: VsockAddr, src_port: u32) -> (info: ConnectionInfo)
        ensures
            info == ConnectionInfo::fresh(dst, src_port),
    {
        ConnectionInfo {
            dst,
            src_port,
            peer_buf_alloc: 0,
            peer_fwd_cnt: 0,
            tx_cnt: 0,
            fwd_cnt: 0,
            has_pending_credit_request: false,
        }
    }

    /// The space left in the peer's receive buffer, computed with wraparound.
    pub fn peer_free(&self) -> (free: u32)
        ensures
            free == self.spec_peer_free(),
    {
        self.peer_buf_alloc.wrapping_sub(self.tx_cnt.wrapping_sub(self.peer_fwd_cnt))
    }

    /// The header template for a packet sent by the guest `src_cid`.
    pub fn new_header(&self, src_cid: u64) -> (header: VirtioVsockHdr)
        ensures
            header == self.spec_new_header(src_cid),
    {
        VirtioVsockHdr {
            src_cid,
            dst_cid: self.dst.cid,
            src_port: self.src_port,
            dst_port: self.dst.port,
            len: 0,
            socket_type: SOCKET_TYPE_STREAM,
            op: 0,
            flags: 0,
            buf_alloc: 0,
            fwd_cnt: self.fwd_cnt,
        }
    }

    /// Whether a packet with this header belongs to this connection.
    pub fn accepts(&self, guest_cid: u64, header: &VirtioVsockHdr) -> (accepted: bool)
        ensures
            accepted == self.spec_accepts(guest_cid, *header),
    {
        header.src_cid == self.dst.cid && header.src_port == self.dst.port && header.dst_cid
            == guest_cid && header.dst_port == self.src_port
    }

    /// The free space is a 32-bit quantity in every state, and while the bytes
    /// in flight do not exceed the advertised capacity it is the plain
    /// difference of the two, down to zero when the capacity is used up.
    pub proof fn lemma_peer_free(self)
        ensures
            0 <= self.spec_peer_free() < counter_range(),
            0 <= self.in_flight() < counter_range(),
            self.in_flight() <= self.peer_buf_alloc ==> self.spec_peer_free()
                == self.peer_buf_alloc - self.in_flight(),
            self.peer_fwd_cnt <= self.tx_cnt ==> self.in_flight() == self.tx_cnt
                - self.peer_fwd_cnt,
    {
    }

    /// The free space does not change when both counters pass the 32-bit
    /// boundary: it depends only on how far the sent count is ahead of the
    /// peer's consumed count.
    pub proof fn lemma_peer_free_wraps(self, shift: u32)
        ensures
            (ConnectionInfo {
                tx_cnt: ((self.tx_cnt + shift) % counter_range()) as u32,
                peer_fwd_cnt: ((self.peer_fwd_cnt + shift) % counter_range()) as u32,
                ..self
            }).spec_peer_free() == self.spec_peer_free(),
    {
    }
}

} // verus!
