use virtio_vsock::connection::ConnectionInfo;
use virtio_vsock::error::SocketError;
use virtio_vsock::protocol::{
    read_header_and_body, VirtioVsockHdr, VirtioVsockOp, VsockAddr, HEADER_SIZE,
    SOCKET_TYPE_STREAM,
};

fn sample_header() -> VirtioVsockHdr {
    VirtioVsockHdr {
        src_cid: 0x0102_0304_0506_0708,
        dst_cid: 0x1112_1314_1516_1718,
        src_port: 0x2122_2324,
        dst_port: 0x3132_3334,
        len: 0x4142_4344,
        socket_type: 0x5152,
        op: 0x6162,
        flags: 0x7172_7374,
        buf_alloc: 0x8182_8384,
        fwd_cnt: 0x9192_9394,
    }
}

fn sample_bytes() -> Vec<u8> {
    vec![
        0x08, 0x07, 0x06, 0x05, 0x04, 0x03, 0x02, 0x01, // src_cid
        0x18, 0x17, 0x16, 0x15, 0x14, 0x13, 0x12, 0x11, // dst_cid
        0x24, 0x23, 0x22, 0x21, // src_port
        0x34, 0x33, 0x32, 0x31, // dst_port
        0x44, 0x43, 0x42, 0x41, // len
        0x52, 0x51, // socket_type
        0x62, 0x61, // op
        0x74, 0x73, 0x72, 0x71, // flags
        0x84, 0x83, 0x82, 0x81, // buf_alloc
        0x94, 0x93, 0x92, 0x91, // fwd_cnt
    ]
}

#[test]
fn header_size_is_sum_of_field_widths() {
    assert_eq!(HEADER_SIZE, 8 + 8 + 4 + 4 + 4 + 2 + 2 + 4 + 4 + 4);
    assert_eq!(sample_header().to_bytes().len(), HEADER_SIZE);
}

#[test]
fn header_is_encoded_little_endian_in_field_order() {
    assert_eq!(sample_header().to_bytes(), sample_bytes());
}

#[test]
fn header_is_decoded_little_endian_in_field_order() {
    assert_eq!(VirtioVsockHdr::read_from_prefix(&sample_bytes()), Some(sample_header()));
}

#[test]
fn header_round_trips() {
    let headers = [
        sample_header(),
        VirtioVsockHdr::default(),
        VirtioVsockHdr {
            src_cid: u64::MAX,
            dst_cid: u64::MAX,
            src_port: u32::MAX,
            dst_port: u32::MAX,
            len: u32::MAX,
            socket_type: u16::MAX,
            op: u16::MAX,
            flags: u32::MAX,
            buf_alloc: u32::MAX,
            fwd_cnt: u32::MAX,
        },
        VirtioVsockHdr { src_cid: 1 << 63, len: 1 << 31, op: 1 << 15, ..VirtioVsockHdr::default() },
    ];
    for header in headers {
        let bytes = header.to_bytes();
        assert_eq!(VirtioVsockHdr::read_from_prefix(&bytes), Some(header));
    }
}

#[test]
fn bytes_round_trip_through_header() {
    let mut bytes = Vec::new();
    for i in 0..HEADER_SIZE {
        bytes.push((i * 37 + 11) as u8);
    }
    let header = VirtioVsockHdr::read_from_prefix(&bytes).unwrap();
    assert_eq!(header.to_bytes(), bytes);
}

#[test]
fn header_ignores_what_follows_it() {
    let mut bytes = sample_bytes();
    bytes.extend_from_slice(&[0xaa, 0xbb, 0xcc]);
    assert_eq!(VirtioVsockHdr::read_from_prefix(&bytes), Some(sample_header()));
}

#[test]
fn short_header_is_not_decoded() {
    let bytes = sample_bytes();
    assert_eq!(VirtioVsockHdr::read_from_prefix(&bytes[..HEADER_SIZE - 1]), None);
    assert_eq!(VirtioVsockHdr::read_from_prefix(&[]), None);
}

#[test]
fn default_header_is_a_blank_stream_header() {
    let header = VirtioVsockHdr::default();
    assert_eq!(
        header,
        VirtioVsockHdr {
            src_cid: 0,
            dst_cid: 0,
            src_port: 0,
            dst_port: 0,
            len: 0,
            socket_type: 1,
            op: 0,
            flags: 0,
            buf_alloc: 0,
            fwd_cnt: 0,
        }
    );
    assert_eq!(SOCKET_TYPE_STREAM, 1);
}

#[test]
fn operation_codes() {
    assert_eq!(VirtioVsockOp::from_code(1), VirtioVsockOp::Request);
    assert_eq!(VirtioVsockOp::from_code(2), VirtioVsockOp::Response);
    assert_eq!(VirtioVsockOp::from_code(3), VirtioVsockOp::Rst);
    assert_eq!(VirtioVsockOp::from_code(4), VirtioVsockOp::Shutdown);
    assert_eq!(VirtioVsockOp::from_code(5), VirtioVsockOp::Rw);
    assert_eq!(VirtioVsockOp::from_code(6), VirtioVsockOp::CreditUpdate);
    assert_eq!(VirtioVsockOp::from_code(7), VirtioVsockOp::CreditRequest);
    assert_eq!(VirtioVsockOp::Request.code(), 1);
    assert_eq!(VirtioVsockOp::Response.code(), 2);
    assert_eq!(VirtioVsockOp::Rst.code(), 3);
    assert_eq!(VirtioVsockOp::Shutdown.code(), 4);
    assert_eq!(VirtioVsockOp::Rw.code(), 5);
    assert_eq!(VirtioVsockOp::CreditUpdate.code(), 6);
    assert_eq!(VirtioVsockOp::CreditRequest.code(), 7);
}

#[test]
fn unknown_operation_codes_are_invalid() {
    assert_eq!(VirtioVsockOp::from_code(0), VirtioVsockOp::Invalid);
    assert_eq!(VirtioVsockOp::from_code(8), VirtioVsockOp::Invalid);
    assert_eq!(VirtioVsockOp::from_code(0x0100), VirtioVsockOp::Invalid);
    assert_eq!(VirtioVsockOp::from_code(u16::MAX), VirtioVsockOp::Invalid);
    assert_eq!(VirtioVsockOp::Invalid.code(), 0);
}

#[test]
fn operation_codes_round_trip() {
    let ops = [
        VirtioVsockOp::Invalid,
        VirtioVsockOp::Request,
        VirtioVsockOp::Response,
        VirtioVsockOp::Rst,
        VirtioVsockOp::Shutdown,
        VirtioVsockOp::Rw,
        VirtioVsockOp::CreditUpdate,
        VirtioVsockOp::CreditRequest,
    ];
    for op in ops {
        assert_eq!(VirtioVsockOp::from_code(op.code()), op);
    }
}

#[test]
fn header_accessors() {
    let header = sample_header();
    assert_eq!(header.len(), 0x4142_4344);
    assert_eq!(header.source(), VsockAddr { cid: 0x0102_0304_0506_0708, port: 0x2122_2324 });
    assert_eq!(header.destination(), VsockAddr { cid: 0x1112_1314_1516_1718, port: 0x3132_3334 });
    assert_eq!(header.op(), VirtioVsockOp::Invalid);
    let request = VirtioVsockHdr { op: 1, ..VirtioVsockHdr::default() };
    assert_eq!(request.op(), VirtioVsockOp::Request);
}

#[test]
fn body_must_be_empty() {
    let empty = VirtioVsockHdr { op: 6, len: 0, ..VirtioVsockHdr::default() };
    assert_eq!(empty.check_data_is_empty(), Ok(()));
    let full = VirtioVsockHdr { op: 6, len: 1, ..VirtioVsockHdr::default() };
    assert_eq!(full.check_data_is_empty(), Err(SocketError::InvalidOperation));
}

#[test]
fn addresses_are_equal_when_both_fields_are() {
    let a = VsockAddr { cid: 2, port: 1234 };
    assert_eq!(a, VsockAddr { cid: 2, port: 1234 });
    assert_ne!(a, VsockAddr { cid: 3, port: 1234 });
    assert_ne!(a, VsockAddr { cid: 2, port: 1235 });
}

fn packet(header: &VirtioVsockHdr, body: &[u8]) -> Vec<u8> {
    let mut bytes = header.to_bytes();
    bytes.extend_from_slice(body);
    bytes
}

#[test]
fn packet_is_read_with_its_body() {
    let header = VirtioVsockHdr { op: 5, len: 5, ..VirtioVsockHdr::default() };
    let mut buffer = packet(&header, b"hello");
    buffer.extend_from_slice(b"stale bytes behind the packet");
    let mut body = [0xeeu8; 8];
    assert_eq!(read_header_and_body(&buffer, &mut body), Ok(header));
    assert_eq!(&body, b"hello\xee\xee\xee");
}

#[test]
fn packet_without_body_leaves_the_output_alone() {
    let header = VirtioVsockHdr { op: 2, ..VirtioVsockHdr::default() };
    let mut body = [7u8; 4];
    assert_eq!(read_header_and_body(&packet(&header, &[]), &mut body), Ok(header));
    assert_eq!(body, [7u8; 4]);
    let mut nothing: [u8; 0] = [];
    assert_eq!(read_header_and_body(&packet(&header, &[]), &mut nothing), Ok(header));
}

#[test]
fn packet_shorter_than_a_header_is_too_short() {
    let header = VirtioVsockHdr::default();
    let bytes = header.to_bytes();
    let mut body = [1u8; 4];
    assert_eq!(
        read_header_and_body(&bytes[..HEADER_SIZE - 1], &mut body),
        Err(SocketError::BufferTooShort)
    );
    assert_eq!(body, [1u8; 4]);
}

#[test]
fn packet_shorter_than_its_declared_body_is_too_short() {
    let header = VirtioVsockHdr { op: 5, len: 6, ..VirtioVsockHdr::default() };
    let mut body = [1u8; 16];
    assert_eq!(
        read_header_and_body(&packet(&header, b"hello"), &mut body),
        Err(SocketError::BufferTooShort)
    );
    assert_eq!(body, [1u8; 16]);
}

#[test]
fn output_shorter_than_the_body_is_reported_with_the_length() {
    let header = VirtioVsockHdr { op: 5, len: 5, ..VirtioVsockHdr::default() };
    let mut body = [1u8; 4];
    assert_eq!(
        read_header_and_body(&packet(&header, b"hello"), &mut body),
        Err(SocketError::OutputBufferTooShort(5))
    );
    assert_eq!(body, [1u8; 4]);
}

#[test]
fn peer_free_is_capacity_less_bytes_in_flight() {
    let mut info = ConnectionInfo::new(VsockAddr { cid: 2, port: 1234 }, 4321);
    assert_eq!(info.peer_free(), 0);
    info.peer_buf_alloc = 50;
    assert_eq!(info.peer_free(), 50);
    info.tx_cnt = 16;
    assert_eq!(info.peer_free(), 34);
    info.peer_fwd_cnt = 16;
    assert_eq!(info.peer_free(), 50);
    info.tx_cnt = 66;
    assert_eq!(info.peer_free(), 0);
}

#[test]
fn peer_free_survives_counter_wraparound() {
    let mut info = ConnectionInfo::new(VsockAddr { cid: 2, port: 1234 }, 4321);
    info.peer_buf_alloc = 100;
    info.peer_fwd_cnt = u32::MAX - 9;
    info.tx_cnt = 20;
    // Thirty bytes are in flight: ten before the counter wrapped and twenty after.
    assert_eq!(info.peer_free(), 70);
    info.peer_fwd_cnt = u32::MAX;
    info.tx_cnt = u32::MAX;
    assert_eq!(info.peer_free(), 100);
    info.tx_cnt = 0;
    assert_eq!(info.peer_free(), 99);
}

#[test]
fn peer_free_wraps_when_more_is_in_flight_than_advertised() {
    let mut info = ConnectionInfo::new(VsockAddr { cid: 2, port: 1234 }, 4321);
    info.peer_buf_alloc = 10;
    info.tx_cnt = 11;
    assert_eq!(info.peer_free(), u32::MAX);
}

#[test]
fn header_template_carries_addresses_and_consumed_count() {
    let mut info = ConnectionInfo::new(VsockAddr { cid: 2, port: 1234 }, 4321);
    info.fwd_cnt = 15;
    info.tx_cnt = 16;
    info.peer_buf_alloc = 50;
    assert_eq!(
        info.new_header(66),
        VirtioVsockHdr {
            src_cid: 66,
            dst_cid: 2,
            src_port: 4321,
            dst_port: 1234,
            len: 0,
            socket_type: 1,
            op: 0,
            flags: 0,
            buf_alloc: 0,
            fwd_cnt: 15,
        }
    );
}

#[test]
fn fresh_connection_has_zero_counters() {
    let info = ConnectionInfo::new(VsockAddr { cid: 2, port: 1234 }, 4321);
    assert_eq!(
        info,
        ConnectionInfo {
            dst: VsockAddr { cid: 2, port: 1234 },
            src_port: 4321,
            peer_buf_alloc: 0,
            peer_fwd_cnt: 0,
            tx_cnt: 0,
            fwd_cnt: 0,
            has_pending_credit_request: false,
        }
    );
}

#[test]
fn connection_accepts_only_packets_between_its_ends() {
    let info = ConnectionInfo::new(VsockAddr { cid: 2, port: 1234 }, 4321);
    let good = VirtioVsockHdr {
        src_cid: 2,
        dst_cid: 66,
        src_port: 1234,
        dst_port: 4321,
        ..VirtioVsockHdr::default()
    };
    assert!(info.accepts(66, &good));
    assert!(!info.accepts(67, &good));
    assert!(!info.accepts(66, &VirtioVsockHdr { src_cid: 3, ..good }));
    assert!(!info.accepts(66, &VirtioVsockHdr { src_port: 1, ..good }));
    assert!(!info.accepts(66, &VirtioVsockHdr { dst_cid: 65, ..good }));
    assert!(!info.accepts(66, &VirtioVsockHdr { dst_port: 1, ..good }));
}
