use rust_af_xdp::desc::XdpDesc;
use rust_af_xdp::umem::XskUmemInfoBuilder;
use rust_af_xdp::xsk_stream::{
    SocketConfig, WriteTimeout, XskPacket, XskSocketInfo, XskSocketInfoBuilder, XskStream,
};

fn socket(n_frames: u64, batch: u32) -> XskSocketInfoBuilder {
    let info = XskUmemInfoBuilder::new().with_n_frames(n_frames).into_info();
    XskSocketInfoBuilder::new(info, "lo".to_string(), 0).with_rx_batch_size(batch)
}

fn stream(n_frames: u64, batch: u32) -> XskStream {
    let b = socket(n_frames, batch);
    let timeout = b.write_timeout();
    XskStream::new(b.into_socket(), timeout)
}

fn drain_reads(s: &mut XskStream) -> Vec<XdpDesc> {
    let mut out = Vec::new();
    while let Ok(Some(d)) = s.begin_read(16) {
        out.push(d);
    }
    out
}

#[test]
fn socket_builder_defaults_and_setters() {
    let info = XskUmemInfoBuilder::new().into_info();
    let b = XskSocketInfoBuilder::new(info, "eth0".to_string(), 3);
    assert_eq!(
        b.config(),
        SocketConfig { rx_size: 2048, tx_size: 2048, libbpf_flags: 0, xdp_flags: 0, bind_flags: 0 }
    );
    assert_eq!(b.socket().rx_size(), 2048);
    assert_eq!(b.socket().tx_size(), 2048);
    assert_eq!(b.socket().rx_batch_size(), 64);
    assert_eq!(b.socket().tx_batch_size(), 64);
    assert_eq!(b.socket().ifname(), "eth0");
    assert_eq!(b.socket().if_queue_id(), 3);
    assert_eq!(b.socket().free_frames().len(), 4096);
    assert!(b.write_timeout().is_none());
    let b = b
        .with_rx_size(512)
        .with_tx_size(256)
        .with_rx_batch_size(4)
        .with_tx_batch_size(8)
        .with_libbpf_flag(1)
        .with_libbpf_flag(4)
        .with_xdp_flag(2)
        .with_bind_flag(8)
        .with_write_timeout(1, 500);
    assert_eq!(
        b.config(),
        SocketConfig { rx_size: 512, tx_size: 256, libbpf_flags: 5, xdp_flags: 2, bind_flags: 8 }
    );
    assert_eq!(b.socket().rx_size(), 512);
    assert_eq!(b.socket().tx_size(), 256);
    assert_eq!(b.socket().rx_batch_size(), 4);
    assert_eq!(b.socket().tx_batch_size(), 8);
    assert_eq!(b.write_timeout(), Some(WriteTimeout { secs: 1, nanos: 500 }));
}

#[test]
fn new_stream_is_empty() {
    let s = stream(8, 4);
    assert_eq!(s.pending_reads(), 0);
    assert_eq!(s.pending_writes(), 0);
    assert_eq!(s.read_frames(), 0);
    assert_eq!(s.get_buf_size(), 16);
    assert_eq!(s.socket().free_frames().len(), 8);
}

#[test]
fn fill_reservation_takes_top_frames() {
    let mut s = stream(8, 4);
    assert!(s.check_fill_reservation(3).is_ok());
    let frames = s.reserve_frames_for_fill_ring(3, 3).unwrap();
    assert_eq!(frames, vec![7 * 4096, 6 * 4096, 5 * 4096]);
    assert_eq!(s.socket().free_frames().len(), 5);
    assert_eq!(s.read_frames(), 3);
}

#[test]
fn fill_reservation_larger_than_ring() {
    let mut s = stream(8, 4);
    let e = s.reserve_frames_for_fill_ring(4096, 4096).unwrap_err();
    assert_eq!(e, "Not enough space in fill_ring: max 2048 got 4096");
    assert_eq!(s.check_fill_reservation(4096).unwrap_err(), e);
    assert_eq!(s.socket().free_frames().len(), 8);
    assert_eq!(s.read_frames(), 0);
}

#[test]
fn fill_reservation_without_enough_frames() {
    let mut s = stream(8, 4);
    let e = s.reserve_frames_for_fill_ring(9, 9).unwrap_err();
    assert_eq!(e, "Not enough frames: max 8 got 9");
    assert_eq!(s.socket().free_frames().len(), 8);
}

#[test]
fn fill_reservation_refused_by_ring() {
    let mut s = stream(8, 4);
    let e = s.reserve_frames_for_fill_ring(2, 0).unwrap_err();
    assert_eq!(e, "error reserving prod ring of size 2, got 0");
    assert_eq!(s.socket().free_frames().len(), 8);
    assert_eq!(s.read_frames(), 0);
}

#[test]
fn tx_reservation() {
    let mut sock: XskSocketInfo = socket(8, 4).into_socket();
    let e = sock.reserve_frames_for_tx_ring(2, 1).unwrap_err();
    assert_eq!(e, "error reserving tx ring of size 2, got 1");
    assert!(sock.check_tx_reservation(2).is_ok());
    let frames = sock.reserve_frames_for_tx_ring(2, 2).unwrap();
    assert_eq!(frames, vec![7 * 4096, 6 * 4096]);
    assert_eq!(*sock.free_frames(), vec![0, 4096, 8192, 12288, 16384, 20480]);
    let mut small = socket(8, 4).with_tx_size(1).into_socket();
    assert_eq!(
        small.reserve_frames_for_tx_ring(2, 2).unwrap_err(),
        "Not enough space in fill_ring: max 1 got 2"
    );
}

#[test]
fn read_rejects_wrong_buffer_size() {
    let mut s = stream(8, 4);
    assert_eq!(
        s.begin_read(8).unwrap_err(),
        "expected 16 bytes as buf for poll_read, got 8"
    );
    assert_eq!(s.begin_read(16), Ok(None));
}

#[test]
fn fill_request_tops_up_to_a_batch() {
    let s = stream(8, 4);
    assert_eq!(s.fill_request(0), Some(4));
    let s = stream(3, 4);
    assert_eq!(s.fill_request(0), Some(3));
    let s = stream(0, 4);
    assert_eq!(s.fill_request(0), None);
    let mut s = stream(16, 4);
    s.reserve_frames_for_fill_ring(6, 6).unwrap();
    assert_eq!(s.read_frames(), 6);
    assert_eq!(s.fill_request(1), None);
    assert_eq!(s.fill_request(3), Some(4));
}

#[test]
fn refill_takes_what_the_ring_has_room_for() {
    let mut s = stream(8, 4);
    assert_eq!(s.refill(0), None);
    assert_eq!(s.refill(-1), None);
    assert_eq!(s.read_frames(), 0);
    let frames = s.refill(5).unwrap().unwrap();
    assert_eq!(frames.len(), 5);
    assert_eq!(frames[0], 7 * 4096);
    assert_eq!(s.read_frames(), 5);
    assert_eq!(*s.socket().free_frames(), vec![0, 4096, 8192]);
}

#[test]
fn refill_beyond_the_pool_is_a_logic_error() {
    let mut s = stream(2, 4);
    assert_eq!(
        s.refill(5).unwrap().unwrap_err(),
        "logical error, expected to pop 5 frames, poped only 2"
    );
    assert!(s.socket().free_frames().is_empty());
    assert_eq!(s.read_frames(), 0);
}

#[test]
fn rx_slots() {
    assert_eq!(XskStream::rx_desc_indices(10, 0), Vec::<u32>::new());
    assert_eq!(XskStream::rx_desc_indices(10, 1), vec![10]);
    assert_eq!(XskStream::rx_desc_indices(10, 4), vec![10, 10, 11, 12]);
}

#[test]
fn nothing_received_means_wait() {
    let mut s = stream(8, 4);
    s.refill(4).unwrap().unwrap();
    assert_eq!(s.complete_read(0, 9, vec![]), Ok(None));
    assert_eq!(s.read_frames(), 4);
    assert_eq!(s.pending_reads(), 0);
}

#[test]
fn receive_hands_out_first_and_buffers_rest() {
    let mut s = stream(8, 4);
    s.refill(4).unwrap().unwrap();
    let d0 = XdpDesc { addr: 4096, len: 60, options: 0 };
    let d1 = XdpDesc { addr: 8192, len: 64, options: 0 };
    let d2 = XdpDesc { addr: 0, len: 70, options: 0 };
    let first = s.complete_read(3, 20, vec![Some(d0), Some(d1), Some(d2)]).unwrap();
    assert_eq!(first, Some(d0));
    assert_eq!(s.read_frames(), 1);
    assert_eq!(s.pending_reads(), 2);
    // Buffered descriptors come out oldest first.
    assert_eq!(drain_reads(&mut s), vec![d1, d2]);
    assert_eq!(s.begin_read(16), Ok(None));
}

#[test]
fn receive_with_missing_first_descriptor() {
    let mut s = stream(8, 4);
    s.refill(4).unwrap().unwrap();
    let d = XdpDesc { addr: 1, len: 2, options: 0 };
    assert_eq!(
        s.complete_read(2, 7, vec![None, Some(d)]).unwrap_err(),
        "error getting addr by index 7"
    );
    assert_eq!(s.read_frames(), 4);
    assert_eq!(s.pending_reads(), 0);
}

#[test]
fn receive_with_missing_later_descriptor() {
    let mut s = stream(8, 4);
    s.refill(4).unwrap().unwrap();
    let d = XdpDesc { addr: 1, len: 2, options: 0 };
    assert_eq!(
        s.complete_read(4, 7, vec![Some(d), Some(d), None, Some(d)]).unwrap_err(),
        "error getting addr by index 8"
    );
    assert_eq!(s.read_frames(), 0);
    assert_eq!(drain_reads(&mut s), vec![d]);
}

#[test]
fn packet_from_read_buffer_and_clean() {
    let mut s = stream(2, 4);
    let taken = s.refill(1).unwrap().unwrap();
    let d = XdpDesc { addr: taken[0] | (14u64 << 48), len: 60, options: 0 };
    let bytes = d.to_bytes();
    let p = s.get_packet_by_addr_buf(&bytes);
    assert_eq!(p, XskPacket { orig: d.addr, addr: 4096 + 14, len: 60 });
    s.clean_packet(p);
    assert_eq!(*s.socket().free_frames(), vec![0, d.addr]);
    assert_eq!(s.read_frames(), 1);
}
