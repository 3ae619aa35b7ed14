//! Sockets over a UMEM and the decisions of the receive path.
//!
//! The rings themselves live in memory shared with the kernel and are driven
//! by the caller; the functions here decide what to ask of the rings, and
//! what to do with what the rings answered.
use vstd::prelude::*;
use std::collections::VecDeque;
use crate::decimal::{decimal, message_with_number, message_with_numbers};
use crate::defaults::{DEFAULT_BATCH_SIZE, DEFAULT_CONS_NUM_DESCS, DEFAULT_PROD_NUM_DESCS};
use crate::desc::{data_offset, desc_bytes, desc_from_bytes, add_offset_to_addr, lemma_desc_roundtrip, XdpDesc, DESC_SIZE};
use crate::umem::{after_pops, pop_order, Frame, XskUmemInfo};

verus! {

/// The settings with which a socket is created (the fields of libbpf's
/// `xsk_socket_config`).
#[derive(Clone, Copy, Debug, PartialEq, Eq, Structural)]
pub struct SocketConfig {
    pub rx_size: u32,
    pub tx_size: u32,
    pub libbpf_flags: u32,
    pub xdp_flags: u32,
    pub bind_flags: u16,
}

/// How long buffered writes may wait before they are flushed.
#[derive(Clone, Copy, Debug, PartialEq, Eq, Structural)]
pub struct WriteTimeout {
    pub secs: u64,
    pub nanos: u32,
}

/// A socket bound to one queue of one interface, and the UMEM it owns.
pub struct XskSocketInfo {
    rx_size: u32,
    tx_size: u32,
    umem_info: XskUmemInfo,
    rx_batch_size: u32,
    tx_batch_size: u32,
    ifname: String,
    if_queue_id: u32,
}

/// What a socket is: its ring and batch sizes, where it is bound, the
/// geometry of its UMEM and the stack of free frames.
#[verifier::ext_equal]
pub struct SocketView {
    pub rx_size: u32,
    pub tx_size: u32,
    pub rx_batch_size: u32,
    pub tx_batch_size: u32,
    pub ifname: Seq<char>,
    pub if_queue_id: u32,
    pub fill_size: u32,
    pub comp_size: u32,
    pub n_frames: u64,
    pub frame_size: u32,
    pub free: Seq<Frame>,
}

impl View for XskSocketInfo {
    type V = SocketView;

    closed spec fn view(&self) -> SocketView {
        SocketView {
            rx_size: self.rx_size,
            tx_size: self.tx_size,
            rx_batch_size: self.rx_batch_size,
            tx_batch_size: self.tx_batch_size,
            ifname: self.ifname@,
            if_queue_id: self.if_queue_id,
            fill_size: self.umem_info.fill_size,
            comp_size: self.umem_info.comp_size,
            n_frames: self.umem_info.n_frames,
            frame_size: self.umem_info.frame_size,
            free: self.umem_info.frames@,
        }
    }
}

/// Builder of a socket. The ring sizes recorded for the socket are always
/// the ones in the configuration it is created with.
pub struct XskSocketInfoBuilder {
    inner: XskSocketInfo,
    conf: SocketConfig,
    write_timeout: Option<WriteTimeout>,
}

/// What a socket builder holds: the socket to be, the configuration to
/// create it with, and the write timeout of its stream.
#[verifier::ext_equal]
pub struct BuilderView {
    pub socket: SocketView,
    pub conf: SocketConfig,
    pub write_timeout: Option<WriteTimeout>,
}

impl View for XskSocketInfoBuilder {
    type V = BuilderView;

    closed spec fn view(&self) -> BuilderView {
        BuilderView { socket: self.inner@, conf: self.conf, write_timeout: self.write_timeout }
    }
}

/// The producer rings into which user space hands frames to the kernel.
#[derive(Clone, Copy, Debug, PartialEq, Eq, Structural)]
pub enum ProducerRing {
    /// Frames offered to the kernel to receive into.
    Fill,
    /// Frames offered to the kernel to send.
    Tx,
}

/// Where a received packet lies: the descriptor address it came with
/// (`orig`, given back to the frame pool when the packet is done with), the
/// offset of its data in the UMEM, and its length.
#[derive(Clone, Copy, Debug, PartialEq, Eq, Structural)]
pub struct XskPacket {
    pub orig: u64,
    pub addr: u64,
    pub len: u32,
}

/// The receive-side state of a socket: descriptors already taken off the rx
/// ring but not yet handed to a reader, descriptors waiting to be written,
/// and the number of frames handed to the fill ring and not yet received.
pub struct XskStream {
    socket: XskSocketInfo,
    buf_read: VecDeque<XdpDesc>,
    buf_write: VecDeque<XdpDesc>,
    read_frames: u64,
    write_timeout: Option<WriteTimeout>,
}

/// What a stream is: its socket, the descriptors buffered for readers (oldest
/// first), those waiting to be written, the count of frames on the fill ring
/// not yet received, and the write timeout.
#[verifier::ext_equal]
pub struct StreamView {
    pub socket: SocketView,
    pub reads: Seq<XdpDesc>,
    pub writes: Seq<XdpDesc>,
    pub read_frames: u64,
    pub write_timeout: Option<WriteTimeout>,
}

impl View for XskStream {
    type V = StreamView;

    closed spec fn view(&self) -> StreamView {
        StreamView {
            socket: self.socket@,
            reads: self.buf_read@,
            writes: self.buf_write@,
            read_frames: self.read_frames,
            write_timeout: self.write_timeout,
        }
    }
}

/// Refusal of a reservation larger than the ring (the text names the fill ring for either ring).
pub open spec fn not_enough_space_msg(max: u32, got: u32) -> Seq<char> {
    "Not enough space in fill_ring: max "@ + decimal(max as nat) + " got "@ + decimal(got as nat)
}

/// Refusal of a reservation larger than the free stack.
pub open spec fn not_enough_frames_msg(max: nat, got: u32) -> Seq<char> {
    "Not enough frames: max "@ + decimal(max) + " got "@ + decimal(got as nat)
}

/// Error when the ring granted another number of entries than asked for.
pub open spec fn reserve_failed_msg(ring: ProducerRing, size: u32, got: u64) -> Seq<char> {
    match ring {
        ProducerRing::Fill => "error reserving prod ring of size "@ + decimal(size as nat) + ", got "@
            + decimal(got as nat),
        ProducerRing::Tx => "error reserving tx ring of size "@ + decimal(size as nat) + ", got "@
            + decimal(got as nat),
    }
}

/// Error when a reader's buffer is not exactly one descriptor long.
pub open spec fn bad_read_buffer_msg(got: usize) -> Seq<char> {
    "expected "@ + decimal(DESC_SIZE as nat) + " bytes as buf for poll_read, got "@ + decimal(got as nat)
}

/// Error when the fill ring has room for more frames than the free stack holds.
pub open spec fn pool_exhausted_msg(expected: i32, popped: nat) -> Seq<char> {
    "logical error, expected to pop "@ + decimal(expected as nat) + " frames, poped only "@
        + decimal(popped)
}

/// Error when the rx ring slot `idx` could not be read.
pub open spec fn bad_rx_index_msg(idx: u32) -> Seq<char> {
    "error getting addr by index "@ + decimal(idx as nat)
}

/// The packet designated by the descriptor whose byte image starts `b`.
pub open spec fn packet_of_bytes(b: Seq<u8>) -> XskPacket {
    let d = desc_from_bytes(b);
    XskPacket { orig: d.addr, addr: data_offset(d.addr) as u64, len: d.len }
}

/// The socket `s` with its free stack replaced by `free`.
pub open spec fn with_free(s: SocketView, free: Seq<Frame>) -> SocketView {
    SocketView { free, ..s }
}

/// How many frames one reservation on `ring` of socket `s` may ask for.
pub open spec fn ring_limit(s: SocketView, ring: ProducerRing) -> u32 {
    match ring {
        ProducerRing::Fill => s.fill_size,
        ProducerRing::Tx => s.tx_size,
    }
}

/// Why a reservation of `n` frames on `ring` of socket `s` is refused before
/// the ring is asked, if it is: more than the ring's size, or more than the
/// free frames (counted modulo 2^32).
pub open spec fn reservation_refusal(s: SocketView, ring: ProducerRing, n: u32) -> Option<Seq<char>> {
    if n > ring_limit(s, ring) {
        Some(not_enough_space_msg(ring_limit(s, ring), n))
    } else if n > (s.free.len() as u32) {
        Some(not_enough_frames_msg(s.free.len(), n))
    } else {
        None
    }
}

/// What a reservation of `n` frames on `ring` leaves of socket `s` and
/// returns, once the ring granted `reserved` entries: a refusal or a
/// mismatch changes nothing and gives its message; otherwise the `n` frames
/// on top of the free stack leave it, in the order they come off.
pub open spec fn reservation_outcome(s: SocketView, ring: ProducerRing, n: u32, reserved: u64)
    -> (SocketView, Result<Seq<Frame>, Seq<char>>)
{
    match reservation_refusal(s, ring, n) {
        Some(m) => (s, Err(m)),
        None => if reserved != n {
            (s, Err(reserve_failed_msg(ring, n, reserved)))
        } else {
            (with_free(s, after_pops(s.free, n as nat)), Ok(pop_order(s.free, n as nat)))
        },
    }
}

/// `r` is the executable form of the outcome `o`.
pub open spec fn result_matches(r: Result<Vec<Frame>, String>, o: Result<Seq<Frame>, Seq<char>>) -> bool {
    match (r, o) {
        (Ok(t), Ok(u)) => t@ == u,
        (Err(e), Err(m)) => e@ == m,
        _ => false,
    }
}

impl XskSocketInfo {
    /// Number of descriptors of the rx ring.
    pub fn rx_size(&self) -> (r: u32)
        ensures
            r == self@.rx_size,
    {
        self.rx_size
    }

    /// Number of descriptors of the tx ring.
    pub fn tx_size(&self) -> (r: u32)
        ensures
            r == self@.tx_size,
    {
        self.tx_size
    }

    /// How many descriptors one receive takes off the rx ring at most.
    pub fn rx_batch_size(&self) -> (r: u32)
        ensures
            r == self@.rx_batch_size,
    {
        self.rx_batch_size
    }

    /// How many descriptors one transmission puts on the tx ring at most.
    pub fn tx_batch_size(&self) -> (r: u32)
        ensures
            r == self@.tx_batch_size,
    {
        self.tx_batch_size
    }

    /// The interface the socket is bound to.
    pub fn ifname(&self) -> (r: &String)
        ensures
            r@ == self@.ifname,
    {
        &self.ifname
    }

    /// The queue of the interface the socket is bound to.
    pub fn if_queue_id(&self) -> (r: u32)
        ensures
            r == self@.if_queue_id,
    {
        self.if_queue_id
    }

    /// The stack of free frames, bottom first.
    pub fn free_frames(&self) -> (r: &Vec<Frame>)
        ensures
            r@ == self@.free,
    {
        &self.umem_info.frames
    }

    /// Checks a reservation of `n` frames on `ring` before the ring is asked.
    pub fn check_reservation(&self, ring: ProducerRing, n: u32) -> (r: Result<(), String>)
        ensures
            r is Ok <==> reservation_refusal(self@, ring, n) is None,
            r matches Err(e) ==> Some(e@) == reservation_refusal(self@, ring, n),
            ring == ProducerRing::Fill && n > self@.fill_size ==> (r matches Err(e)
                && e@ == not_enough_space_msg(self@.fill_size, n)),
            ring == ProducerRing::Tx && n > self@.tx_size ==> (r matches Err(e)
                && e@ == not_enough_space_msg(self@.tx_size, n)),
            self@.free.len() <= u32::MAX && n <= self@.free.len()
                && (ring == ProducerRing::Fill ==> n <= self@.fill_size)
                && (ring == ProducerRing::Tx ==> n <= self@.tx_size) ==> r is Ok,
    {
        let limit = match ring {
            ProducerRing::Fill => self.umem_info.fill_size,
            ProducerRing::Tx => self.tx_size,
        };
        if n > limit {
            return Err(message_with_numbers("Not enough space in fill_ring: max ", limit as u64,
                " got ", n as u64));
        }
        let free = self.umem_info.frames.len();
        if n > free as u32 {
            return Err(message_with_numbers("Not enough frames: max ", free as u64, " got ",
                n as u64));
        }
        Ok(())
    }

    /// Completes a reservation of `n` frames on `ring`, given the number of
    /// entries that the ring granted (`reserved`); see `reservation_outcome`.
    /// The frames returned are to be written into the ring's slots in order.
    pub fn reserve_frames(&mut self, ring: ProducerRing, n: u32, reserved: u64)
        -> (r: Result<Vec<Frame>, String>)
        ensures
            final(self)@ == reservation_outcome(old(self)@, ring, n, reserved).0,
            result_matches(r, reservation_outcome(old(self)@, ring, n, reserved).1),
    {
        match self.check_reservation(ring, n) {
            Err(e) => return Err(e),
            Ok(()) => {},
        }
        if reserved != n as u64 {
            let msg = match ring {
                ProducerRing::Fill => message_with_numbers("error reserving prod ring of size ",
                    n as u64, ", got ", reserved),
                ProducerRing::Tx => message_with_numbers("error reserving tx ring of size ",
                    n as u64, ", got ", reserved),
            };
            return Err(msg);
        }
        let free = self.umem_info.frames.len();
        assert((free as u32) as usize <= free) by (bit_vector);
        let taken = self.umem_info.pop_frames(n as usize);
        assert(self@ =~= with_free(old(self)@, after_pops(old(self)@.free, n as nat)));
        Ok(taken)
    }

    /// Checks a reservation of `n` frames on the fill ring.
    pub fn check_fill_reservation(&self, n: u32) -> (r: Result<(), String>)
        ensures
            r is Ok <==> reservation_refusal(self@, ProducerRing::Fill, n) is None,
            r matches Err(e) ==> Some(e@) == reservation_refusal(self@, ProducerRing::Fill, n),
    {
        self.check_reservation(ProducerRing::Fill, n)
    }

    /// Completes a reservation of `n` frames on the fill ring; see `reservation_outcome`.
    pub fn reserve_frames_for_fill_ring(&mut self, n: u32, reserved: u64)
        -> (r: Result<Vec<Frame>, String>)
        ensures
            final(self)@ == reservation_outcome(old(self)@, ProducerRing::Fill, n, reserved).0,
            result_matches(r, reservation_outcome(old(self)@, ProducerRing::Fill, n, reserved).1),
    {
        self.reserve_frames(ProducerRing::Fill, n, reserved)
    }

    /// Checks a reservation of `n` frames on the tx ring.
    pub fn check_tx_reservation(&self, n: u32) -> (r: Result<(), String>)
        ensures
            r is Ok <==> reservation_refusal(self@, ProducerRing::Tx, n) is None,
            r matches Err(e) ==> Some(e@) == reservation_refusal(self@, ProducerRing::Tx, n),
    {
        self.check_reservation(ProducerRing::Tx, n)
    }

    /// Completes a reservation of `n` frames on the tx ring; see `reservation_outcome`.
    pub fn reserve_frames_for_tx_ring(&mut self, n: u32, reserved: u64)
        -> (r: Result<Vec<Frame>, String>)
        ensures
            final(self)@ == reservation_outcome(old(self)@, ProducerRing::Tx, n, reserved).0,
            result_matches(r, reservation_outcome(old(self)@, ProducerRing::Tx, n, reserved).1),
    {
        self.reserve_frames(ProducerRing::Tx, n, reserved)
    }
}

/// The socket settings a new builder starts from.
pub open spec fn default_socket_config() -> SocketConfig {
    SocketConfig {
        rx_size: DEFAULT_CONS_NUM_DESCS,
        tx_size: DEFAULT_PROD_NUM_DESCS,
        libbpf_flags: 0,
        xdp_flags: 0,
        bind_flags: 0,
    }
}

impl XskSocketInfoBuilder {
    /// The ring sizes recorded for the socket are those of the configuration.
    #[verifier::type_invariant]
    spec fn sizes_agree(&self) -> bool {
        &&& self.inner.rx_size == self.conf.rx_size
        &&& self.inner.tx_size == self.conf.tx_size
    }

    /// A builder for a socket on queue `if_queue_id` of interface `ifname`,
    /// over `umem_info`, with the default ring and batch sizes.
    pub fn new(umem_info: XskUmemInfo, ifname: String, if_queue_id: u32) -> (b: Self)
        ensures
            b@ == (BuilderView {
                socket: SocketView {
                    rx_size: DEFAULT_CONS_NUM_DESCS,
                    tx_size: DEFAULT_PROD_NUM_DESCS,
                    rx_batch_size: DEFAULT_BATCH_SIZE,
                    tx_batch_size: DEFAULT_BATCH_SIZE,
                    ifname: ifname@,
                    if_queue_id,
                    fill_size: umem_info.fill_size,
                    comp_size: umem_info.comp_size,
                    n_frames: umem_info.n_frames,
                    frame_size: umem_info.frame_size,
                    free: umem_info.frames@,
                },
                conf: default_socket_config(),
                write_timeout: None,
            }),
    {
        XskSocketInfoBuilder {
            inner: XskSocketInfo {
                rx_size: DEFAULT_CONS_NUM_DESCS,
                tx_size: DEFAULT_PROD_NUM_DESCS,
                umem_info,
                rx_batch_size: DEFAULT_BATCH_SIZE,
                tx_batch_size: DEFAULT_BATCH_SIZE,
                ifname,
                if_queue_id,
            },
            conf: SocketConfig {
                rx_size: DEFAULT_CONS_NUM_DESCS,
                tx_size: DEFAULT_PROD_NUM_DESCS,
                libbpf_flags: 0,
                xdp_flags: 0,
                bind_flags: 0,
            },
            write_timeout: None,
        }
    }

    /// The socket to be created.
    pub fn socket(&self) -> (r: &XskSocketInfo)
        ensures
            r@ == self@.socket,
    {
        &self.inner
    }

    /// The configuration the socket is to be created with; its ring sizes
    /// are those recorded for the socket.
    pub fn config(&self) -> (c: SocketConfig)
        ensures
            c == self@.conf,
            c.rx_size == self@.socket.rx_size,
            c.tx_size == self@.socket.tx_size,
    {
        proof { use_type_invariant(self); }
        self.conf
    }

    /// The write timeout of the stream to be.
    pub fn write_timeout(&self) -> (t: Option<WriteTimeout>)
        ensures
            t == self@.write_timeout,
    {
        self.write_timeout
    }

    /// The socket, once it has been created with the configuration.
    pub fn into_socket(self) -> (s: XskSocketInfo)
        ensures
            s@ == self@.socket,
    {
        self.inner
    }

    /// Sets the number of descriptors of the rx ring.
    pub fn with_rx_size(self, size: u32) -> (b: Self)
        ensures
            b@ == (BuilderView {
                socket: SocketView { rx_size: size, ..self@.socket },
                conf: SocketConfig { rx_size: size, ..self@.conf },
                ..self@
            }),
    {
        proof { use_type_invariant(&self); }
        let XskSocketInfoBuilder { inner, conf, write_timeout } = self;
        let mut inner = inner;
        inner.rx_size = size;
        XskSocketInfoBuilder { inner, conf: SocketConfig { rx_size: size, ..conf }, write_timeout }
    }

    /// Sets how many descriptors one receive takes off the rx ring at most.
    pub fn with_rx_batch_size(self, size: u32) -> (b: Self)
        ensures
            b@ == (BuilderView { socket: SocketView { rx_batch_size: size, ..self@.socket }, ..self@ }),
    {
        proof { use_type_invariant(&self); }
        let mut b = self;
        b.inner.rx_batch_size = size;
        b
    }

    /// Sets how many descriptors one transmission puts on the tx ring at most.
    pub fn with_tx_batch_size(self, size: u32) -> (b: Self)
        ensures
            b@ == (BuilderView { socket: SocketView { tx_batch_size: size, ..self@.socket }, ..self@ }),
    {
        proof { use_type_invariant(&self); }
        let mut b = self;
        b.inner.tx_batch_size = size;
        b
    }

    /// Sets the number of descriptors of the tx ring.
    pub fn with_tx_size(self, size: u32) -> (b: Self)
        ensures
            b@ == (BuilderView {
                socket: SocketView { tx_size: size, ..self@.socket },
                conf: SocketConfig { tx_size: size, ..self@.conf },
                ..self@
            }),
    {
        proof { use_type_invariant(&self); }
        let XskSocketInfoBuilder { inner, conf, write_timeout } = self;
        let mut inner = inner;
        inner.tx_size = size;
        XskSocketInfoBuilder { inner, conf: SocketConfig { tx_size: size, ..conf }, write_timeout }
    }

    /// Adds `flag` to the libbpf flags.
    pub fn with_libbpf_flag(self, flag: u32) -> (b: Self)
        ensures
            b@ == (BuilderView {
                conf: SocketConfig { libbpf_flags: self@.conf.libbpf_flags | flag, ..self@.conf },
                ..self@
            }),
    {
        proof { use_type_invariant(&self); }
        let mut b = self;
        b.conf.libbpf_flags = b.conf.libbpf_flags | flag;
        b
    }

    /// Adds `flag` to the XDP attach flags.
    pub fn with_xdp_flag(self, flag: u32) -> (b: Self)
        ensures
            b@ == (BuilderView {
                conf: SocketConfig { xdp_flags: self@.conf.xdp_flags | flag, ..self@.conf },
                ..self@
            }),
    {
        proof { use_type_invariant(&self); }
        let mut b = self;
        b.conf.xdp_flags = b.conf.xdp_flags | flag;
        b
    }

    /// Adds `flag` to the bind flags.
    pub fn with_bind_flag(self, flag: u16) -> (b: Self)
        ensures
            b@ == (BuilderView {
                conf: SocketConfig { bind_flags: self@.conf.bind_flags | flag, ..self@.conf },
                ..self@
            }),
    {
        proof { use_type_invariant(&self); }
        let mut b = self;
        b.conf.bind_flags = b.conf.bind_flags | flag;
        b
    }

    /// Sets the write timeout to `secs` seconds and `nanos` nanoseconds.
    pub fn with_write_timeout(self, secs: u64, nanos: u32) -> (b: Self)
        ensures
            b@ == (BuilderView { write_timeout: Some(WriteTimeout { secs, nanos }), ..self@ }),
    {
        proof { use_type_invariant(&self); }
        let mut b = self;
        b.write_timeout = Some(WriteTimeout { secs, nanos });
        b
    }
}

/// The rx ring slots from which a receive of descriptors starting at slot
/// `rx_index` takes them: the first descriptor comes from `rx_index`, and the
/// buffered ones from `rx_index`, `rx_index + 1`, ...
pub open spec fn rx_slot(rx_index: u32, k: int) -> int {
    if k == 0 { rx_index as int } else { rx_index + k - 1 }
}

/// The descriptors of `s`, which are all present.
pub open spec fn present_descs(s: Seq<Option<XdpDesc>>) -> Seq<XdpDesc> {
    s.map_values(|o: Option<XdpDesc>| o.unwrap())
}

/// The stream `s` with the free stack of its socket replaced by `free`.
pub open spec fn stream_with_free(s: StreamView, free: Seq<Frame>) -> StreamView {
    StreamView { socket: with_free(s.socket, free), ..s }
}

/// How many frames the fill ring is to be topped up with at most, once
/// `n_rcv` descriptors have been seen on the rx ring: frames may be spared
/// when more are free than writes wait, and fewer than a batch remain on
/// the fill ring; then at most a batch of the spare frames is offered.
pub open spec fn fill_need(s: StreamView, n_rcv: u64) -> Option<u32> {
    let free = s.socket.free.len();
    let pending = s.writes.len();
    if pending < free && s.read_frames - n_rcv < s.socket.rx_batch_size {
        if free - pending < s.socket.rx_batch_size {
            Some((free - pending) as u32)
        } else {
            Some(s.socket.rx_batch_size)
        }
    } else {
        None
    }
}

impl XskStream {
    /// The stream state once a socket is up: nothing buffered, no frame on the fill ring.
    pub fn new(socket: XskSocketInfo, write_timeout: Option<WriteTimeout>) -> (s: Self)
        ensures
            s@ == (StreamView {
                socket: socket@,
                reads: Seq::empty(),
                writes: Seq::empty(),
                read_frames: 0,
                write_timeout,
            }),
    {
        let buf_read = VecDeque::with_capacity(socket.rx_batch_size as usize);
        let buf_write = VecDeque::with_capacity(socket.tx_batch_size as usize);
        let s = XskStream { socket, buf_read, buf_write, read_frames: 0, write_timeout };
        assert(s@ =~= StreamView {
            socket: socket@,
            reads: Seq::empty(),
            writes: Seq::empty(),
            read_frames: 0,
            write_timeout,
        });
        s
    }

    /// The socket of the stream.
    pub fn socket(&self) -> (r: &XskSocketInfo)
        ensures
            r@ == self@.socket,
    {
        &self.socket
    }

    /// Number of frames handed to the fill ring and not yet received.
    pub fn read_frames(&self) -> (r: u64)
        ensures
            r == self@.read_frames,
    {
        self.read_frames
    }

    /// Number of descriptors buffered for readers.
    pub fn pending_reads(&self) -> (r: usize)
        ensures
            r == self@.reads.len(),
    {
        self.buf_read.len()
    }

    /// Number of descriptors waiting to be written.
    pub fn pending_writes(&self) -> (r: usize)
        ensures
            r == self@.writes.len(),
    {
        self.buf_write.len()
    }

    /// The write timeout of the stream.
    pub fn write_timeout(&self) -> (t: Option<WriteTimeout>)
        ensures
            t == self@.write_timeout,
    {
        self.write_timeout
    }

    /// The number of bytes a reader's buffer must have: one descriptor.
    pub fn get_buf_size(&self) -> (r: usize)
        ensures
            r == DESC_SIZE,
    {
        DESC_SIZE
    }

    /// First step of a read into a buffer of `buf_len` bytes: a buffer of the
    /// wrong size is refused; otherwise the oldest buffered descriptor, if
    /// there is one, is handed out (`Some`), and `None` says that the rx ring
    /// must be consulted.
    pub fn begin_read(&mut self, buf_len: usize) -> (r: Result<Option<XdpDesc>, String>)
        ensures
            buf_len != DESC_SIZE ==> (r matches Err(e) && e@ == bad_read_buffer_msg(buf_len)
                && final(self)@ == old(self)@),
            buf_len == DESC_SIZE && old(self)@.reads.len() > 0 ==> (r matches Ok(Some(d))
                && d == old(self)@.reads[0]
                && final(self)@ == (StreamView { reads: old(self)@.reads.drop_first(), ..old(self)@ })),
            buf_len == DESC_SIZE && old(self)@.reads.len() == 0 ==> (r matches Ok(None)
                && final(self)@ == old(self)@),
    {
        if buf_len != DESC_SIZE {
            return Err(message_with_numbers("expected ", DESC_SIZE as u64,
                " bytes as buf for poll_read, got ", buf_len as u64));
        }
        let r = match self.buf_read.pop_front() {
            Some(d) => Ok(Some(d)),
            None => Ok(None),
        };
        proof {
            if old(self)@.reads.len() > 0 {
                assert(self@ =~= StreamView { reads: old(self)@.reads.drop_first(), ..old(self)@ });
            } else {
                assert(self@ =~= old(self)@);
            }
        }
        r
    }

    /// Decides whether, and with how many frames at most, the fill ring is to
    /// be topped up after `n_rcv` descriptors were seen on the rx ring.
    pub fn fill_request(&self, n_rcv: u64) -> (r: Option<u32>)
        requires
            self@.writes.len() < self@.socket.free.len() ==> n_rcv <= self@.read_frames,
        ensures
            r == fill_need(self@, n_rcv),
            self@.read_frames - n_rcv >= self@.socket.rx_batch_size ==> r is None,
            self@.writes.len() >= self@.socket.free.len() ==> r is None,
            r matches Some(k) ==> 0 < k <= self@.socket.rx_batch_size
                && k <= self@.socket.free.len() - self@.writes.len()
                && (k == self@.socket.rx_batch_size || k == self@.socket.free.len() - self@.writes.len()),
    {
        let n_free_frames = self.socket.umem_info.frames.len();
        let pending = self.buf_write.len();
        if pending < n_free_frames && self.read_frames - n_rcv < self.socket.rx_batch_size as u64 {
            let n_fill_frames = n_free_frames - pending;
            if n_fill_frames < self.socket.rx_batch_size as usize {
                Some(n_fill_frames as u32)
            } else {
                Some(self.socket.rx_batch_size)
            }
        } else {
            None
        }
    }

    /// Takes frames off the free stack for the fill ring, once the ring said
    /// it has room for `to_reserve` of them. `None`: the ring is left alone.
    /// `Some`: `to_reserve` entries are to be reserved on the ring, and then
    /// either the frames are written into them and submitted (`Ok`) or, when
    /// the stack holds fewer frames, the read fails with a logic error; the
    /// stack is emptied then.
    pub fn refill(&mut self, to_reserve: i32) -> (r: Option<Result<Vec<Frame>, String>>)
        requires
            0 < to_reserve <= old(self)@.socket.free.len()
                ==> old(self)@.read_frames + to_reserve <= u64::MAX,
        ensures
            to_reserve <= 0 ==> (r is None && final(self)@ == old(self)@),
            0 < to_reserve <= old(self)@.socket.free.len() ==> (r matches Some(Ok(t))
                && t@ == pop_order(old(self)@.socket.free, to_reserve as nat)
                && final(self)@ == (StreamView {
                    socket: with_free(old(self)@.socket, after_pops(old(self)@.socket.free, to_reserve as nat)),
                    read_frames: (old(self)@.read_frames + to_reserve) as u64,
                    ..old(self)@
                })),
            to_reserve > 0 && to_reserve > old(self)@.socket.free.len() ==> (r matches Some(Err(e))
                && e@ == pool_exhausted_msg(to_reserve, old(self)@.socket.free.len())
                && final(self)@ == stream_with_free(old(self)@, Seq::empty())),
    {
        if to_reserve <= 0 {
            return None;
        }
        let free = self.socket.umem_info.frames.len();
        if (to_reserve as u64) > (free as u64) {
            let _lost = self.socket.umem_info.pop_frames(free);
            assert(self@ =~= stream_with_free(old(self)@, Seq::empty()));
            return Some(Err(message_with_numbers("logical error, expected to pop ", to_reserve as u64,
                " frames, poped only ", free as u64)));
        }
        let taken = self.socket.umem_info.pop_frames(to_reserve as usize);
        self.read_frames = self.read_frames + to_reserve as u64;
        assert(self@ =~= StreamView {
            socket: with_free(old(self)@.socket, after_pops(old(self)@.socket.free, to_reserve as nat)),
            read_frames: (old(self)@.read_frames + to_reserve) as u64,
            ..old(self)@
        });
        Some(Ok(taken))
    }

    /// The rx ring slots to read for a receive of `n_rcv` descriptors that
    /// starts at slot `rx_index`; see `rx_slot`.
    pub fn rx_desc_indices(rx_index: u32, n_rcv: u64) -> (r: Vec<u32>)
        requires
            n_rcv >= 1 ==> rx_index + n_rcv - 1 <= u32::MAX,
            n_rcv <= usize::MAX,
        ensures
            r@.len() == n_rcv,
            forall|k: int| 0 <= k < n_rcv ==> r@[k] == rx_slot(rx_index, k),
            n_rcv >= 1 ==> r@[0] == rx_index,
            n_rcv >= 2 ==> r@[1] == rx_index,
            forall|k: int| 1 <= k < n_rcv - 1 ==> r@[k + 1] == #[trigger] r@[k] + 1,
    {
        let n = n_rcv as usize;
        let mut r: Vec<u32> = Vec::new();
        if n == 0 {
            return r;
        }
        r.push(rx_index);
        let mut k: usize = 1;
        while k < n
            invariant
                1 <= k <= n,
                n == n_rcv,
                rx_index + n_rcv - 1 <= u32::MAX,
                r@.len() == k,
                forall|j: int| 0 <= j < k ==> r@[j] == rx_slot(rx_index, j),
            decreases n - k,
        {
            r.push(rx_index + (k - 1) as u32);
            k = k + 1;
        }
        assert(r@[0] == rx_slot(rx_index, 0));
        assert(n >= 2 ==> r@[1] == rx_slot(rx_index, 1));
        assert forall|k: int| 1 <= k < n_rcv - 1 implies r@[k + 1] == #[trigger] r@[k] + 1 by {
            assert(r@[k + 1] == rx_slot(rx_index, k + 1));
            assert(r@[k] == rx_slot(rx_index, k));
        }
        r
    }

    /// Last step of a read that saw `n_rcv` descriptors on the rx ring from
    /// slot `rx_index` on: `descs[k]` is what the slot `rx_slot(rx_index, k)`
    /// held (`None` where it could not be read). When nothing was seen the
    /// reader is to wait for the socket to become readable again (`Ok(None)`).
    /// Otherwise the first descriptor is handed to the reader and the others
    /// are buffered in order, and the received frames no longer count as on
    /// the fill ring. A missing descriptor stops this with an error naming
    /// its slot, keeping what was buffered before it.
    pub fn complete_read(&mut self, n_rcv: u64, rx_index: u32, descs: Vec<Option<XdpDesc>>)
        -> (r: Result<Option<XdpDesc>, String>)
        requires
            descs@.len() == n_rcv,
            n_rcv >= 1 ==> rx_index + n_rcv - 1 <= u32::MAX,
            n_rcv >= 1 && descs@[0] is Some ==> n_rcv <= old(self)@.read_frames,
        ensures
            n_rcv == 0 ==> (r matches Ok(None) && final(self)@ == old(self)@),
            n_rcv >= 1 && descs@[0] is None ==> (r matches Err(e) && e@ == bad_rx_index_msg(rx_index)
                && final(self)@ == old(self)@),
            n_rcv >= 1 && descs@[0] is Some
                && (forall|k: int| 1 <= k < n_rcv ==> #[trigger] descs@[k] is Some)
                ==> (r matches Ok(Some(d)) && d == descs@[0].unwrap()
                && final(self)@ == (StreamView {
                    reads: old(self)@.reads + present_descs(descs@.subrange(1, n_rcv as int)),
                    read_frames: (old(self)@.read_frames - n_rcv) as u64,
                    ..old(self)@
                })),
            forall|j: int| #![trigger descs@[j]] 1 <= j < n_rcv && descs@[0] is Some && descs@[j] is None
                && (forall|k: int| 1 <= k < j ==> #[trigger] descs@[k] is Some)
                ==> (r matches Err(e) && e@ == bad_rx_index_msg((rx_index + j - 1) as u32)
                && final(self)@ == (StreamView {
                    reads: old(self)@.reads + present_descs(descs@.subrange(1, j)),
                    read_frames: (old(self)@.read_frames - n_rcv) as u64,
                    ..old(self)@
                })),
    {
        let n = descs.len();
        if n == 0 {
            return Ok(None);
        }
        let first = match descs[0] {
            None => {
                return Err(message_with_number("error getting addr by index ", rx_index as u64));
            },
            Some(d) => d,
        };
        self.read_frames = self.read_frames - n_rcv;
        let ghost q0 = self.buf_read@;
        let mut k: usize = 1;
        let mut idx: u32 = rx_index;
        while k < n
            invariant
                1 <= k <= n,
                n == n_rcv,
                n == descs@.len(),
                descs@[0] == Some(first),
                rx_index + n_rcv - 1 <= u32::MAX,
                idx == rx_index + k - 1,
                forall|j: int| 1 <= j < k ==> #[trigger] descs@[j] is Some,
                q0 == old(self)@.reads,
                self.buf_read@ == q0 + present_descs(descs@.subrange(1, k as int)),
                self.socket@ == old(self)@.socket,
                self.buf_write@ == old(self)@.writes,
                self.write_timeout == old(self)@.write_timeout,
                self.read_frames == old(self)@.read_frames - n_rcv,
            decreases n - k,
        {
            match descs[k] {
                None => {
                    proof {
                        assert forall|j: int| #![trigger descs@[j]] 1 <= j < n_rcv && descs@[j] is None
                            && (forall|i: int| 1 <= i < j ==> #[trigger] descs@[i] is Some)
                            implies j == k by {
                            if j > k {
                                assert(descs@[k as int] is Some);
                            }
                        }
                        assert(self@ =~= StreamView {
                            reads: old(self)@.reads + present_descs(descs@.subrange(1, k as int)),
                            read_frames: (old(self)@.read_frames - n_rcv) as u64,
                            ..old(self)@
                        });
                    }
                    return Err(message_with_number("error getting addr by index ", idx as u64));
                },
                Some(d) => {
                    self.buf_read.push_back(d);
                    assert(descs@.subrange(1, k + 1) =~= descs@.subrange(1, k as int).push(descs@[k as int]));
                    assert(present_descs(descs@.subrange(1, k + 1)) =~= present_descs(descs@.subrange(1, k as int)).push(d));
                },
            }
            idx = idx + 1;
            k = k + 1;
        }
        assert(self@ =~= StreamView {
            reads: old(self)@.reads + present_descs(descs@.subrange(1, n_rcv as int)),
            read_frames: (old(self)@.read_frames - n_rcv) as u64,
            ..old(self)@
        });
        Ok(Some(first))
    }

    /// Checks a reservation of `nr_frames` frames on the fill ring.
    pub fn check_fill_reservation(&self, nr_frames: u32) -> (r: Result<(), String>)
        ensures
            r is Ok <==> reservation_refusal(self@.socket, ProducerRing::Fill, nr_frames) is None,
            r matches Err(e) ==> Some(e@) == reservation_refusal(self@.socket, ProducerRing::Fill, nr_frames),
    {
        self.socket.check_fill_reservation(nr_frames)
    }

    /// Completes a reservation of `nr_frames` frames on the fill ring, given
    /// what the ring granted; on success the frames count as on the fill ring.
    pub fn reserve_frames_for_fill_ring(&mut self, nr_frames: u32, reserved: u64)
        -> (r: Result<Vec<Frame>, String>)
        requires
            reservation_outcome(old(self)@.socket, ProducerRing::Fill, nr_frames, reserved).1 is Ok
                ==> old(self)@.read_frames + nr_frames <= u64::MAX,
        ensures
            final(self)@ == (StreamView {
                socket: reservation_outcome(old(self)@.socket, ProducerRing::Fill, nr_frames, reserved).0,
                read_frames: if r is Ok { (old(self)@.read_frames + nr_frames) as u64 } else {
                    old(self)@.read_frames },
                ..old(self)@
            }),
            result_matches(r, reservation_outcome(old(self)@.socket, ProducerRing::Fill, nr_frames, reserved).1),
    {
        let r = self.socket.reserve_frames_for_fill_ring(nr_frames, reserved);
        if r.is_ok() {
            self.read_frames = self.read_frames + nr_frames as u64;
        }
        assert(self@ =~= StreamView {
            socket: reservation_outcome(old(self)@.socket, ProducerRing::Fill, nr_frames, reserved).0,
            read_frames: if r is Ok { (old(self)@.read_frames + nr_frames) as u64 } else {
                old(self)@.read_frames },
            ..old(self)@
        });
        r
    }

    /// The packet designated by the descriptor whose byte image starts `buf`.
    pub fn get_packet_by_addr_buf(&self, buf: &[u8]) -> (p: XskPacket)
        requires
            buf@.len() >= DESC_SIZE,
        ensures
            p == packet_of_bytes(buf@),
    {
        let d = XdpDesc::from_bytes(buf);
        let addr = add_offset_to_addr(d.addr);
        XskPacket { orig: d.addr, addr, len: d.len }
    }

    /// Gives the frame of a packet that is done with back to the free stack.
    pub fn clean_packet(&mut self, packet: XskPacket)
        ensures
            final(self)@ == stream_with_free(old(self)@, old(self)@.socket.free.push(packet.orig)),
    {
        self.socket.umem_info.push_frame(packet.orig);
        assert(self@ =~= stream_with_free(old(self)@, old(self)@.socket.free.push(packet.orig)));
    }
}

/// A descriptor handed to a reader comes back, from the reader's buffer, as
/// the packet it designates: same address to give back, same length.
pub proof fn lemma_read_desc_gives_packet(d: XdpDesc)
    ensures
        packet_of_bytes(desc_bytes(d)) == (XskPacket {
            orig: d.addr,
            addr: data_offset(d.addr) as u64,
            len: d.len,
        }),
{
    lemma_desc_roundtrip(d);
}

/// A fill-ring reservation is refused for want of ring space exactly when it
/// asks for more frames than the UMEM's fill ring holds (the rx ring's size
/// plays no part); a tx-ring reservation likewise against the tx ring. A
/// refusal leaves the socket as it was.
pub proof fn lemma_reservation_ring_space(s: SocketView, ring: ProducerRing, n: u32, reserved: u64)
    ensures
        ring == ProducerRing::Fill && n > s.fill_size ==> (
            reservation_outcome(s, ring, n, reserved).1 == Err::<Seq<Frame>, Seq<char>>(
                not_enough_space_msg(s.fill_size, n))
            && reservation_outcome(s, ring, n, reserved).0 == s),
        ring == ProducerRing::Tx && n > s.tx_size ==> (
            reservation_outcome(s, ring, n, reserved).1 == Err::<Seq<Frame>, Seq<char>>(
                not_enough_space_msg(s.tx_size, n))
            && reservation_outcome(s, ring, n, reserved).0 == s),
        ring == ProducerRing::Fill && n <= s.fill_size ==> !(reservation_outcome(s, ring, n, reserved).1
            == Err::<Seq<Frame>, Seq<char>>(not_enough_space_msg(s.fill_size, n))),
{
    if ring == ProducerRing::Fill && n <= s.fill_size {
        let o = reservation_outcome(s, ring, n, reserved).1;
        if o == Err::<Seq<Frame>, Seq<char>>(not_enough_space_msg(s.fill_size, n)) {
            lemma_messages_differ(s.fill_size, n, s.free.len(), ring, reserved);
        }
    }
}

/// The refusal for want of ring space is told apart from the other errors
/// by its text.
proof fn lemma_messages_differ(max: u32, n: u32, free: nat, ring: ProducerRing, reserved: u64)
    ensures
        not_enough_space_msg(max, n) != not_enough_frames_msg(free, n),
        not_enough_space_msg(max, n) != reserve_failed_msg(ring, n, reserved),
{
    reveal_strlit("Not enough space in fill_ring: max ");
    reveal_strlit("Not enough frames: max ");
    reveal_strlit("error reserving prod ring of size ");
    reveal_strlit("error reserving tx ring of size ");
    assert(not_enough_space_msg(max, n)[4] == 'e');
    assert(not_enough_frames_msg(free, n)[4] == 'e');
    assert(not_enough_space_msg(max, n)[11] == 's');
    assert(not_enough_frames_msg(free, n)[11] == 'f');
    assert(reserve_failed_msg(ring, n, reserved)[0] == 'e');
    assert(not_enough_space_msg(max, n)[0] == 'N');
}

/// A reservation of at most as many frames as the ring holds and as are
/// free, granted in full by the ring, succeeds: exactly `n` frames come out,
/// the top of the free stack first, and the frames below them stay free.
/// In particular a reservation of the whole ring, or of every free frame, is
/// accepted.
pub proof fn lemma_reservation_within_limits_succeeds(s: SocketView, ring: ProducerRing, n: u32)
    requires
        s.free.len() <= u32::MAX,
        n <= s.free.len(),
        ring == ProducerRing::Fill ==> n <= s.fill_size,
        ring == ProducerRing::Tx ==> n <= s.tx_size,
    ensures
        reservation_outcome(s, ring, n, n as u64).1 is Ok,
        reservation_outcome(s, ring, n, n as u64).1 matches Ok(t) && t.len() == n
            && forall|i: int| 0 <= i < n ==> #[trigger] t[i] == s.free[s.free.len() - 1 - i],
        reservation_outcome(s, ring, n, n as u64).0.free.len() == s.free.len() - n,
        forall|i: int| 0 <= i < s.free.len() - n
            ==> #[trigger] reservation_outcome(s, ring, n, n as u64).0.free[i] == s.free[i],
        reservation_outcome(s, ring, n, n as u64).0 == (SocketView {
            free: reservation_outcome(s, ring, n, n as u64).0.free,
            ..s
        }),
{
    let len = s.free.len();
    assert((len as u32) as nat == len);
}

/// A reservation within the ring's size is refused for want of frames
/// exactly when it asks for more frames than are free.
pub proof fn lemma_reservation_free_frames(s: SocketView, ring: ProducerRing, n: u32, reserved: u64)
    requires
        s.free.len() <= u32::MAX,
        ring == ProducerRing::Fill ==> n <= s.fill_size,
        ring == ProducerRing::Tx ==> n <= s.tx_size,
    ensures
        n > s.free.len() ==> (reservation_outcome(s, ring, n, reserved).1
            == Err::<Seq<Frame>, Seq<char>>(not_enough_frames_msg(s.free.len(), n))
            && reservation_outcome(s, ring, n, reserved).0 == s),
        n <= s.free.len() ==> !(reservation_outcome(s, ring, n, reserved).1
            == Err::<Seq<Frame>, Seq<char>>(not_enough_frames_msg(s.free.len(), n))),
{
    let len = s.free.len();
    assert((len as u32) as nat == len);
    if n <= len {
        reveal_strlit("Not enough frames: max ");
        reveal_strlit("error reserving prod ring of size ");
        reveal_strlit("error reserving tx ring of size ");
        assert(not_enough_frames_msg(len, n)[0] == 'N');
        assert(reserve_failed_msg(ring, n, reserved)[0] == 'e');
    }
}

/// The fill ring is topped up only while fewer than a batch of frames remain
/// on it after the received ones, and only when more frames are free than
/// writes wait; then it is offered the smaller of a batch and the spare
/// frames, which is at least one frame.
pub proof fn lemma_fill_need_offers_spare_frames(s: StreamView, n_rcv: u64)
    requires
        n_rcv <= s.read_frames,
    ensures
        s.read_frames - n_rcv >= s.socket.rx_batch_size ==> fill_need(s, n_rcv) is None,
        s.writes.len() >= s.socket.free.len() ==> fill_need(s, n_rcv) is None,
        s.read_frames - n_rcv < s.socket.rx_batch_size && s.writes.len() < s.socket.free.len() ==> (
            fill_need(s, n_rcv) matches Some(k)
            && 0 < k <= s.socket.rx_batch_size
            && k <= s.socket.free.len() - s.writes.len()
            && (k == s.socket.rx_batch_size || k == s.socket.free.len() - s.writes.len())),
{
}

/// The first descriptor of a receive is read from slot `rx_index`, and the
/// buffered ones from consecutive slots starting at `rx_index` again, one
/// slot each.
pub proof fn lemma_rx_slots_consecutive(rx_index: u32)
    ensures
        rx_slot(rx_index, 0) == rx_index,
        rx_slot(rx_index, 1) == rx_index,
        forall|k: int| k >= 1 ==> #[trigger] rx_slot(rx_index, k + 1) == rx_slot(rx_index, k) + 1,
        forall|j: int, k: int| 1 <= j < k ==> #[trigger] rx_slot(rx_index, j) != #[trigger] rx_slot(rx_index, k),
{
}

} // verus!
