# rust_af_xdp

Verified core of an AF_XDP socket library.

`src/` is verified with Verus and holds the library's decisions: UMEM and
socket configuration (ring and frame sizes must be powers of two), the layout
of the UMEM into frames, the stack of free frames and how reservations on the
fill and tx rings take frames from it, the byte image of a receive
descriptor, and each decision of the receive path (buffered descriptors,
topping up the fill ring, taking descriptors off the rx ring, returning
frames of consumed packets).

`app/` is plain Rust: it registers the UMEM and creates the socket through
libbpf, reads and writes the rings shared with the kernel, and plugs the
socket into tokio. It hands the ring's answers to the library and does what
the library decided; before each library call it tests the call's
precondition and panics, as arithmetic overflow would, where it fails.
