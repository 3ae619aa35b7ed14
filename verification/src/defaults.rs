use vstd::prelude::*;

verus! {

/// Number of frames in a freshly configured UMEM.
pub const DEFAULT_N_FRAMES: u64 = 4096;

/// Size in bytes of one UMEM frame (`XSK_UMEM__DEFAULT_FRAME_SIZE`).
pub const DEFAULT_FRAME_SIZE: u32 = 4096;

/// Headroom reserved in front of each frame (`XSK_UMEM__DEFAULT_FRAME_HEADROOM`).
pub const DEFAULT_HEADROOM: u32 = 0;

/// UMEM creation flags (`XSK_UMEM__DEFAULT_FLAGS`).
pub const DEFAULT_FLAGS: u32 = 0;

/// Number of descriptors handled in one receive or transmit batch.
pub const DEFAULT_BATCH_SIZE: u32 = 64;

/// Default number of descriptors of a consumer ring (`XSK_RING_CONS__DEFAULT_NUM_DESCS`).
pub const DEFAULT_CONS_NUM_DESCS: u32 = 2048;

/// Default number of descriptors of a producer ring (`XSK_RING_PROD__DEFAULT_NUM_DESCS`).
pub const DEFAULT_PROD_NUM_DESCS: u32 = 2048;

} // verus!
