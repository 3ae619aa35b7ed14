//! UMEM configuration and the pool of free frames.
use vstd::prelude::*;
use vstd::arithmetic::power2::is_pow2;
use vstd::arithmetic::mul::lemma_mul_inequality;
use vstd::arithmetic::mul::lemma_mul_strict_inequality;
use crate::defaults::{
    DEFAULT_CONS_NUM_DESCS, DEFAULT_FLAGS, DEFAULT_FRAME_SIZE, DEFAULT_HEADROOM, DEFAULT_N_FRAMES,
    DEFAULT_PROD_NUM_DESCS,
};

verus! {

/// Address of a frame: its byte offset inside the UMEM buffer.
pub type Frame = u64;

/// The settings with which a UMEM is registered with the kernel
/// (the fields of libbpf's `xsk_umem_config`).
#[derive(Clone, Copy, Debug, PartialEq, Eq, Structural)]
pub struct UmemConfig {
    pub fill_size: u32,
    pub comp_size: u32,
    pub frame_size: u32,
    pub frame_headroom: u32,
    pub flags: u32,
}

/// A registered UMEM as the library sees it: its ring sizes, its geometry and
/// the stack of frames that are currently free (owned by user space and not
/// handed to any ring).
pub struct XskUmemInfo {
    pub fill_size: u32,
    pub comp_size: u32,
    pub frames: Vec<Frame>,
    pub n_frames: u64,
    pub frame_size: u32,
}

/// Builder of a UMEM: the configuration to register and the number of frames.
/// The sizes in the configuration only change through the setters, which
/// hold them to powers of two.
pub struct XskUmemInfoBuilder {
    conf: UmemConfig,
    n_frames: u64,
}

/// The configuration a new builder starts from.
pub open spec fn default_umem_config() -> UmemConfig {
    UmemConfig {
        fill_size: DEFAULT_PROD_NUM_DESCS,
        comp_size: DEFAULT_CONS_NUM_DESCS,
        frame_size: DEFAULT_FRAME_SIZE,
        frame_headroom: DEFAULT_HEADROOM,
        flags: DEFAULT_FLAGS,
    }
}

/// The frame addresses of a UMEM of `n` frames of `frame_size` bytes, in
/// the order in which they are first placed on the free stack.
pub open spec fn frame_addresses(n: nat, frame_size: nat) -> Seq<Frame> {
    Seq::new(n, |i: int| (i * frame_size) as u64)
}

/// The frames that `n` pops take off the free stack `s`, in the order they come off.
pub open spec fn pop_order(s: Seq<Frame>, n: nat) -> Seq<Frame> {
    Seq::new(n, |i: int| s[s.len() - 1 - i])
}

/// The free stack `s` once `n` frames have been popped.
pub open spec fn after_pops(s: Seq<Frame>, n: nat) -> Seq<Frame> {
    s.subrange(0, s.len() - n)
}

/// For a nonzero `x`, clearing its lowest set bit leaves nothing exactly
/// when `x` is a power of two.
pub proof fn lemma_pow2_lowest_bit(x: u32)
    requires
        x > 0,
    ensures
        (x & ((x - 1) as u32) == 0) <==> is_pow2(x as int),
    decreases x,
{
    reveal(is_pow2);
    let xm1 = (x - 1) as u32;
    if x == 1 {
        assert(x & xm1 == 0) by (bit_vector)
            requires x == 1u32, xm1 == 0u32;
    } else if x % 2 == 1 {
        assert(x & xm1 != 0) by (bit_vector)
            requires x % 2 == 1, x > 1, xm1 == (x - 1) as u32;
    } else {
        let y = x / 2;
        let ym1 = (y - 1) as u32;
        assert((x & xm1 == 0) <==> (y & ym1 == 0)) by (bit_vector)
            requires x % 2 == 0, x > 1, y == x / 2, xm1 == (x - 1) as u32, ym1 == (y - 1) as u32;
        lemma_pow2_lowest_bit(y);
    }
}

/// Whether `size` passes the power-of-two test of the ring and frame sizes.
fn is_power_of_two(size: u32) -> (r: bool)
    requires
        size > 0,
    ensures
        r == is_pow2(size as int),
{
    proof { lemma_pow2_lowest_bit(size); }
    size & (size - 1) == 0
}

impl XskUmemInfoBuilder {
    /// The ring and frame sizes of the configuration are powers of two.
    #[verifier::type_invariant]
    spec fn sizes_are_powers_of_two(&self) -> bool {
        &&& is_pow2(self.conf.fill_size as int)
        &&& is_pow2(self.conf.comp_size as int)
        &&& is_pow2(self.conf.frame_size as int)
    }

    /// The configuration the UMEM will be registered with.
    pub closed spec fn spec_config(&self) -> UmemConfig {
        self.conf
    }

    /// The number of frames of the UMEM.
    pub closed spec fn spec_n_frames(&self) -> u64 {
        self.n_frames
    }

    /// The configuration the UMEM will be registered with.
    #[verifier::when_used_as_spec(spec_config)]
    pub fn config(&self) -> (c: UmemConfig)
        ensures
            c == self.spec_config(),
            is_pow2(c.fill_size as int),
            is_pow2(c.comp_size as int),
            is_pow2(c.frame_size as int),
    {
        proof { use_type_invariant(self); }
        self.conf
    }

    /// The number of frames of the UMEM.
    #[verifier::when_used_as_spec(spec_n_frames)]
    pub fn n_frames(&self) -> (n: u64)
        ensures
            n == self.spec_n_frames(),
    {
        self.n_frames
    }

    /// A builder with the default configuration and `DEFAULT_N_FRAMES` frames.
    pub fn new() -> (b: Self)
        ensures
            b.config() == default_umem_config(),
            b.n_frames() == DEFAULT_N_FRAMES,
    {
        proof { lemma_default_sizes_are_powers_of_two(); }
        XskUmemInfoBuilder {
            conf: UmemConfig {
                fill_size: DEFAULT_PROD_NUM_DESCS,
                comp_size: DEFAULT_CONS_NUM_DESCS,
                frame_size: DEFAULT_FRAME_SIZE,
                frame_headroom: DEFAULT_HEADROOM,
                flags: DEFAULT_FLAGS,
            },
            n_frames: DEFAULT_N_FRAMES,
        }
    }

    /// Sets the number of descriptors of the fill ring, which must be a power of two.
    pub fn with_fill_size(self, size: u32) -> (r: Result<Self, String>)
        requires
            size > 0,
        ensures
            r is Ok <==> is_pow2(size as int),
            r matches Ok(b) ==> b.n_frames() == self.n_frames()
                && b.config() == (UmemConfig { fill_size: size, ..self.config() }),
            r matches Err(e) ==> e@ == "fill size should be a multiple of 2"@,
    {
        if !is_power_of_two(size) {
            return Err(String::from_str("fill size should be a multiple of 2"));
        }
        proof { use_type_invariant(&self); }
        let mut b = self;
        b.conf.fill_size = size;
        Ok(b)
    }

    /// Sets the number of descriptors of the completion ring, which must be a power of two.
    pub fn with_comp_size(self, size: u32) -> (r: Result<Self, String>)
        requires
            size > 0,
        ensures
            r is Ok <==> is_pow2(size as int),
            r matches Ok(b) ==> b.n_frames() == self.n_frames()
                && b.config() == (UmemConfig { comp_size: size, ..self.config() }),
            r matches Err(e) ==> e@ == "comp size should be a multiple of 2"@,
    {
        if !is_power_of_two(size) {
            return Err(String::from_str("comp size should be a multiple of 2"));
        }
        proof { use_type_invariant(&self); }
        let mut b = self;
        b.conf.comp_size = size;
        Ok(b)
    }

    /// Sets the number of frames of the UMEM.
    pub fn with_n_frames(self, n_frames: u64) -> (b: Self)
        ensures
            b.config() == self.config(),
            b.n_frames() == n_frames,
    {
        proof { use_type_invariant(&self); }
        let mut b = self;
        b.n_frames = n_frames;
        b
    }

    /// Sets the size of one frame, which must be a power of two. The error
    /// message speaks of the completion ring.
    pub fn with_frame_size(self, size: u32) -> (r: Result<Self, String>)
        requires
            size > 0,
        ensures
            r is Ok <==> is_pow2(size as int),
            r matches Ok(b) ==> b.n_frames() == self.n_frames()
                && b.config() == (UmemConfig { frame_size: size, ..self.config() }),
            r matches Err(e) ==> e@ == "comp size should be a multiple of 2"@,
    {
        if !is_power_of_two(size) {
            return Err(String::from_str("comp size should be a multiple of 2"));
        }
        proof { use_type_invariant(&self); }
        let mut b = self;
        b.conf.frame_size = size;
        Ok(b)
    }

    /// Number of bytes of the buffer that backs the UMEM.
    pub fn buffer_size(&self) -> (r: u64)
        requires
            self.n_frames() * self.config().frame_size <= u64::MAX,
        ensures
            r == self.n_frames() * self.config().frame_size,
    {
        self.n_frames * (self.conf.frame_size as u64)
    }

    /// The UMEM once its buffer is registered: every frame is free, and the
    /// free stack holds the frame addresses in increasing order.
    pub fn into_info(self) -> (info: XskUmemInfo)
        requires
            self.n_frames() * self.config().frame_size <= u64::MAX,
            self.n_frames() <= usize::MAX,
        ensures
            info.fill_size == self.config().fill_size,
            info.comp_size == self.config().comp_size,
            info.n_frames == self.n_frames(),
            info.frame_size == self.config().frame_size,
            info.frames@ == frame_addresses(self.n_frames() as nat, self.config().frame_size as nat),
            is_pow2(info.frame_size as int),
            info.frame_size > 0,
            forall|i: int, j: int| 0 <= i < j < info.frames@.len()
                ==> #[trigger] info.frames@[i] + info.frame_size <= #[trigger] info.frames@[j],
            forall|i: int| 0 <= i < info.frames@.len()
                ==> #[trigger] info.frames@[i] + info.frame_size <= self.n_frames() * self.config().frame_size,
    {
        proof {
            use_type_invariant(&self);
            reveal(is_pow2);
        }
        let n = self.n_frames;
        let fs = self.conf.frame_size as u64;
        let mut frames: Vec<Frame> = Vec::new();
        let mut i: u64 = 0;
        while i < n
            invariant
                i <= n,
                n <= usize::MAX,
                n * fs <= u64::MAX,
                fs == self.conf.frame_size,
                frames@ == frame_addresses(i as nat, fs as nat),
            decreases n - i,
        {
            proof {
                lemma_mul_inequality(i as int, n as int, fs as int);
            }
            frames.push(i * fs);
            assert(frames@ =~= frame_addresses((i + 1) as nat, fs as nat));
            i = i + 1;
        }
        proof {
            let addrs = frame_addresses(n as nat, fs as nat);
            assert forall|i: int, j: int| 0 <= i < j < frames@.len()
                implies #[trigger] frames@[i] + fs <= #[trigger] frames@[j] by {
                lemma_frames_disjoint_in_buffer(n as nat, fs as nat, i, j);
            }
            assert forall|i: int| 0 <= i < frames@.len()
                implies #[trigger] frames@[i] + fs <= n * fs by {
                lemma_mul_inequality(i + 1, n as int, fs as int);
                assert((i + 1) * fs == i * fs + fs) by (nonlinear_arith);
            }
        }
        XskUmemInfo {
            fill_size: self.conf.fill_size,
            comp_size: self.conf.comp_size,
            frames,
            n_frames: n,
            frame_size: self.conf.frame_size,
        }
    }
}

/// Every frame of a UMEM lies wholly inside its buffer, and frames never
/// overlap: a frame that comes later in the initial free stack starts at or
/// after the end of an earlier one.
pub proof fn lemma_frames_disjoint_in_buffer(n: nat, frame_size: nat, i: int, j: int)
    requires
        n * frame_size <= u64::MAX,
        0 <= i < j < n,
    ensures
        frame_addresses(n, frame_size)[i] + frame_size <= frame_addresses(n, frame_size)[j],
        frame_addresses(n, frame_size)[j] + frame_size <= n * frame_size,
{
    lemma_mul_inequality(i + 1, j, frame_size as int);
    lemma_mul_inequality(j + 1, n as int, frame_size as int);
    lemma_mul_inequality(j, n as int, frame_size as int);
    assert((i + 1) * frame_size == i * frame_size + frame_size) by (nonlinear_arith);
    assert((j + 1) * frame_size == j * frame_size + frame_size) by (nonlinear_arith);
}

impl XskUmemInfo {
    /// Number of frames on the free stack.
    pub fn free_frames(&self) -> (r: usize)
        ensures
            r == self.frames@.len(),
    {
        self.frames.len()
    }

    /// Pops `n` frames off the free stack, returning them in the order they came off.
    pub fn pop_frames(&mut self, n: usize) -> (taken: Vec<Frame>)
        requires
            n <= old(self).frames@.len(),
        ensures
            taken@ == pop_order(old(self).frames@, n as nat),
            final(self).frames@ == after_pops(old(self).frames@, n as nat),
            final(self).fill_size == old(self).fill_size,
            final(self).comp_size == old(self).comp_size,
            final(self).n_frames == old(self).n_frames,
            final(self).frame_size == old(self).frame_size,
    {
        let ghost s0 = self.frames@;
        let mut taken: Vec<Frame> = Vec::new();
        let mut k: usize = 0;
        while k < n
            invariant
                k <= n,
                n <= s0.len(),
                self.frames@ == after_pops(s0, k as nat),
                taken@ == pop_order(s0, k as nat),
                self.fill_size == old(self).fill_size,
                self.comp_size == old(self).comp_size,
                self.n_frames == old(self).n_frames,
                self.frame_size == old(self).frame_size,
            decreases n - k,
        {
            let f = self.frames.pop().unwrap();
            taken.push(f);
            k = k + 1;
            assert(self.frames@ =~= after_pops(s0, k as nat));
            assert(taken@ =~= pop_order(s0, k as nat));
        }
        taken
    }

    /// Puts a frame back on the free stack.
    pub fn push_frame(&mut self, frame: Frame)
        ensures
            final(self).frames@ == old(self).frames@.push(frame),
            final(self).fill_size == old(self).fill_size,
            final(self).comp_size == old(self).comp_size,
            final(self).n_frames == old(self).n_frames,
            final(self).frame_size == old(self).frame_size,
    {
        self.frames.push(frame);
    }
}

/// Popping frames neither loses nor duplicates any: what stays on the stack,
/// followed by the popped frames put back in reverse order, is the stack
/// that was there before.
pub proof fn lemma_pop_conserves_frames(s: Seq<Frame>, n: nat)
    requires
        n <= s.len(),
    ensures
        after_pops(s, n) + pop_order(s, n).reverse() == s,
        pop_order(s, n).len() == n,
{
    assert(after_pops(s, n) + pop_order(s, n).reverse() =~= s);
}

/// Pushing back the popped frames in reverse order of popping restores the stack.
pub proof fn lemma_push_back_restores(s: Seq<Frame>, n: nat)
    requires
        n <= s.len(),
    ensures
        push_all(after_pops(s, n), pop_order(s, n).reverse()) == s,
{
    lemma_push_all_is_concat(after_pops(s, n), pop_order(s, n).reverse());
    lemma_pop_conserves_frames(s, n);
}

/// The stack `s` after pushing the frames of `fs` one after another.
pub open spec fn push_all(s: Seq<Frame>, fs: Seq<Frame>) -> Seq<Frame>
    decreases fs.len(),
{
    if fs.len() == 0 {
        s
    } else {
        push_all(s, fs.drop_last()).push(fs.last())
    }
}

proof fn lemma_push_all_is_concat(s: Seq<Frame>, fs: Seq<Frame>)
    ensures
        push_all(s, fs) == s + fs,
    decreases fs.len(),
{
    if fs.len() == 0 {
        assert(s + fs =~= s);
    } else {
        lemma_push_all_is_concat(s, fs.drop_last());
        assert((s + fs.drop_last()).push(fs.last()) =~= s + fs);
    }
}

/// The default ring and frame sizes pass the power-of-two test that the
/// setters apply to sizes given by the caller.
pub proof fn lemma_default_sizes_are_powers_of_two()
    ensures
        is_pow2(default_umem_config().fill_size as int),
        is_pow2(default_umem_config().comp_size as int),
        is_pow2(default_umem_config().frame_size as int),
{
    reveal_with_fuel(is_pow2, 13);
}

} // verus!
