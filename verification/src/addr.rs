use vstd::prelude::*;

verus! {

/// The video address register (CPU port 0x2006).
///
/// A 14-bit effective video address is assembled from two sequential one-byte
/// CPU writes, high byte first; a latch flag records which half the next write
/// fills. Streaming through the companion data port advances the address via
/// `increment`. Any value that leaves the 14-bit space is folded back by
/// masking with 0x3fff, mirroring the hardware's incomplete address decoding.
pub struct AddrRegister {
    hi: u8,
    lo: u8,
    hi_ptr: bool,
}

impl AddrRegister {
    /// The combined 16-bit value currently held in the two bytes.
    pub closed spec fn spec_get(self) -> u16 {
        ((self.hi as u16) << 8) | (self.lo as u16)
    }

    /// Whether the next `update` call stores the high byte.
    pub closed spec fn expects_high(self) -> bool {
        self.hi_ptr
    }

    /// Invariant: the stored address never leaves the 14-bit video address
    /// space.
    pub open spec fn wf(self) -> bool {
        self.spec_get() <= 0x3fff
    }

    /// Power-on state: address zero, latch expecting the high byte.
    pub fn new() -> (r: Self)
        ensures
            r.spec_get() == 0,
            r.expects_high(),
            r.wf(),
    {
        proof {
            assert(((0u8 as u16) << 8) | (0u8 as u16) == 0) by (bit_vector);
        }
        AddrRegister { hi: 0, lo: 0, hi_ptr: true }
    }

    /// Stores `data` across the two bytes, leaving the latch flag alone.
    fn set(&mut self, data: u16)
        ensures
            final(self).spec_get() == data,
            final(self).expects_high() == old(self).expects_high(),
    {
        proof {
            assert(data >> 8 < 256 && data & 0xff < 256) by (bit_vector);
            assert((((data >> 8) as u8 as u16) << 8) | ((data & 0xff) as u8 as u16) == data)
                by (bit_vector);
        }
        self.hi = (data >> 8) as u8;
        self.lo = (data & 0xff) as u8;
    }

    /// Writes one byte: into the high byte if the latch expects it, else into
    /// the low byte; folds any combined value above 0x3fff back into the
    /// 14-bit space; toggles the latch. Every byte value is accepted.
    pub fn update(&mut self, data: u8)
        requires
            old(self).wf(),
        ensures
            final(self).wf(),
            final(self).expects_high() == !old(self).expects_high(),
            old(self).expects_high() ==> final(self).spec_get()
                == (((data as u16) << 8) | (old(self).spec_get() & 0xff)) & 0x3fff,
            !old(self).expects_high() ==> final(self).spec_get()
                == ((old(self).spec_get() & 0xff00) | (data as u16)) & 0x3fff,
    {
        if self.hi_ptr {
            self.hi = data;
        } else {
            self.lo = data;
        }
        proof {
            let h = old(self).hi;
            let l = old(self).lo;
            assert((((h as u16) << 8) | (l as u16)) & 0xff == l as u16) by (bit_vector);
            assert((((h as u16) << 8) | (l as u16)) & 0xff00 == (h as u16) << 8) by (bit_vector);
        }
        let ghost raw = self.spec_get();
        if self.get() > 0x3fff {
            let masked: u16 = self.get() & 0x3fff;
            self.set(masked);
        } else {
            proof {
                assert(raw <= 0x3fff ==> raw & 0x3fff == raw) by (bit_vector);
            }
        }
        proof {
            assert(raw & 0x3fff <= 0x3fff) by (bit_vector);
        }
        self.hi_ptr = !self.hi_ptr;
    }

    /// Adds `inc` to the low byte with 8-bit wraparound, carrying into the
    /// high byte when the low byte wrapped, then folds the result back into
    /// the 14-bit space. The net effect is addition modulo 0x4000.
    pub fn increment(&mut self, inc: u8)
        requires
            old(self).wf(),
        ensures
            final(self).wf(),
            final(self).spec_get() == (old(self).spec_get() + inc) % 0x4000,
            final(self).expects_high() == old(self).expects_high(),
    {
        let lo = self.lo;
        self.lo = self.lo.wrapping_add(inc);
        if lo > self.lo {
            self.hi = self.hi.wrapping_add(1);
        }
        proof {
            let h0 = old(self).hi;
            let l0 = old(self).lo;
            let h1 = self.hi;
            let l1 = self.lo;
            assert((((h0 as u16) << 8) | (l0 as u16)) <= 0x3fff ==> h0 < 0x40) by (bit_vector);
            assert(((h0 as u16) << 8) | (l0 as u16) == h0 * 256 + l0) by (bit_vector);
            assert(((h1 as u16) << 8) | (l1 as u16) == h1 * 256 + l1) by (bit_vector);
            assert(self.spec_get() == old(self).spec_get() + inc);
        }
        let ghost raw = self.spec_get();
        if self.get() > 0x3fff {
            let masked: u16 = self.get() & 0x3fff;
            self.set(masked);
        } else {
            proof {
                assert(raw <= 0x3fff ==> raw & 0x3fff == raw) by (bit_vector);
            }
        }
        proof {
            assert(raw & 0x3fff <= 0x3fff) by (bit_vector);
            assert(raw & 0x3fff == raw % 0x4000) by (bit_vector);
        }
    }

    /// Forces the next `update` call to store the high byte; the stored
    /// address is untouched.
    pub fn reset_latch(&mut self)
        ensures
            final(self).expects_high(),
            final(self).spec_get() == old(self).spec_get(),
            final(self).wf() == old(self).wf(),
    {
        self.hi_ptr = true;
    }

    /// Returns the current address, high byte first; under the invariant it
    /// never exceeds 0x3fff.
    pub fn get(&self) -> (r: u16)
        ensures
            r == self.spec_get(),
            self.wf() ==> r <= 0x3fff,
    {
        ((self.hi as u16) << 8) | (self.lo as u16)
    }
}

/// Law: after a latch reset, writing `a` and then `b` leaves the address
/// `((a << 8) | b) & 0x3fff`, whatever address was stored before. Here `s0`
/// is any state whose latch expects the high byte (as `reset_latch` leaves
/// it), and `s1` and `s2` are related to their predecessors exactly as the
/// `ensures` of `update(a)` and `update(b)` describe.
pub proof fn lemma_double_write_sets_address(
    s0: AddrRegister,
    s1: AddrRegister,
    s2: AddrRegister,
    a: u8,
    b: u8,
)
    requires
        s0.expects_high(),
        s1.expects_high() == !s0.expects_high(),
        s1.spec_get() == (((a as u16) << 8) | (s0.spec_get() & 0xff)) & 0x3fff,
        s2.spec_get() == ((s1.spec_get() & 0xff00) | (b as u16)) & 0x3fff,
    ensures
        s2.spec_get() == (((a as u16) << 8) | (b as u16)) & 0x3fff,
{
    let x = s0.spec_get();
    let y = s1.spec_get();
    let z = s2.spec_get();
    assert((y == (((a as u16) << 8) | (x & 0xff)) & 0x3fff
        && z == ((y & 0xff00) | (b as u16)) & 0x3fff)
        ==> z == (((a as u16) << 8) | (b as u16)) & 0x3fff) by (bit_vector);
}

/// Law: the latch alternates with period two. From a state expecting the high
/// byte, the first write stores the high byte, the second stores the low
/// byte, and a third write stores the high byte again. `s1` and `s2` follow
/// `s0` as the `ensures` of two consecutive `update` calls describe.
pub proof fn lemma_latch_alternates(s0: AddrRegister, s1: AddrRegister, s2: AddrRegister)
    requires
        s0.expects_high(),
        s1.expects_high() == !s0.expects_high(),
        s2.expects_high() == !s1.expects_high(),
    ensures
        !s1.expects_high(),
        s2.expects_high(),
{
}

/// Law: `reset_latch` is idempotent with respect to the future latch
/// position. After two resets in a row the next write still stores the high
/// byte, and the stored address is what it was before either reset. `s1` and
/// `s2` follow `s0` as the `ensures` of two consecutive `reset_latch` calls
/// describe.
pub proof fn lemma_reset_latch_idempotent(s0: AddrRegister, s1: AddrRegister, s2: AddrRegister)
    requires
        s1.expects_high(),
        s1.spec_get() == s0.spec_get(),
        s2.expects_high(),
        s2.spec_get() == s1.spec_get(),
    ensures
        s2.expects_high(),
        s2.spec_get() == s0.spec_get(),
{
}

} // verus!
