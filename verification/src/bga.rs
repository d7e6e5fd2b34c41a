//! The Bochs graphics adapter as the compositor sees it: a linear
//! framebuffer of `width * height` ARGB pixels that the back buffer is
//! copied into.
use vstd::prelude::*;

verus! {

/// Default horizontal resolution.
pub const DEFAULT_WIDTH: usize = 800;
/// Default vertical resolution.
pub const DEFAULT_HEIGHT: usize = 600;
/// Default color depth in bits.
pub const DEFAULT_BPP: usize = 32;
/// Where the linear framebuffer is mapped in the kernel's address space.
pub const FRAMEBUFFER_VIRT_START: u64 = 0x5000_0000_0000u64;

/// Whether a value read from the adapter's identification register names a
/// supported adapter revision (0xB0C0 to 0xB0C5).
pub fn is_supported_id(id: u16) -> (b: bool)
    ensures
        b == (0xB0C0 <= id <= 0xB0C5),
{
    id >= 0xB0C0 && id <= 0xB0C5
}

/// A configured adapter: its mode and the pixels of its linear framebuffer.
pub struct BgaDevice {
    pub width: usize,
    pub height: usize,
    pub bpp: usize,
    pub phys_addr: u64,
    /// The visible pixels, row by row.
    pub screen: Vec<u32>,
}

impl BgaDevice {
    /// The framebuffer holds exactly one word per pixel of the mode.
    pub open spec fn wf(&self) -> bool {
        &&& self.screen@.len() == self.width * self.height
        &&& self.width <= isize::MAX
        &&& self.height <= isize::MAX
        &&& self.width * self.height <= isize::MAX
    }

    /// A device in the given mode whose framebuffer is all black.
    pub fn new(width: usize, height: usize, phys_addr: u64) -> (dev: BgaDevice)
        requires
            width <= isize::MAX,
            height <= isize::MAX,
            width * height <= isize::MAX,
        ensures
            dev.wf(),
            dev.width == width,
            dev.height == height,
            dev.bpp == DEFAULT_BPP,
            dev.phys_addr == phys_addr,
            dev.screen@ == Seq::new((width * height) as nat, |i: int| 0u32),
    {
        let mut screen: Vec<u32> = Vec::new();
        let n = width * height;
        while screen.len() < n
            invariant
                screen@.len() <= n,
                forall|i: int| 0 <= i < screen@.len() ==> screen@[i] == 0u32,
            decreases n - screen@.len(),
        {
            screen.push(0u32);
        }
        assert(screen@ =~= Seq::new((width * height) as nat, |i: int| 0u32));
        BgaDevice { width, height, bpp: DEFAULT_BPP, phys_addr, screen }
    }

    /// Copies the first `min(buffer.len(), width * height)` pixels of `buffer`
    /// to the screen.
    pub fn copy_framebuffer(&mut self, buffer: &[u32])
        requires
            old(self).wf(),
        ensures
            final(self).wf(),
            final(self).width == old(self).width,
            final(self).height == old(self).height,
            final(self).bpp == old(self).bpp,
            final(self).phys_addr == old(self).phys_addr,
            final(self).screen@ == Seq::new(old(self).screen@.len(), |i: int|
                if i < buffer@.len() { buffer@[i] } else { old(self).screen@[i] }),
    {
        let count = self.width * self.height;
        let len = if buffer.len() < count { buffer.len() } else { count };
        let mut i: usize = 0;
        while i < len
            invariant
                self.wf(),
                self.width == old(self).width,
                self.height == old(self).height,
                self.bpp == old(self).bpp,
                self.phys_addr == old(self).phys_addr,
                count == self.width * self.height,
                len <= count,
                len <= buffer@.len(),
                len == count || len == buffer@.len(),
                i <= len,
                forall|j: int| 0 <= j < self.screen@.len() ==> #[trigger] self.screen@[j]
                    == if j < i { buffer@[j] } else { old(self).screen@[j] },
            decreases len - i,
        {
            self.screen.set(i, buffer[i]);
            i = i + 1;
        }
        assert(self.screen@ =~= Seq::new(old(self).screen@.len(), |i: int|
            if i < buffer@.len() { buffer@[i] } else { old(self).screen@[i] }));
    }

    /// Copies the rectangle at `rx`, `ry` of size `rw` by `rh`, cut to the
    /// screen, from `buffer` (laid out like the screen) to the screen.
    pub fn copy_rect(&mut self, buffer: &[u32], rx: usize, ry: usize, rw: usize, rh: usize)
        requires
            old(self).wf(),
            buffer@.len() >= old(self).width * old(self).height,
            rx + rw <= usize::MAX,
            ry + rh <= usize::MAX,
        ensures
            final(self).wf(),
            final(self).width == old(self).width,
            final(self).height == old(self).height,
            final(self).bpp == old(self).bpp,
            final(self).phys_addr == old(self).phys_addr,
            final(self).screen@ == Seq::new(old(self).screen@.len(), |i: int|
                if rx <= i % (old(self).width as int) < rx + rw
                    && ry <= i / (old(self).width as int) < ry + rh {
                    buffer@[i]
                } else {
                    old(self).screen@[i]
                }),
    {
        let w = self.width;
        let h = self.height;
        let rx2 = if rx + rw < w { rx + rw } else { w };
        let ry2 = if ry + rh < h { ry + rh } else { h };
        if rx >= rx2 || ry >= ry2 {
            assert forall|i: int| 0 <= i < self.screen@.len() implies #[trigger] self.screen@[i] == (if rx <= i % (w as int) < rx + rw
                && ry <= i / (w as int) < ry + rh { buffer@[i] } else { old(self).screen@[i] }) by {
                crate::geometry::lemma_index_split(i, w as int, h as int);
            }
            assert(self.screen@ =~= Seq::new(old(self).screen@.len(), |i: int|
                if rx <= i % (w as int) < rx + rw && ry <= i / (w as int) < ry + rh {
                    buffer@[i]
                } else {
                    old(self).screen@[i]
                }));
            return;
        }
        let mut y = ry;
        while y < ry2
            invariant
                self.wf(),
                self.width == w,
                self.height == h,
                self.bpp == old(self).bpp,
                self.phys_addr == old(self).phys_addr,
                buffer@.len() >= w * h,
                rx < rx2 <= w,
                ry <= y <= ry2 <= h,
                rx2 == if rx + rw < w { rx + rw } else { w as int },
                ry2 == if ry + rh < h { ry + rh } else { h as int },
                self.screen@.len() == old(self).screen@.len(),
                forall|i: int| 0 <= i < self.screen@.len() ==> #[trigger] self.screen@[i]
                    == if rx <= i % (w as int) < rx2 && ry <= i / (w as int) < y {
                    buffer@[i]
                } else {
                    old(self).screen@[i]
                },
            decreases ry2 - y,
        {
            let mut x = rx;
            while x < rx2
                invariant
                    self.wf(),
                    self.width == w,
                    self.height == h,
                    self.bpp == old(self).bpp,
                    self.phys_addr == old(self).phys_addr,
                    buffer@.len() >= w * h,
                    rx <= x <= rx2 <= w,
                    ry <= y < ry2 <= h,
                    self.screen@.len() == old(self).screen@.len(),
                    forall|i: int| 0 <= i < self.screen@.len() ==> #[trigger] self.screen@[i]
                        == if (rx <= i % (w as int) < rx2 && ry <= i / (w as int) < y)
                            || (i / (w as int) == y && rx <= i % (w as int) < x) {
                        buffer@[i]
                    } else {
                        old(self).screen@[i]
                    },
                decreases rx2 - x,
            {
                proof {
                    crate::geometry::lemma_pixel_index(y as int, x as int, w as int, h as int);
                }
                let idx = y * w + x;
                self.screen.set(idx, buffer[idx]);
                proof {
                    assert forall|i: int| 0 <= i < self.screen@.len() implies #[trigger] self.screen@[i]
                        == if (rx <= i % (w as int) < rx2 && ry <= i / (w as int) < y)
                            || (i / (w as int) == y && rx <= i % (w as int) < x + 1) {
                        buffer@[i]
                    } else {
                        old(self).screen@[i]
                    } by {
                        crate::geometry::lemma_index_split(i, w as int, h as int);
                        if i != idx {
                            if i / (w as int) == y && i % (w as int) == x {
                                assert(i == y * w + x);
                            }
                        }
                    }
                }
                x = x + 1;
            }
            y = y + 1;
        }
        assert(self.screen@ =~= Seq::new(old(self).screen@.len(), |i: int|
            if rx <= i % (w as int) < rx + rw && ry <= i / (w as int) < ry + rh {
                buffer@[i]
            } else {
                old(self).screen@[i]
            })) by {
            assert forall|i: int| 0 <= i < self.screen@.len() implies #[trigger] self.screen@[i] == (
                if rx <= i % (w as int) < rx + rw && ry <= i / (w as int) < ry + rh {
                    buffer@[i]
                } else {
                    old(self).screen@[i]
                }) by {
                crate::geometry::lemma_index_split(i, w as int, h as int);
            }
        }
    }
}

} // verus!
