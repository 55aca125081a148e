//! The monochrome framebuffer.
//!
//! A grid of one-bit pixels, stored row-major. The dimensions are a runtime
//! property of the currently selected resolution mode, not a compile-time
//! constant: SCHIP high-resolution mode doubles both. Sprite compositing is
//! an XOR performed by the executor; this component stores the post-XOR
//! value that the executor hands to `write`.

use vstd::prelude::*;

verus! {

/// The mathematical value of a framebuffer: its resolution mode and its
/// pixels, row-major, each 0 or 1.
#[verifier::ext_equal]
pub struct FbView {
    pub hires: bool,
    pub grid: Seq<u8>,
}

/// Screen width in the given resolution mode.
pub open spec fn fb_width(hires: bool) -> int {
    if hires {
        128
    } else {
        64
    }
}

/// Screen height in the given resolution mode.
pub open spec fn fb_height(hires: bool) -> int {
    if hires {
        64
    } else {
        32
    }
}

/// Number of pixels in the given resolution mode.
pub open spec fn fb_len(hires: bool) -> int {
    if hires {
        8192
    } else {
        2048
    }
}

/// A well-formed framebuffer value: the grid fills the selected resolution
/// and every pixel is a single bit.
pub open spec fn fb_wf(fb: FbView) -> bool {
    &&& fb.grid.len() == fb_len(fb.hires)
    &&& forall|i: int| 0 <= i < fb.grid.len() ==> #[trigger] fb.grid[i] <= 1u8
}

/// An all-zero grid for the given resolution mode.
pub open spec fn fb_blank(hires: bool) -> Seq<u8> {
    Seq::new(fb_len(hires) as nat, |i: int| 0u8)
}

/// The framebuffer component.
#[derive(Debug)]
pub struct VideoMemory {
    hires_mode: bool,
    data: Vec<u8>,
}

impl View for VideoMemory {
    type V = FbView;

    closed spec fn view(&self) -> FbView {
        FbView { hires: self.hires_mode, grid: self.data@ }
    }
}

impl VideoMemory {
    pub open spec fn wf(&self) -> bool {
        fb_wf(self@)
    }

    /// A low-resolution screen with every pixel off.
    pub fn new() -> (r: VideoMemory)
        ensures
            r.wf(),
            r@ == (FbView { hires: false, grid: fb_blank(false) }),
    {
        let data: Vec<u8> = crate::memory::make_bytes(2048, 0u8);
        proof {
            assert(data@ =~= fb_blank(false));
        }
        VideoMemory { hires_mode: false, data }
    }

    pub fn read(&self, x: usize, y: usize) -> (r: u8)
        requires
            self.wf(),
            (x as int) < fb_width(self@.hires),
            (y as int) < fb_height(self@.hires),
        ensures
            r == self@.grid[y as int * fb_width(self@.hires) + x as int],
            r <= 1u8,
    {
        if self.hires_mode {
            self.data[y * 128 + x]
        } else {
            self.data[y * 64 + x]
        }
    }

    /// Store one pixel; the caller supplies the post-XOR bit.
    pub fn write(&mut self, x: usize, y: usize, value: u8)
        requires
            old(self).wf(),
            (x as int) < fb_width(old(self)@.hires),
            (y as int) < fb_height(old(self)@.hires),
            value <= 1u8,
        ensures
            final(self).wf(),
            final(self)@.hires == old(self)@.hires,
            final(self)@.grid == old(self)@.grid.update(
                y as int * fb_width(old(self)@.hires) + x as int,
                value,
            ),
    {
        if self.hires_mode {
            self.data.set(y * 128 + x, value);
        } else {
            self.data.set(y * 64 + x, value);
        }
    }

    /// Blank every pixel; the resolution mode is untouched.
    pub fn clear(&mut self)
        requires
            old(self).wf(),
        ensures
            final(self).wf(),
            final(self)@ == (FbView {
                hires: old(self)@.hires,
                grid: fb_blank(old(self)@.hires),
            }),
    {
        let n: usize = self.data.len();
        self.data = crate::memory::make_bytes(n, 0u8);
        proof {
            assert(self@.grid =~= fb_blank(self@.hires));
            assert(self@ =~= (FbView { hires: old(self)@.hires, grid: fb_blank(old(self)@.hires) }));
        }
    }

    pub fn get_screen_width(&self) -> (r: usize)
        ensures
            r as int == fb_width(self@.hires),
    {
        if self.hires_mode {
            crate::constants::HIRES_SCREEN_WIDTH
        } else {
            crate::constants::SCREEN_WIDTH
        }
    }

    pub fn get_screen_height(&self) -> (r: usize)
        ensures
            r as int == fb_height(self@.hires),
    {
        if self.hires_mode {
            crate::constants::HIRES_SCREEN_HEIGHT
        } else {
            crate::constants::SCREEN_HEIGHT
        }
    }

    /// The resolution mode currently selected.
    pub fn get_hires_mode(&self) -> (r: bool)
        ensures
            r == self@.hires,
    {
        self.hires_mode
    }

    /// Select a resolution: the grid is reallocated at the new dimensions
    /// and every pixel is invalidated to zero.
    pub fn set_high_res(&mut self, hires: bool)
        ensures
            final(self).wf(),
            final(self)@ == (FbView { hires, grid: fb_blank(hires) }),
    {
        let len: usize = if hires {
            8192
        } else {
            2048
        };
        self.hires_mode = hires;
        self.data = crate::memory::make_bytes(len, 0u8);
        proof {
            assert(self@.grid =~= fb_blank(hires));
            assert(self@ =~= (FbView { hires, grid: fb_blank(hires) }));
        }
    }
}

} // verus!
