//! The bookkeeping of the offscreen framebuffer: its size and the buffer
//! that pixels are read back into, four bytes a pixel. The framebuffer
//! itself lives in the caller's graphics context.

use vstd::prelude::*;

verus! {

/// The bytes that the pixels of a framebuffer take.
pub open spec fn buffer_len(width: u32, height: u32) -> int {
    width as int * height as int * 4
}

/// An offscreen framebuffer as the capture loop keeps it: the names of
/// its framebuffer and texture objects, whether it was complete when it was
/// made, its size and its readback buffer.
pub struct OffscreenRenderer {
    fbo: u32,
    texture: u32,
    complete: bool,
    width: u32,
    height: u32,
    pixel_buffer: Vec<u8>,
}

impl OffscreenRenderer {
    /// The width of the framebuffer in pixels.
    pub closed spec fn spec_width(&self) -> u32 {
        self.width
    }

    /// The height of the framebuffer in pixels.
    pub closed spec fn spec_height(&self) -> u32 {
        self.height
    }

    /// The bytes last read back.
    pub closed spec fn pixels(&self) -> Seq<u8> {
        self.pixel_buffer@
    }

    /// The names of the framebuffer object and of its texture, and
    /// whether the framebuffer was complete when it was made.
    pub closed spec fn objects(&self) -> (u32, u32, bool) {
        (self.fbo, self.texture, self.complete)
    }

    /// The invariant of the renderer: the buffer holds four bytes for
    /// every pixel, and that many bytes can be counted in 32 bits.
    pub open spec fn wf(&self) -> bool {
        &&& buffer_len(self.spec_width(), self.spec_height()) <= u32::MAX
        &&& self.pixels().len() == buffer_len(self.spec_width(), self.spec_height())
    }

    /// Whether a framebuffer of this size can be kept.
    pub fn fits(width: u32, height: u32) -> (ok: bool)
        ensures
            ok == (buffer_len(width, height) <= u32::MAX),
    {
        assert(width as int * height as int <= u64::MAX) by (nonlinear_arith)
            requires
                0 <= width <= u32::MAX,
                0 <= height <= u32::MAX,
        ;
        let pixels: u64 = (width as u64) * (height as u64);
        pixels <= (u32::MAX / 4) as u64
    }

    /// The renderer of a framebuffer of this size that the caller made,
    /// with a buffer of zeros.
    pub fn new(width: u32, height: u32, fbo: u32, texture: u32, complete: bool) -> (out: Self)
        requires
            buffer_len(width, height) <= u32::MAX,
        ensures
            out.wf(),
            out.spec_width() == width,
            out.spec_height() == height,
            out.objects() == (fbo, texture, complete),
            out.pixels() == Seq::new(buffer_len(width, height) as nat, |i: int| 0u8),
    {
        let len = Self::len_of(width, height);
        let pixel_buffer = vec![0u8; len];
        assert(pixel_buffer@ =~= Seq::new(buffer_len(width, height) as nat, |i: int| 0u8));
        OffscreenRenderer { fbo, texture, complete, width, height, pixel_buffer }
    }

    /// Whether the framebuffer was complete when it was made. One that was
    /// not is never captured from.
    pub fn is_complete(&self) -> (complete: bool)
        ensures
            complete == self.objects().2,
    {
        self.complete
    }

    /// The name of the framebuffer object, which the engine renders into.
    pub fn fbo(&self) -> (fbo: u32)
        ensures
            fbo == self.objects().0,
    {
        self.fbo
    }

    /// The name of the texture, which the caller gives its new size after
    /// a resize.
    pub fn texture(&self) -> (texture: u32)
        ensures
            texture == self.objects().1,
    {
        self.texture
    }

    fn len_of(width: u32, height: u32) -> (len: usize)
        requires
            buffer_len(width, height) <= u32::MAX,
        ensures
            len == buffer_len(width, height),
    {
        assert(width as int * height as int <= u32::MAX) by (nonlinear_arith)
            requires
                width as int * height as int * 4 <= u32::MAX,
                width >= 0,
                height >= 0,
        ;
        let pixels: u32 = width * height;
        (pixels * 4) as usize
    }

    /// The width of the framebuffer in pixels.
    pub fn width(&self) -> (width: u32)
        ensures
            width == self.spec_width(),
    {
        self.width
    }

    /// The height of the framebuffer in pixels.
    pub fn height(&self) -> (height: u32)
        ensures
            height == self.spec_height(),
    {
        self.height
    }

    /// The bytes last read back.
    pub fn pixel_buffer(&self) -> (pixels: &Vec<u8>)
        ensures
            pixels@ == self.pixels(),
    {
        &self.pixel_buffer
    }

    /// Takes a new size for the framebuffer. For the size it has, nothing
    /// changes and the answer is `false`. For another, the buffer is cut
    /// or filled up with zeros to the new length, and the answer is `true`:
    /// the caller then gives the texture its new size.
    pub fn resize(&mut self, width: u32, height: u32) -> (changed: bool)
        requires
            old(self).wf(),
            buffer_len(width, height) <= u32::MAX,
        ensures
            final(self).wf(),
            final(self).spec_width() == width,
            final(self).spec_height() == height,
            final(self).objects() == old(self).objects(),
            changed == (old(self).spec_width() != width || old(self).spec_height() != height),
            !changed ==> final(self).pixels() == old(self).pixels(),
            forall|i: int|
                0 <= i < final(self).pixels().len() ==> #[trigger] final(self).pixels()[i] == (if i
                    < old(self).pixels().len() {
                    old(self).pixels()[i]
                } else {
                    0u8
                }),
    {
        if self.width == width && self.height == height {
            return false;
        }
        let len = Self::len_of(width, height);
        self.width = width;
        self.height = height;
        self.pixel_buffer.resize(len, 0u8);
        true
    }

    /// Takes the pixels that were read back from the framebuffer. They
    /// are kept where they are as many bytes as the framebuffer has;
    /// otherwise nothing changes and the answer is `false`.
    pub fn read_pixels(&mut self, pixels: Vec<u8>) -> (kept: bool)
        requires
            old(self).wf(),
        ensures
            final(self).wf(),
            final(self).spec_width() == old(self).spec_width(),
            final(self).spec_height() == old(self).spec_height(),
            final(self).objects() == old(self).objects(),
            kept == (pixels@.len() == old(self).pixels().len()),
            final(self).pixels() == (if kept {
                pixels@
            } else {
                old(self).pixels()
            }),
    {
        if pixels.len() == self.pixel_buffer.len() {
            self.pixel_buffer = pixels;
            true
        } else {
            false
        }
    }
}

} // verus!
