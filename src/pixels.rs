use vstd::prelude::*;

verus! {

/// Bytes per pixel, both in the remote primary surface and in the converted frame.
pub const BYTES_PER_PIXEL: usize = 4;

/// The opaque alpha value written into every converted pixel.
pub const OPAQUE: u8 = 0xFF;

/// The number of bytes a `width` x `height` surface occupies.
pub open spec fn surface_len(width: u32, height: u32) -> int {
    width as int * height as int * 4
}

/// The converted form of a source buffer: colour bytes kept, alpha forced opaque.
pub open spec fn opaque_pixels(src: Seq<u8>) -> Seq<u8> {
    Seq::new(src.len(), |i: int| if i % 4 == 3 { 0xFFu8 } else { src[i] })
}

/// Converts a primary-surface buffer of `width` x `height` pixels into an owned,
/// fully opaque pixel buffer. A buffer whose length is not `width * height * 4`
/// is not converted.
pub fn convert_surface(width: u32, height: u32, src: &[u8]) -> (r: Option<Vec<u8>>)
    ensures
        r.is_some() <==> src@.len() == surface_len(width, height),
        r.is_some() ==> r.unwrap()@ == opaque_pixels(src@),
{
    let len = src.len();
    assert(width as int * height as int <= u32::MAX as int * u32::MAX as int) by (nonlinear_arith);
    let pixel_count: u64 = (width as u64) * (height as u64);
    if pixel_count > u64::MAX / 4 || pixel_count * 4 != len as u64 {
        return None;
    }
    assert(len % 4 == 0) by (nonlinear_arith)
        requires len == width as int * height as int * 4;
    let mut out: Vec<u8> = Vec::with_capacity(len);
    let mut offset: usize = 0;
    while offset < len
        invariant
            len == src@.len(),
            len % 4 == 0,
            offset % 4 == 0,
            offset <= len,
            out@ == opaque_pixels(src@).subrange(0, offset as int),
        decreases len - offset,
    {
        out.push(src[offset]);
        out.push(src[offset + 1]);
        out.push(src[offset + 2]);
        out.push(OPAQUE);
        proof {
            assert(out@ =~= opaque_pixels(src@).subrange(0, offset + 4));
        }
        offset = offset + BYTES_PER_PIXEL;
    }
    proof {
        assert(out@ =~= opaque_pixels(src@));
    }
    Some(out)
}

/// A converted frame: its size in pixels and its opaque pixel bytes.
pub struct Frame {
    pub width: u32,
    pub height: u32,
    pub pixels: Vec<u8>,
}

impl Frame {
    /// A frame's byte count matches its size and every pixel is opaque.
    pub open spec fn wf(&self) -> bool {
        &&& self.pixels@.len() == surface_len(self.width, self.height)
        &&& forall|i: int| 0 <= i < self.pixels@.len() && i % 4 == 3 ==> #[trigger] self.pixels@[i] == 0xFFu8
    }
}

/// The single-slot "latest frame" cell: each successful conversion replaces the
/// frame it holds, a failed one leaves it as it was.
pub struct FrameSlot {
    pub latest: Option<Frame>,
}

impl FrameSlot {
    pub open spec fn wf(&self) -> bool {
        self.latest.is_some() ==> self.latest.unwrap().wf()
    }

    /// An empty slot.
    pub fn new() -> (r: FrameSlot)
        ensures
            r.latest.is_none(),
            r.wf(),
    {
        FrameSlot { latest: None }
    }

    /// Converts the surface and, on success, makes it the latest frame.
    /// Returns whether the frame was replaced.
    pub fn update(&mut self, width: u32, height: u32, src: &[u8]) -> (replaced: bool)
        requires
            old(self).wf(),
        ensures
            final(self).wf(),
            replaced <==> src@.len() == surface_len(width, height),
            replaced ==> final(self).latest.is_some(),
            replaced ==> final(self).latest.unwrap().width == width,
            replaced ==> final(self).latest.unwrap().height == height,
            replaced ==> final(self).latest.unwrap().pixels@ == opaque_pixels(src@),
            !replaced ==> final(self).latest == old(self).latest,
    {
        match convert_surface(width, height, src) {
            Some(pixels) => {
                let frame = Frame { width, height, pixels };
                assert(frame.wf());
                self.latest = Some(frame);
                true
            },
            None => false,
        }
    }
}

/// Every surface buffer of the right length converts to a buffer of the same
/// length whose alpha bytes are opaque and whose colour bytes are the source's.
pub proof fn lemma_conversion_keeps_colour(width: u32, height: u32, src: Seq<u8>)
    requires
        src.len() == surface_len(width, height),
    ensures
        opaque_pixels(src).len() == src.len(),
        forall|p: int| 0 <= p < width as int * height as int ==> {
            &&& #[trigger] opaque_pixels(src)[4 * p + 3] == 0xFFu8
            &&& opaque_pixels(src)[4 * p] == src[4 * p]
            &&& opaque_pixels(src)[4 * p + 1] == src[4 * p + 1]
            &&& opaque_pixels(src)[4 * p + 2] == src[4 * p + 2]
        },
{
    assert forall|p: int| 0 <= p < width as int * height as int implies {
        &&& #[trigger] opaque_pixels(src)[4 * p + 3] == 0xFFu8
        &&& opaque_pixels(src)[4 * p] == src[4 * p]
        &&& opaque_pixels(src)[4 * p + 1] == src[4 * p + 1]
        &&& opaque_pixels(src)[4 * p + 2] == src[4 * p + 2]
    } by {
        assert(4 * p + 3 < src.len()) by (nonlinear_arith)
            requires 0 <= p < width as int * height as int, src.len() == width as int * height as int * 4;
        assert((4 * p + 3) % 4 == 3);
        assert((4 * p) % 4 == 0);
        assert((4 * p + 1) % 4 == 1);
        assert((4 * p + 2) % 4 == 2);
    }
}

} // verus!
