//! The framebuffer: a color buffer and a parallel depth buffer, with
//! depth-tested pixel writes as the single source of visibility truth.

use vstd::prelude::*;

verus! {

/// The depth value every slot holds after a clear: farther than any depth a
/// fragment can carry, so the first write at a pixel always passes the test.
/// The test is strict, so a write whose depth is this sentinel itself is
/// rejected even against a cleared slot; the first-write guarantee covers
/// exactly the depths strictly below it.
pub const DEPTH_FAR: i64 = 0x7FFF_FFFF_FFFF_FFFF;

/// A fixed-size framebuffer. The color and depth buffers are row-major,
/// `width * height` entries each.
pub struct Framebuffer {
    pub width: usize,
    pub height: usize,
    pub buffer: Vec<u32>,
    pub zbuffer: Vec<i64>,
    pub background_color: u32,
    pub current_color: u32,
}

/// The outcome of one depth-tested write at slot `idx`: the color and depth
/// are stored iff the incoming depth is nearer than the stored one.
pub open spec fn spec_point(
    colors: Seq<u32>,
    depths: Seq<i64>,
    idx: int,
    color: u32,
    depth: i64,
) -> (Seq<u32>, Seq<i64>) {
    if depth < depths[idx] {
        (colors.update(idx, color), depths.update(idx, depth))
    } else {
        (colors, depths)
    }
}

impl Framebuffer {
    /// Both buffers cover exactly the `width * height` pixels.
    pub open spec fn wf(self) -> bool {
        &&& self.width * self.height <= usize::MAX
        &&& self.buffer@.len() == self.width * self.height
        &&& self.zbuffer@.len() == self.width * self.height
    }

    /// The row-major slot of pixel `(x, y)`.
    pub open spec fn spec_idx(self, x: int, y: int) -> int {
        y * self.width + x
    }

    /// A black framebuffer of the given size, with black background, every
    /// depth at the far sentinel.
    pub fn new(width: usize, height: usize) -> (fb: Framebuffer)
        requires
            width * height <= usize::MAX,
        ensures
            fb.wf(),
            fb.width == width,
            fb.height == height,
            fb.background_color == 0,
            fb.current_color == 0,
            forall|i: int| 0 <= i < width * height ==> fb.buffer@[i] == 0,
            forall|i: int| 0 <= i < width * height ==> fb.zbuffer@[i] == DEPTH_FAR,
    {
        let n = width * height;
        Framebuffer {
            width,
            height,
            buffer: filled_u32(n, 0),
            zbuffer: filled_i64(n, DEPTH_FAR),
            background_color: 0,
            current_color: 0,
        }
    }

    /// Sets the color that later `point` calls will write.
    pub fn set_current_color(&mut self, color: u32)
        ensures
            *final(self) == (Framebuffer { current_color: color, ..*old(self) }),
    {
        self.current_color = color;
    }

    /// Sets the color that `clear` will fill the buffer with.
    pub fn set_background_color(&mut self, color: u32)
        ensures
            *final(self) == (Framebuffer { background_color: color, ..*old(self) }),
    {
        self.background_color = color;
    }

    /// Resets every pixel to the background color and every depth slot to
    /// the far sentinel, after which the next write at any pixel succeeds
    /// for every depth strictly below `DEPTH_FAR` (see
    /// `lemma_clear_guarantees_first_write`).
    pub fn clear(&mut self)
        requires
            old(self).wf(),
        ensures
            final(self).wf(),
            final(self).width == old(self).width,
            final(self).height == old(self).height,
            final(self).background_color == old(self).background_color,
            final(self).current_color == old(self).current_color,
            forall|i: int|
                0 <= i < final(self).buffer@.len() ==> final(self).buffer@[i] == old(
                    self,
                ).background_color,
            forall|i: int|
                0 <= i < final(self).zbuffer@.len() ==> final(self).zbuffer@[i] == DEPTH_FAR,
    {
        let n = self.width * self.height;
        self.buffer = filled_u32(n, self.background_color);
        self.zbuffer = filled_i64(n, DEPTH_FAR);
    }

    /// One depth-tested write at pixel `(x, y)`: the current color and the
    /// given depth are stored iff `depth` is strictly nearer than the
    /// stored depth; otherwise the call is a no-op. In particular a write
    /// at `DEPTH_FAR` itself is rejected even against a freshly cleared
    /// slot. Out-of-range coordinates are the caller's contract violation
    /// and are excluded here.
    pub fn point(&mut self, x: usize, y: usize, depth: i64)
        requires
            old(self).wf(),
            x < old(self).width,
            y < old(self).height,
        ensures
            final(self).wf(),
            final(self).width == old(self).width,
            final(self).height == old(self).height,
            final(self).background_color == old(self).background_color,
            final(self).current_color == old(self).current_color,
            (final(self).buffer@, final(self).zbuffer@) == spec_point(
                old(self).buffer@,
                old(self).zbuffer@,
                old(self).spec_idx(x as int, y as int),
                old(self).current_color,
                depth,
            ),
    {
        proof {
            lemma_idx_in_bounds(x as int, y as int, self.width as int, self.height as int);
        }
        let idx = y * self.width + x;
        if depth < self.zbuffer[idx] {
            self.buffer.set(idx, self.current_color);
            self.zbuffer.set(idx, depth);
        }
    }
}

/// A row-major slot lies within the buffer.
proof fn lemma_idx_in_bounds(x: int, y: int, width: int, height: int)
    requires
        0 <= x < width,
        0 <= y < height,
    ensures
        0 <= y * width + x < width * height,
{
    assert(0 <= y * width + x < width * height) by (nonlinear_arith)
        requires
            0 <= x < width,
            0 <= y < height,
    ;
}

fn filled_u32(n: usize, v: u32) -> (out: Vec<u32>)
    ensures
        out@.len() == n,
        forall|i: int| 0 <= i < n ==> out@[i] == v,
{
    let mut out: Vec<u32> = Vec::new();
    let mut k: usize = 0;
    while k < n
        invariant
            k <= n,
            out@.len() == k,
            forall|i: int| 0 <= i < k ==> out@[i] == v,
        decreases n - k,
    {
        out.push(v);
        k = k + 1;
    }
    out
}

fn filled_i64(n: usize, v: i64) -> (out: Vec<i64>)
    ensures
        out@.len() == n,
        forall|i: int| 0 <= i < n ==> out@[i] == v,
{
    let mut out: Vec<i64> = Vec::new();
    let mut k: usize = 0;
    while k < n
        invariant
            k <= n,
            out@.len() == k,
            forall|i: int| 0 <= i < k ==> out@[i] == v,
        decreases n - k,
    {
        out.push(v);
        k = k + 1;
    }
    out
}

/// Writing the same depth at the same pixel twice leaves the buffers exactly
/// as one write leaves them, and a farther depth after a nearer one changes
/// nothing.
pub proof fn lemma_depth_test_idempotent(
    colors: Seq<u32>,
    depths: Seq<i64>,
    idx: int,
    color: u32,
    depth: i64,
    farther: i64,
)
    requires
        0 <= idx < depths.len(),
        colors.len() == depths.len(),
        depth <= farther,
    ensures
        ({
            let (c1, d1) = spec_point(colors, depths, idx, color, depth);
            spec_point(c1, d1, idx, color, depth) == (c1, d1)
        }),
        ({
            let (c1, d1) = spec_point(colors, depths, idx, color, depth);
            spec_point(c1, d1, idx, color, farther) == (c1, d1)
        }),
{
}

/// After a clear, a write at any pixel with any depth strictly nearer than
/// the far sentinel succeeds: the color and depth are stored. The sentinel
/// itself is the one depth for which this does not hold, since the depth
/// test is strict.
pub proof fn lemma_clear_guarantees_first_write(
    colors: Seq<u32>,
    depths: Seq<i64>,
    idx: int,
    color: u32,
    depth: i64,
)
    requires
        0 <= idx < depths.len(),
        colors.len() == depths.len(),
        depths[idx] == DEPTH_FAR,
        depth < DEPTH_FAR,
    ensures
        spec_point(colors, depths, idx, color, depth).0[idx] == color,
        spec_point(colors, depths, idx, color, depth).1[idx] == depth,
{
}

} // verus!
