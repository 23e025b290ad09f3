//! One render call: transform, rasterize and shade a mesh into the
//! framebuffer.
//!
//! The vertex stream is taken in consecutive non-overlapping triples (a
//! trailing partial triple is dropped). A triple is skipped when the
//! transform stage rejects one of its vertices (vanishing homogeneous w)
//! or a screen coordinate leaves the rasterizer's range. Every emitted
//! fragment inside the framebuffer is shaded and written with a depth
//! test; a shader that reports corrupt data aborts the call, leaving the
//! framebuffer as the fragments already drawn left it.

use crate::framebuffer::{spec_point, Framebuffer};
use crate::fragment::Fragment;
use crate::raster::{contains_pixel, spec_tri_in_range, spec_triangle, triangle, vertex_in_range};
use crate::shaders::{shade, spec_fragment_in_range, spec_shade, Material, ShadeError};
use crate::transform::{spec_vertex_shader, vertex_shader};
use crate::uniforms::Uniforms;
use crate::vertex::Vertex;
use vstd::prelude::*;

verus! {

/// A render call that stopped: the selected material's shader met a
/// degenerate vector at some fragment.
#[derive(Clone, Copy, PartialEq, Eq, Structural, Debug)]
pub struct RenderError {
    pub material: Material,
    pub cause: ShadeError,
}

/// The state a render call threads through the framebuffer: both buffers,
/// the current draw color, and whether shading has aborted.
pub struct RenderPass {
    pub colors: Seq<u32>,
    pub depths: Seq<i64>,
    pub current: u32,
    pub error: Option<ShadeError>,
}

/// The state after drawing the first `n` fragments of a batch: each
/// in-bounds, in-range fragment is shaded and depth-test written; a
/// shading error stops the batch.
pub open spec fn spec_draw_fragments(
    s: RenderPass,
    w: int,
    h: int,
    frags: Seq<Fragment>,
    n: int,
    material: Material,
    u: Uniforms,
) -> RenderPass
    decreases n,
{
    if n <= 0 || s.error is Some {
        s
    } else {
        let prev = spec_draw_fragments(s, w, h, frags, n - 1, material, u);
        if prev.error is Some {
            prev
        } else {
            let f = frags[n - 1];
            if 0 <= f.x < w && 0 <= f.y < h && spec_fragment_in_range(f) {
                match spec_shade(material, f, u) {
                    Result::Err(e) => RenderPass { error: Option::Some(e), ..prev },
                    Result::Ok(c) => {
                        let hex = c.spec_to_hex();
                        let (nc, nd) = spec_point(
                            prev.colors,
                            prev.depths,
                            f.y * w + f.x,
                            hex,
                            f.depth,
                        );
                        RenderPass {
                            colors: nc,
                            depths: nd,
                            current: hex,
                            error: Option::None,
                        }
                    },
                }
            } else {
                prev
            }
        }
    }
}

/// The state after the first `k` vertex triples: each triple whose three
/// vertices transform successfully and stay in the rasterizer's range is
/// rasterized and its fragments drawn.
pub open spec fn spec_render_triples(
    s: RenderPass,
    w: int,
    h: int,
    verts: Seq<Vertex>,
    k: int,
    material: Material,
    u: Uniforms,
) -> RenderPass
    decreases k,
{
    if k <= 0 || s.error is Some {
        s
    } else {
        let prev = spec_render_triples(s, w, h, verts, k - 1, material, u);
        if prev.error is Some {
            prev
        } else {
            let o1 = spec_vertex_shader(verts[3 * (k - 1)], u);
            let o2 = spec_vertex_shader(verts[3 * (k - 1) + 1], u);
            let o3 = spec_vertex_shader(verts[3 * (k - 1) + 2], u);
            if o1 is Some && o2 is Some && o3 is Some {
                let a = o1->Some_0;
                let b = o2->Some_0;
                let c = o3->Some_0;
                if spec_tri_in_range(a, b, c) {
                    let frags = spec_triangle(a, b, c);
                    spec_draw_fragments(prev, w, h, frags, frags.len() as int, material, u)
                } else {
                    prev
                }
            } else {
                prev
            }
        }
    }
}

/// The whole render call over a framebuffer's starting state.
pub open spec fn spec_render(
    fb: Framebuffer,
    material: Material,
    u: Uniforms,
    verts: Seq<Vertex>,
) -> RenderPass {
    spec_render_triples(
        RenderPass {
            colors: fb.buffer@,
            depths: fb.zbuffer@,
            current: fb.current_color,
            error: Option::None,
        },
        fb.width as int,
        fb.height as int,
        verts,
        verts.len() as int / 3,
        material,
        u,
    )
}

/// Once a batch has aborted, drawing more fragments changes nothing.
proof fn lemma_fragments_error_sticks(
    s: RenderPass,
    w: int,
    h: int,
    frags: Seq<Fragment>,
    n: int,
    m: int,
    material: Material,
    u: Uniforms,
)
    requires
        0 <= n <= m,
        spec_draw_fragments(s, w, h, frags, n, material, u).error is Some,
    ensures
        spec_draw_fragments(s, w, h, frags, m, material, u) == spec_draw_fragments(
            s,
            w,
            h,
            frags,
            n,
            material,
            u,
        ),
    decreases m - n,
{
    if m > n {
        lemma_fragments_error_sticks(s, w, h, frags, n, m - 1, material, u);
    }
}

/// Once a render call has aborted, later triples change nothing.
proof fn lemma_triples_error_sticks(
    s: RenderPass,
    w: int,
    h: int,
    verts: Seq<Vertex>,
    k: int,
    m: int,
    material: Material,
    u: Uniforms,
)
    requires
        0 <= k <= m,
        spec_render_triples(s, w, h, verts, k, material, u).error is Some,
    ensures
        spec_render_triples(s, w, h, verts, m, material, u) == spec_render_triples(
            s,
            w,
            h,
            verts,
            k,
            material,
            u,
        ),
    decreases m - k,
{
    if m > k {
        lemma_triples_error_sticks(s, w, h, verts, k, m - 1, material, u);
    }
}

/// Fragment `f` is the one kind of fragment the fold writes at buffer slot
/// `idx`: on screen, in shader range, and at that slot.
pub open spec fn spec_writes_slot(f: Fragment, w: int, h: int, idx: int) -> bool {
    0 <= f.x < w && 0 <= f.y < h && spec_fragment_in_range(f) && f.y * w + f.x == idx
}

/// The fragments one vertex triple contributes: the scan of its triangle
/// when all three vertices transform and stay in the rasterizer's range,
/// nothing otherwise.
pub open spec fn spec_triple_frags(verts: Seq<Vertex>, t: int, u: Uniforms) -> Seq<Fragment> {
    let o1 = spec_vertex_shader(verts[3 * t], u);
    let o2 = spec_vertex_shader(verts[3 * t + 1], u);
    let o3 = spec_vertex_shader(verts[3 * t + 2], u);
    if o1 is Some && o2 is Some && o3 is Some && spec_tri_in_range(
        o1->Some_0,
        o2->Some_0,
        o3->Some_0,
    ) {
        spec_triangle(o1->Some_0, o2->Some_0, o3->Some_0)
    } else {
        Seq::empty()
    }
}

/// A batch leaves a slot alone when none of its fragments writes there.
proof fn lemma_fragments_untouched(
    s: RenderPass,
    w: int,
    h: int,
    frags: Seq<Fragment>,
    n: int,
    material: Material,
    u: Uniforms,
    idx: int,
)
    requires
        0 <= idx < s.depths.len(),
        s.colors.len() == s.depths.len(),
        w * h <= s.depths.len(),
        forall|i: int| 0 <= i < n ==> !spec_writes_slot(#[trigger] frags[i], w, h, idx),
    ensures
        ({
            let out = spec_draw_fragments(s, w, h, frags, n, material, u);
            &&& out.colors.len() == s.colors.len()
            &&& out.depths.len() == s.depths.len()
            &&& out.colors[idx] == s.colors[idx]
            &&& out.depths[idx] == s.depths[idx]
        }),
    decreases n,
{
    if n > 0 && s.error is None {
        lemma_fragments_untouched(s, w, h, frags, n - 1, material, u, idx);
        assert(!spec_writes_slot(frags[n - 1], w, h, idx));
        let prev = spec_draw_fragments(s, w, h, frags, n - 1, material, u);
        if prev.error is None {
            let f = frags[n - 1];
            if 0 <= f.x < w && 0 <= f.y < h && spec_fragment_in_range(f) {
                assert(0 <= f.y * w + f.x < w * h) by (nonlinear_arith)
                    requires
                        0 <= f.x < w,
                        0 <= f.y < h,
                ;
                assert(f.y * w + f.x != idx);
            }
        }
    }
}

/// The whole pass leaves a slot alone when no processed triple's fragment
/// writes there.
proof fn lemma_triples_untouched(
    s: RenderPass,
    w: int,
    h: int,
    verts: Seq<Vertex>,
    k: int,
    material: Material,
    u: Uniforms,
    idx: int,
)
    requires
        0 <= idx < s.depths.len(),
        s.colors.len() == s.depths.len(),
        w * h <= s.depths.len(),
        forall|t: int, i: int|
            0 <= t < k && 0 <= i < spec_triple_frags(verts, t, u).len() ==> !spec_writes_slot(
                #[trigger] spec_triple_frags(verts, t, u)[i],
                w,
                h,
                idx,
            ),
    ensures
        ({
            let out = spec_render_triples(s, w, h, verts, k, material, u);
            &&& out.colors.len() == s.colors.len()
            &&& out.depths.len() == s.depths.len()
            &&& out.colors[idx] == s.colors[idx]
            &&& out.depths[idx] == s.depths[idx]
        }),
    decreases k,
{
    if k > 0 && s.error is None {
        lemma_triples_untouched(s, w, h, verts, k - 1, material, u, idx);
        let prev = spec_render_triples(s, w, h, verts, k - 1, material, u);
        if prev.error is None {
            let frags = spec_triple_frags(verts, k - 1, u);
            assert(forall|i: int|
                0 <= i < frags.len() ==> !spec_writes_slot(#[trigger] frags[i], w, h, idx));
            lemma_fragments_untouched(prev, w, h, frags, frags.len() as int, material, u, idx);
        }
    }
}

/// A pixel no emitted fragment writes keeps its color and depth across a
/// whole render call; in particular, after a clear, every such in-bounds
/// pixel still holds exactly the background color and the far sentinel.
pub proof fn lemma_render_untouched_pixel(
    fb: Framebuffer,
    material: Material,
    u: Uniforms,
    verts: Seq<Vertex>,
    idx: int,
)
    requires
        fb.wf(),
        0 <= idx < fb.zbuffer@.len(),
        forall|t: int, i: int|
            0 <= t < verts.len() as int / 3 && 0 <= i < spec_triple_frags(verts, t, u).len()
                ==> !spec_writes_slot(
                #[trigger] spec_triple_frags(verts, t, u)[i],
                fb.width as int,
                fb.height as int,
                idx,
            ),
    ensures
        spec_render(fb, material, u, verts).colors[idx] == fb.buffer@[idx],
        spec_render(fb, material, u, verts).depths[idx] == fb.zbuffer@[idx],
{
    lemma_triples_untouched(
        RenderPass {
            colors: fb.buffer@,
            depths: fb.zbuffer@,
            current: fb.current_color,
            error: Option::None,
        },
        fb.width as int,
        fb.height as int,
        verts,
        verts.len() as int / 3,
        material,
        u,
        idx,
    );
}

/// A pixel of the framebuffer that no triple's triangle covers keeps its
/// color and depth across a whole render call. With the rasterizer's
/// coverage law (`lemma_triangle_coverage`) and `clear`'s contract, every
/// in-bounds pixel outside all the rendered triangles still holds the
/// background color and the far sentinel after a cleared render.
pub proof fn lemma_render_uncovered_pixel(
    fb: Framebuffer,
    material: Material,
    u: Uniforms,
    verts: Seq<Vertex>,
    px: int,
    py: int,
)
    requires
        fb.wf(),
        0 <= px < fb.width,
        0 <= py < fb.height,
        forall|t: int|
            0 <= t < verts.len() as int / 3 ==> !contains_pixel(
                #[trigger] spec_triple_frags(verts, t, u),
                px,
                py,
            ),
    ensures
        ({
            let idx = py * fb.width + px;
            &&& spec_render(fb, material, u, verts).colors[idx] == fb.buffer@[idx]
            &&& spec_render(fb, material, u, verts).depths[idx] == fb.zbuffer@[idx]
        }),
{
    let w = fb.width as int;
    let h = fb.height as int;
    let idx = py * w + px;
    assert(0 <= py * w + px < w * h) by (nonlinear_arith)
        requires
            0 <= px < w,
            0 <= py < h,
    ;
    assert forall|t: int, i: int|
        0 <= t < verts.len() as int / 3 && 0 <= i < spec_triple_frags(verts, t, u).len()
        implies !spec_writes_slot(#[trigger] spec_triple_frags(verts, t, u)[i], w, h, idx) by {
        let f = spec_triple_frags(verts, t, u)[i];
        if spec_writes_slot(f, w, h, idx) {
            assert(f.x == px && f.y == py) by (nonlinear_arith)
                requires
                    0 <= f.x < w,
                    0 <= px < w,
                    0 <= f.y,
                    0 <= py,
                    f.y * w + f.x == py * w + px,
            ;
            assert(contains_pixel(spec_triple_frags(verts, t, u), px, py));
        }
    }
    lemma_render_untouched_pixel(fb, material, u, verts, idx);
}

/// Drawing a batch never raises a stored depth.
proof fn lemma_fragments_depth_monotone(
    s: RenderPass,
    w: int,
    h: int,
    frags: Seq<Fragment>,
    n: int,
    material: Material,
    u: Uniforms,
    idx: int,
)
    requires
        0 <= idx < s.depths.len(),
        s.colors.len() == s.depths.len(),
        w * h <= s.depths.len(),
    ensures
        ({
            let out = spec_draw_fragments(s, w, h, frags, n, material, u);
            &&& out.depths.len() == s.depths.len()
            &&& out.colors.len() == s.colors.len()
            &&& out.depths[idx] <= s.depths[idx]
        }),
    decreases n,
{
    if n > 0 && s.error is None {
        lemma_fragments_depth_monotone(s, w, h, frags, n - 1, material, u, idx);
        let prev = spec_draw_fragments(s, w, h, frags, n - 1, material, u);
        if prev.error is None {
            let f = frags[n - 1];
            if 0 <= f.x < w && 0 <= f.y < h && spec_fragment_in_range(f) {
                assert(0 <= f.y * w + f.x < w * h) by (nonlinear_arith)
                    requires
                        0 <= f.x < w,
                        0 <= f.y < h,
                ;
            }
        }
    }
}

/// A whole pass never raises a stored depth.
proof fn lemma_triples_depth_monotone(
    s: RenderPass,
    w: int,
    h: int,
    verts: Seq<Vertex>,
    k: int,
    material: Material,
    u: Uniforms,
    idx: int,
)
    requires
        0 <= idx < s.depths.len(),
        s.colors.len() == s.depths.len(),
        w * h <= s.depths.len(),
    ensures
        ({
            let out = spec_render_triples(s, w, h, verts, k, material, u);
            &&& out.depths.len() == s.depths.len()
            &&& out.colors.len() == s.colors.len()
            &&& out.depths[idx] <= s.depths[idx]
        }),
    decreases k,
{
    if k > 0 && s.error is None {
        lemma_triples_depth_monotone(s, w, h, verts, k - 1, material, u, idx);
        let prev = spec_render_triples(s, w, h, verts, k - 1, material, u);
        if prev.error is None {
            let frags = spec_triple_frags(verts, k - 1, u);
            lemma_fragments_depth_monotone(prev, w, h, frags, frags.len() as int, material, u, idx);
        }
    }
}

/// The depth test only ever brings a pixel nearer: across a whole render
/// call no stored depth increases, so a pass whose fragments all sit
/// farther than what a pixel already holds cannot change that pixel's
/// depth.
pub proof fn lemma_render_depth_monotone(
    fb: Framebuffer,
    material: Material,
    u: Uniforms,
    verts: Seq<Vertex>,
    idx: int,
)
    requires
        fb.wf(),
        0 <= idx < fb.zbuffer@.len(),
    ensures
        spec_render(fb, material, u, verts).depths.len() == fb.zbuffer@.len(),
        spec_render(fb, material, u, verts).depths[idx] <= fb.zbuffer@[idx],
{
    lemma_triples_depth_monotone(
        RenderPass {
            colors: fb.buffer@,
            depths: fb.zbuffer@,
            current: fb.current_color,
            error: Option::None,
        },
        fb.width as int,
        fb.height as int,
        verts,
        verts.len() as int / 3,
        material,
        u,
        idx,
    );
}

/// The nearest depth among the first `n` fragments that write slot `idx`,
/// folded onto a starting depth.
pub open spec fn spec_min_frag_depth(
    frags: Seq<Fragment>,
    n: int,
    w: int,
    h: int,
    idx: int,
    acc: i64,
) -> i64
    decreases n,
{
    if n <= 0 {
        acc
    } else {
        let prev = spec_min_frag_depth(frags, n - 1, w, h, idx, acc);
        let f = frags[n - 1];
        if spec_writes_slot(f, w, h, idx) && f.depth < prev {
            f.depth
        } else {
            prev
        }
    }
}

/// The nearest depth among the fragments of the first `k` triples that
/// write slot `idx`, folded onto a starting depth.
pub open spec fn spec_min_triple_depth(
    verts: Seq<Vertex>,
    k: int,
    w: int,
    h: int,
    idx: int,
    acc: i64,
    u: Uniforms,
) -> i64
    decreases k,
{
    if k <= 0 {
        acc
    } else {
        let prev = spec_min_triple_depth(verts, k - 1, w, h, idx, acc, u);
        let frags = spec_triple_frags(verts, k - 1, u);
        spec_min_frag_depth(frags, frags.len() as int, w, h, idx, prev)
    }
}

/// In an error-free batch, the stored depth at a slot ends at the minimum
/// of its starting depth and the depths of the fragments writing there.
proof fn lemma_fragments_depth_min(
    s: RenderPass,
    w: int,
    h: int,
    frags: Seq<Fragment>,
    n: int,
    material: Material,
    u: Uniforms,
    idx: int,
)
    requires
        0 <= idx < s.depths.len(),
        s.colors.len() == s.depths.len(),
        w * h <= s.depths.len(),
        spec_draw_fragments(s, w, h, frags, n, material, u).error is None,
    ensures
        ({
            let out = spec_draw_fragments(s, w, h, frags, n, material, u);
            &&& out.depths.len() == s.depths.len()
            &&& out.colors.len() == s.colors.len()
            &&& out.depths[idx] == spec_min_frag_depth(frags, n, w, h, idx, s.depths[idx])
        }),
    decreases n,
{
    if n > 0 && s.error is None {
        let prev = spec_draw_fragments(s, w, h, frags, n - 1, material, u);
        assert(prev.error is None);
        lemma_fragments_depth_min(s, w, h, frags, n - 1, material, u, idx);
        let f = frags[n - 1];
        if 0 <= f.x < w && 0 <= f.y < h && spec_fragment_in_range(f) {
            assert(0 <= f.y * w + f.x < w * h) by (nonlinear_arith)
                requires
                    0 <= f.x < w,
                    0 <= f.y < h,
            ;
        }
    }
}

/// In an error-free pass, the stored depth at a slot ends at the minimum
/// of its starting depth and the depths of all fragments writing there.
proof fn lemma_triples_depth_min(
    s: RenderPass,
    w: int,
    h: int,
    verts: Seq<Vertex>,
    k: int,
    material: Material,
    u: Uniforms,
    idx: int,
)
    requires
        0 <= idx < s.depths.len(),
        s.colors.len() == s.depths.len(),
        w * h <= s.depths.len(),
        spec_render_triples(s, w, h, verts, k, material, u).error is None,
    ensures
        ({
            let out = spec_render_triples(s, w, h, verts, k, material, u);
            &&& out.depths.len() == s.depths.len()
            &&& out.colors.len() == s.colors.len()
            &&& out.depths[idx] == spec_min_triple_depth(verts, k, w, h, idx, s.depths[idx], u)
        }),
    decreases k,
{
    if k > 0 && s.error is None {
        let prev = spec_render_triples(s, w, h, verts, k - 1, material, u);
        assert(prev.error is None);
        lemma_triples_depth_min(s, w, h, verts, k - 1, material, u, idx);
        let frags = spec_triple_frags(verts, k - 1, u);
        if prev.error is None {
            let o1 = spec_vertex_shader(verts[3 * (k - 1)], u);
            let o2 = spec_vertex_shader(verts[3 * (k - 1) + 1], u);
            let o3 = spec_vertex_shader(verts[3 * (k - 1) + 2], u);
            if o1 is Some && o2 is Some && o3 is Some && spec_tri_in_range(
                o1->Some_0,
                o2->Some_0,
                o3->Some_0,
            ) {
                lemma_fragments_depth_min(
                    prev,
                    w,
                    h,
                    frags,
                    frags.len() as int,
                    material,
                    u,
                    idx,
                );
            } else {
                assert(frags =~= Seq::<Fragment>::empty());
            }
        }
    }
}

/// The depth test resolves visibility exactly: when a render call runs to
/// completion, each slot's final depth is the minimum of what it held
/// before and the depths of every emitted fragment that writes it. In
/// particular a fragment no nearer than what a pixel already holds (a
/// farther write after a nearer one) leaves that pixel's depth unchanged.
pub proof fn lemma_render_depth_min(
    fb: Framebuffer,
    material: Material,
    u: Uniforms,
    verts: Seq<Vertex>,
    idx: int,
)
    requires
        fb.wf(),
        0 <= idx < fb.zbuffer@.len(),
        spec_render(fb, material, u, verts).error is None,
    ensures
        spec_render(fb, material, u, verts).depths[idx] == spec_min_triple_depth(
            verts,
            verts.len() as int / 3,
            fb.width as int,
            fb.height as int,
            idx,
            fb.zbuffer@[idx],
            u,
        ),
{
    lemma_triples_depth_min(
        RenderPass {
            colors: fb.buffer@,
            depths: fb.zbuffer@,
            current: fb.current_color,
            error: Option::None,
        },
        fb.width as int,
        fb.height as int,
        verts,
        verts.len() as int / 3,
        material,
        u,
        idx,
    );
}

/// Renders one mesh with one material into the framebuffer; the result is
/// exactly the fold `spec_render` describes, and the call fails precisely
/// when that fold meets a shading error.
pub fn render(
    framebuffer: &mut Framebuffer,
    uniforms: &Uniforms,
    vertex_array: &Vec<Vertex>,
    material: Material,
) -> (r: Result<(), RenderError>)
    requires
        old(framebuffer).wf(),
        uniforms.wf(),
    ensures
        final(framebuffer).wf(),
        final(framebuffer).width == old(framebuffer).width,
        final(framebuffer).height == old(framebuffer).height,
        final(framebuffer).background_color == old(framebuffer).background_color,
        ({
            let out = spec_render(*old(framebuffer), material, *uniforms, vertex_array@);
            &&& final(framebuffer).buffer@ == out.colors
            &&& final(framebuffer).zbuffer@ == out.depths
            &&& final(framebuffer).current_color == out.current
            &&& (match r {
                Result::Ok(unit) => out.error is None,
                Result::Err(e) => out.error == Option::Some(e.cause) && e.material == material,
            })
        }),
{
    let ghost init = RenderPass {
        colors: framebuffer.buffer@,
        depths: framebuffer.zbuffer@,
        current: framebuffer.current_color,
        error: Option::None,
    };
    let ghost w = framebuffer.width as int;
    let ghost h = framebuffer.height as int;
    let n = vertex_array.len() / 3;
    let mut k: usize = 0;
    while k < n
        invariant
            framebuffer.wf(),
            uniforms.wf(),
            framebuffer.width == old(framebuffer).width,
            framebuffer.height == old(framebuffer).height,
            framebuffer.background_color == old(framebuffer).background_color,
            w == framebuffer.width as int,
            h == framebuffer.height as int,
            n == vertex_array.len() / 3,
            k <= n,
            init == (RenderPass {
                colors: old(framebuffer).buffer@,
                depths: old(framebuffer).zbuffer@,
                current: old(framebuffer).current_color,
                error: Option::<ShadeError>::None,
            }),
            ({
                let st = spec_render_triples(init, w, h, vertex_array@, k as int, material,
                    *uniforms);
                &&& st.error is None
                &&& framebuffer.buffer@ == st.colors
                &&& framebuffer.zbuffer@ == st.depths
                &&& framebuffer.current_color == st.current
            }),
        decreases n - k,
    {
        let ghost at_start = spec_render_triples(init, w, h, vertex_array@, k as int, material,
            *uniforms);
        let o1 = vertex_shader(&vertex_array[3 * k], uniforms);
        let o2 = vertex_shader(&vertex_array[3 * k + 1], uniforms);
        let o3 = vertex_shader(&vertex_array[3 * k + 2], uniforms);
        match (o1, o2, o3) {
            (Option::Some(a), Option::Some(b), Option::Some(c)) => {
                if vertex_in_range(&a) && vertex_in_range(&b) && vertex_in_range(&c) {
                    let frags = triangle(&a, &b, &c);
                    let mut j: usize = 0;
                    while j < frags.len()
                        invariant
                            framebuffer.wf(),
                            uniforms.wf(),
                            framebuffer.width == old(framebuffer).width,
                            framebuffer.height == old(framebuffer).height,
                            framebuffer.background_color == old(framebuffer).background_color,
                            w == framebuffer.width as int,
                            h == framebuffer.height as int,
                            j <= frags.len(),
                            at_start.error is None,
                            k < n,
                            n == vertex_array@.len() as int / 3,
                            init == (RenderPass {
                                colors: old(framebuffer).buffer@,
                                depths: old(framebuffer).zbuffer@,
                                current: old(framebuffer).current_color,
                                error: Option::<ShadeError>::None,
                            }),
                            at_start == spec_render_triples(init, w, h, vertex_array@, k as int,
                                material, *uniforms),
                            spec_vertex_shader(vertex_array@[3 * k as int], *uniforms)
                                == Option::Some(a),
                            spec_vertex_shader(vertex_array@[3 * k as int + 1], *uniforms)
                                == Option::Some(b),
                            spec_vertex_shader(vertex_array@[3 * k as int + 2], *uniforms)
                                == Option::Some(c),
                            spec_tri_in_range(a, b, c),
                            frags@ == spec_triangle(a, b, c),
                            ({
                                let st = spec_draw_fragments(at_start, w, h, frags@, j as int,
                                    material, *uniforms);
                                &&& st.error is None
                                &&& framebuffer.buffer@ == st.colors
                                &&& framebuffer.zbuffer@ == st.depths
                                &&& framebuffer.current_color == st.current
                            }),
                        decreases frags.len() - j,
                    {
                        let f = frags[j];
                        let in_bounds = 0 <= f.x && (f.x as u64) < (framebuffer.width as u64) && 0
                            <= f.y && (f.y as u64) < (framebuffer.height as u64);
                        if in_bounds && crate::shaders::fragment_in_range(&f) {
                            match shade(material, &f, uniforms) {
                                Result::Err(e) => {
                                    proof {
                                        let st = spec_draw_fragments(at_start, w, h, frags@,
                                            j as int + 1, material, *uniforms);
                                        assert(st.error == Option::Some(e));
                                        lemma_fragments_error_sticks(at_start, w, h, frags@,
                                            j as int + 1, frags@.len() as int, material, *uniforms);
                                        assert(spec_render_triples(init, w, h, vertex_array@,
                                            k as int + 1, material, *uniforms)
                                            == spec_draw_fragments(at_start, w, h, frags@,
                                                frags@.len() as int, material, *uniforms));
                                        lemma_triples_error_sticks(init, w, h, vertex_array@,
                                            k as int + 1, vertex_array@.len() as int / 3, material,
                                            *uniforms);
                                    }
                                    return Result::Err(RenderError { material, cause: e });
                                },
                                Result::Ok(c) => {
                                    let hex = c.to_hex();
                                    framebuffer.set_current_color(hex);
                                    framebuffer.point(f.x as usize, f.y as usize, f.depth);
                                },
                            }
                        }
                        j = j + 1;
                    }
                }
            },
            _ => {},
        }
        k = k + 1;
    }
    Result::Ok(())
}

} // verus!
