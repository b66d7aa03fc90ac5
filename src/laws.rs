//! Laws of the batcher, stated over the transitions that its operations' own
//! contracts use.
use vstd::prelude::*;
use crate::batcher::{appended, drawable, flushed, flushes_before, BatchView};
use crate::quad::{corner_uvs, quad_indices, UvRect, QUAD_SIZE};
use crate::texture::Texture;

verus! {

/// The state after drawing each of `quads`, in order, as a quad with `t`.
pub open spec fn drawn_all(v: BatchView, t: Texture, quads: Seq<Seq<u32>>) -> BatchView
    decreases quads.len(),
{
    if quads.len() == 0 {
        v
    } else {
        appended(drawn_all(v, t, quads.drop_last()), t, quads.last(), quad_indices())
    }
}

/// The state after `end`: the remainder flushed, the session closed.
pub open spec fn ended(v: BatchView) -> BatchView {
    BatchView { drawing: false, texture: None, ..flushed(v) }
}

/// When the texture changes between two draws, the second draw first flushes
/// the batch the first one staged: one more draw call between the two.
pub proof fn law_texture_change_flushes(
    v: BatchView,
    ta: Texture,
    va: Seq<u32>,
    ia: Seq<u16>,
    tb: Texture,
    vb: Seq<u32>,
    ib: Seq<u16>,
)
    requires
        v.inv(),
        drawable(v, va, ia),
        drawable(v, vb, ib),
        va.len() > 0,
        ta.handle != tb.handle,
    ensures
        flushes_before(appended(v, ta, va, ia), tb, vb.len(), ib.len()),
        appended(appended(v, ta, va, ia), tb, vb, ib).draw_calls == appended(v, ta, va, ia).draw_calls
            + 1,
{
}

/// Two quads appended to an empty batch with room for both: the second quad's
/// indices are the first quad's, each moved on by four.
pub proof fn law_index_rebasing(v: BatchView, t: Texture, q1: Seq<u32>, q2: Seq<u32>)
    requires
        v.inv(),
        v.vertices.len() == 0,
        v.max_vertices >= 8,
        q1.len() == QUAD_SIZE,
        q2.len() == QUAD_SIZE,
    ensures
        appended(appended(v, t, q1, quad_indices()), t, q2, quad_indices()).indices.len() == 12,
        forall|i: int|
            0 <= i < 6 ==> #[trigger] appended(
                appended(v, t, q1, quad_indices()),
                t,
                q2,
                quad_indices(),
            ).indices[6 + i] == appended(appended(v, t, q1, quad_indices()), t, q2, quad_indices()).indices[i]
                + 4,
{
    let v1 = appended(v, t, q1, quad_indices());
    let v2 = appended(v1, t, q2, quad_indices());
    assert(v1.indices =~= crate::batcher::rebased(quad_indices(), 0));
    assert(v1.vertices.len() == 32);
    assert(v2.indices =~= v1.indices + crate::batcher::rebased(quad_indices(), 4));
}

/// Quads drawn with one texture from an empty batch: the staged quads and the
/// draw calls issued account for every quad, with at most a full batch staged.
proof fn lemma_drawn_all(v: BatchView, t: Texture, quads: Seq<Seq<u32>>)
    requires
        v.inv(),
        v.vertices.len() == 0,
        forall|k: int| 0 <= k < quads.len() ==> (#[trigger] quads[k]).len() == QUAD_SIZE,
    ensures
        ({
            let w = drawn_all(v, t, quads);
            let q = v.max_vertices / 4;
            &&& w.max_vertices == v.max_vertices
            &&& w.vertices.len() % 32 == 0
            &&& w.indices.len() == 6 * (w.vertices.len() / 32)
            &&& (w.draw_calls - v.draw_calls) * q + w.vertices.len() / 32 == quads.len()
            &&& w.draw_calls >= v.draw_calls
            &&& w.vertices.len() / 32 <= q
            &&& (quads.len() > 0 ==> w.vertices.len() > 0 && (w.texture matches Some(x)
                && x.handle == t.handle))
            &&& (quads.len() == 0 ==> w == v)
        }),
    decreases quads.len(),
{
    if quads.len() > 0 {
        let rest = quads.drop_last();
        assert forall|k: int| 0 <= k < rest.len() implies (#[trigger] rest[k]).len() == QUAD_SIZE by {
            assert(rest[k] == quads[k]);
        }
        lemma_drawn_all(v, t, rest);
        let w = drawn_all(v, t, rest);
        let q = v.max_vertices / 4;
        let s = w.vertices.len() / 32;
        let n = quads.last();
        assert(n == quads[quads.len() - 1]);
        let w2 = drawn_all(v, t, quads);
        assert(w2 == appended(w, t, n, quad_indices()));
        if rest.len() == 0 {
            assert(w == v);
            assert(w2.vertices.len() == 32);
            assert(w2.indices.len() == 6);
            assert(w2.draw_calls == v.draw_calls);
        } else {
            assert(!crate::batcher::texture_changes(w, t));
            if s == q {
                assert(w.vertices.len() + 32 > 8 * w.max_vertices);
                assert(w2.vertices.len() == 32);
                assert(w2.indices.len() == 6);
                assert(w2.draw_calls == w.draw_calls + 1);
                assert((w2.draw_calls - v.draw_calls) * q == (w.draw_calls - v.draw_calls) * q + q)
                    by (nonlinear_arith)
                    requires
                        w2.draw_calls == w.draw_calls + 1,
                ;
            } else {
                assert(w.vertices.len() + 32 <= 8 * w.max_vertices);
                assert(w.indices.len() + 6 <= 3 * w.max_vertices);
                assert(w2.vertices.len() == w.vertices.len() + 32);
                assert(w2.indices.len() == w.indices.len() + 6);
                assert(w2.draw_calls == w.draw_calls);
            }
        }
    }
}

/// Quads drawn with one texture in a fresh session, then the session ended:
/// however many quads overflow the room, at least one draw call is issued per
/// room's worth of vertices, `draw_calls * max_vertices >= 4 * quads`, that is
/// `draw_calls >= ceil(4 * quads / max_vertices)`.
pub proof fn law_capacity_draw_calls(v: BatchView, t: Texture, quads: Seq<Seq<u32>>)
    requires
        v.inv(),
        v.drawing,
        v.vertices.len() == 0,
        v.draw_calls == 0,
        forall|k: int| 0 <= k < quads.len() ==> (#[trigger] quads[k]).len() == QUAD_SIZE,
    ensures
        ended(drawn_all(v, t, quads)).draw_calls * v.max_vertices >= 4 * quads.len(),
{
    lemma_drawn_all(v, t, quads);
    let w = drawn_all(v, t, quads);
    let e = ended(w);
    let q = v.max_vertices / 4;
    let m = v.max_vertices;
    let d = w.draw_calls;
    let s = w.vertices.len() / 32;
    if quads.len() > 0 {
        assert(e.draw_calls == d + 1);
        assert(d * q + s == quads.len());
        assert((d + 1) * q >= quads.len()) by (nonlinear_arith)
            requires
                d * q + s == quads.len(),
                s <= q,
                d >= 0,
        ;
        assert(4 * q <= m);
        assert((d + 1) * m >= 4 * quads.len()) by (nonlinear_arith)
            requires
                (d + 1) * q >= quads.len(),
                4 * q <= m,
                d >= 0,
        ;
    }
}

/// With the y axis pointing down, an unrotated region's corners take the
/// coordinates they would take with the y axis up and `v1`, `v2` exchanged.
pub proof fn law_y_flip_swaps_v(uv: UvRect)
    ensures
        corner_uvs(uv, true, false) == corner_uvs(
            UvRect { v1: uv.v2, v2: uv.v1, ..uv },
            false,
            false,
        ),
{
    assert(corner_uvs(uv, true, false) =~= corner_uvs(
        UvRect { v1: uv.v2, v2: uv.v1, ..uv },
        false,
        false,
    ));
}

} // verus!
