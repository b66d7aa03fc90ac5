use gdx2d::batcher::{Flush, PolygonBatch};
use gdx2d::mesh::DrawCall;
use gdx2d::quad::{ColorBits, QuadCorners, UvRect};
use gdx2d::texture::Texture;

fn bits(x: f32) -> u32 {
    x.to_bits()
}

fn rect(x: f32, y: f32, w: f32, h: f32) -> QuadCorners {
    QuadCorners {
        x1: bits(x),
        y1: bits(y),
        x2: bits(x + w),
        y2: bits(y),
        x3: bits(x + w),
        y3: bits(y + h),
        x4: bits(x),
        y4: bits(y + h),
    }
}

fn tex(handle: u32) -> Texture {
    Texture::new(handle, 10, 10)
}

fn draw_rect(batch: &mut PolygonBatch, t: &Texture, x: f32, y: f32) -> Option<Flush> {
    batch.draw_with_options(t, &rect(x, y, 10.0, 10.0), &UvRect::full(), false)
}

fn words_of(bytes: &[u8]) -> Vec<u32> {
    bytes
        .chunks(4)
        .map(|c| u32::from_le_bytes([c[0], c[1], c[2], c[3]]))
        .collect()
}

fn halves_of(bytes: &[u8]) -> Vec<u16> {
    bytes.chunks(2).map(|c| u16::from_le_bytes([c[0], c[1]])).collect()
}

#[test]
fn new_batch_defaults() {
    let batch = PolygonBatch::new(8);
    assert!(!batch.is_drawing());
    assert!(batch.y_down());
    assert_eq!(batch.get_draw_calls(), 0);
    assert_eq!(batch.blend_function(), (0x0302, 0x0303, 0x0302, 0x0303));
    assert_eq!(batch.color(), ColorBits::new(bits(1.0), bits(1.0), bits(1.0), bits(1.0)));
    assert_eq!(batch.projection(), [0u32; 16]);
}

#[test]
fn create_has_default_room() {
    let mut batch = PolygonBatch::create();
    batch.begin();
    let t = tex(1);
    // 10920 vertices hold 2730 quads; the next one overflows.
    for i in 0..2730 {
        assert!(draw_rect(&mut batch, &t, i as f32, 0.0).is_none());
    }
    assert!(draw_rect(&mut batch, &t, 0.0, 0.0).is_some());
    assert_eq!(batch.get_draw_calls(), 1);
}

#[test]
fn setters_are_observed() {
    let mut batch = PolygonBatch::new(8);
    batch.set_y_down(false);
    batch.set_color(&ColorBits::new(1, 2, 3, 4));
    batch.set_blend_function(7, 9);
    assert_eq!(batch.blend_function(), (7, 9, 7, 9));
    batch.set_blend_function_separate(1, 2, 3, 4);
    assert_eq!(batch.blend_function(), (1, 2, 3, 4));
    let mut m = [0u32; 16];
    for (i, w) in m.iter_mut().enumerate() {
        *w = i as u32 * 3;
    }
    batch.set_projection(&m);
    assert_eq!(batch.projection(), m);
    assert!(!batch.y_down());
    assert_eq!(batch.color(), ColorBits::new(1, 2, 3, 4));
}

#[test]
fn draw_calls_zero_after_begin() {
    let mut batch = PolygonBatch::new(8);
    let t = tex(1);
    batch.begin();
    draw_rect(&mut batch, &t, 0.0, 0.0);
    assert!(batch.end().is_some());
    assert_eq!(batch.get_draw_calls(), 1);
    batch.begin();
    assert!(batch.is_drawing());
    assert_eq!(batch.get_draw_calls(), 0);
}

#[test]
fn texture_change_flushes() {
    let mut batch = PolygonBatch::new(64);
    let a = tex(1);
    let b = tex(2);
    batch.begin();
    assert!(draw_rect(&mut batch, &a, 0.0, 0.0).is_none());
    let before = batch.get_draw_calls();
    let f = draw_rect(&mut batch, &b, 20.0, 0.0).expect("texture change flushes");
    assert_eq!(f.texture.handle, 1);
    assert_eq!(batch.get_draw_calls(), before + 1);
    let last = batch.end().expect("end flushes the remainder");
    assert_eq!(last.texture.handle, 2);
    assert_eq!(batch.get_draw_calls(), 2);
}

#[test]
fn same_handle_is_same_texture() {
    let mut batch = PolygonBatch::new(64);
    batch.begin();
    assert!(draw_rect(&mut batch, &Texture::new(5, 10, 10), 0.0, 0.0).is_none());
    assert!(draw_rect(&mut batch, &Texture::new(5, 32, 32), 0.0, 0.0).is_none());
    assert_eq!(batch.get_draw_calls(), 0);
    assert!(Texture::new(5, 1, 1) == Texture::new(5, 2, 2));
    assert!(Texture::new(5, 1, 1) != Texture::new(6, 1, 1));
}

#[test]
fn capacity_overflow_flushes() {
    // Room for 2 quads; 5 quads need 3 batches.
    let mut batch = PolygonBatch::new(8);
    let t = tex(1);
    batch.begin();
    let mut flushes = 0;
    for i in 0..5 {
        if draw_rect(&mut batch, &t, i as f32 * 20.0, 0.0).is_some() {
            flushes += 1;
        }
    }
    if batch.end().is_some() {
        flushes += 1;
    }
    assert_eq!(flushes, 3);
    assert_eq!(batch.get_draw_calls(), 3);
    // ceil(5 * 4 / 8) = 3
    assert!(batch.get_draw_calls() >= 3);
}

#[test]
fn capacity_with_odd_room() {
    // Room for 9 vertices holds 2 quads per batch.
    let mut batch = PolygonBatch::new(9);
    let t = tex(1);
    batch.begin();
    for i in 0..7 {
        draw_rect(&mut batch, &t, i as f32, 0.0);
    }
    batch.end();
    assert_eq!(batch.get_draw_calls(), 4);
    assert!(batch.get_draw_calls() * 9 >= 4 * 7);
}

#[test]
fn index_rebasing() {
    let mut batch = PolygonBatch::new(64);
    let t = tex(1);
    batch.begin();
    draw_rect(&mut batch, &t, 0.0, 0.0);
    draw_rect(&mut batch, &t, 20.0, 0.0);
    let f = batch.flush().expect("staged quads flush");
    let idx = halves_of(&f.draw.upload.indices.expect("indices uploaded"));
    assert_eq!(idx, vec![0, 1, 2, 2, 3, 0, 4, 5, 6, 6, 7, 4]);
    for i in 0..6 {
        assert_eq!(idx[6 + i], idx[i] + 4);
    }
    assert_eq!(f.draw.call, DrawCall::Elements { primitive: 0x0004, count: 12, offset: 0 });
}

#[test]
fn identity_quad_words() {
    let mut batch = PolygonBatch::new(8);
    batch.set_y_down(false);
    let t = tex(3);
    batch.begin();
    draw_rect(&mut batch, &t, 0.0, 0.0);
    let f = batch.end().expect("one quad staged");
    let w = words_of(&f.draw.upload.vertices.expect("vertices uploaded"));
    assert_eq!(w.len(), 32);
    let positions: Vec<(u32, u32)> = (0..4).map(|k| (w[8 * k], w[8 * k + 1])).collect();
    let uvs: Vec<(u32, u32)> = (0..4).map(|k| (w[8 * k + 6], w[8 * k + 7])).collect();
    assert_eq!(
        positions,
        vec![
            (bits(0.0), bits(0.0)),
            (bits(10.0), bits(0.0)),
            (bits(10.0), bits(10.0)),
            (bits(0.0), bits(10.0))
        ]
    );
    assert_eq!(
        uvs,
        vec![
            (bits(0.0), bits(0.0)),
            (bits(1.0), bits(0.0)),
            (bits(1.0), bits(1.0)),
            (bits(0.0), bits(1.0))
        ]
    );
    for k in 0..4 {
        assert_eq!(&w[8 * k + 2..8 * k + 6], &[bits(1.0); 4]);
    }
}

#[test]
fn y_flip_swaps_v() {
    let mut batch = PolygonBatch::new(8);
    batch.set_y_down(true);
    let t = tex(3);
    batch.begin();
    draw_rect(&mut batch, &t, 0.0, 0.0);
    let f = batch.end().expect("one quad staged");
    let w = words_of(&f.draw.upload.vertices.expect("vertices uploaded"));
    let uvs: Vec<(u32, u32)> = (0..4).map(|k| (w[8 * k + 6], w[8 * k + 7])).collect();
    assert_eq!(
        uvs,
        vec![
            (bits(0.0), bits(1.0)),
            (bits(1.0), bits(1.0)),
            (bits(1.0), bits(0.0)),
            (bits(0.0), bits(0.0))
        ]
    );
}

#[test]
fn tint_applies_to_every_vertex() {
    let mut batch = PolygonBatch::new(8);
    let c = ColorBits::new(bits(0.5), bits(0.25), bits(0.0), bits(1.0));
    batch.set_color(&c);
    batch.begin();
    draw_rect(&mut batch, &tex(1), 0.0, 0.0);
    let f = batch.end().unwrap();
    let w = words_of(&f.draw.upload.vertices.unwrap());
    for k in 0..4 {
        assert_eq!(&w[8 * k + 2..8 * k + 6], &[c.r, c.g, c.b, c.a]);
    }
}

#[test]
fn end_to_end_three_quads() {
    let mut batch = PolygonBatch::new(8);
    let t = Texture::new(9, 10, 10);
    batch.begin();
    let mut flushes = Vec::new();
    for x in [0.0f32, 20.0, 40.0] {
        if let Some(f) = draw_rect(&mut batch, &t, x, 0.0) {
            flushes.push(f);
        }
    }
    assert_eq!(flushes.len(), 1);
    if let Some(f) = batch.end() {
        flushes.push(f);
    }
    assert_eq!(flushes.len(), 2);
    assert_eq!(batch.get_draw_calls(), 2);
    assert!(!batch.is_drawing());
    // The first batch holds the first two quads; the second the third alone.
    let first = words_of(flushes[0].draw.upload.vertices.as_ref().unwrap());
    assert_eq!(first.len(), 64);
    assert_eq!(first[32], bits(20.0));
    let second = words_of(flushes[1].draw.upload.vertices.as_ref().unwrap());
    assert_eq!(second.len(), 32);
    assert_eq!(second[0], bits(40.0));
    assert_eq!(flushes[1].draw.call, DrawCall::Elements { primitive: 0x0004, count: 6, offset: 0 });
}

#[test]
fn flush_with_nothing_staged() {
    let mut batch = PolygonBatch::new(8);
    batch.begin();
    assert!(batch.flush().is_none());
    assert!(batch.end().is_none());
    assert_eq!(batch.get_draw_calls(), 0);
}

#[test]
fn draw_vertices_and_indices() {
    let mut batch = PolygonBatch::new(16);
    let t = tex(1);
    batch.begin();
    let tri: Vec<u32> = (0..24).collect();
    assert!(batch.draw_vertices_with_indices(&t, &tri, &[0, 1, 2]).is_none());
    assert!(batch.draw_vertices_with_indices(&t, &tri, &[2, 1, 0]).is_none());
    let quad: Vec<u32> = (100..132).collect();
    assert!(batch.draw_vertices(&t, &quad).is_none());
    let f = batch.end().unwrap();
    let idx = halves_of(&f.draw.upload.indices.unwrap());
    assert_eq!(idx, vec![0, 1, 2, 5, 4, 3, 6, 7, 8, 8, 9, 6]);
    let w = words_of(&f.draw.upload.vertices.unwrap());
    assert_eq!(w.len(), 80);
    assert_eq!(&w[48..80], &quad[..]);
}

#[test]
fn vertices_without_indices_draw_arrays() {
    let mut batch = PolygonBatch::new(16);
    batch.begin();
    let v: Vec<u32> = (0..24).collect();
    batch.draw_vertices_with_indices(&tex(1), &v, &[]);
    let f = batch.end().unwrap();
    assert_eq!(f.draw.call, DrawCall::Arrays { primitive: 0x0004, first: 0, count: 3 });
}

#[test]
fn index_room_overflow_flushes() {
    // Room for 4 vertices and 12 indices: a 2-vertex piece with 12 indices
    // fits once, the next one overflows the index room.
    let mut batch = PolygonBatch::new(4);
    let t = tex(1);
    batch.begin();
    let v: Vec<u32> = (0..16).collect();
    let idx = [0u16, 1, 0, 1, 0, 1, 0, 1, 0, 1, 0, 1];
    assert!(batch.draw_vertices_with_indices(&t, &v, &idx).is_none());
    assert!(batch.draw_vertices_with_indices(&t, &v, &idx).is_some());
}

#[test]
fn own_vertices_reuse_scratch_quad() {
    let mut batch = PolygonBatch::new(16);
    let t = tex(1);
    batch.begin();
    draw_rect(&mut batch, &t, 1.0, 2.0);
    batch.draw_own_vertices(&t);
    let f = batch.end().unwrap();
    let w = words_of(&f.draw.upload.vertices.unwrap());
    assert_eq!(&w[0..32], &w[32..64]);
}

#[test]
fn attribute_table_of_batch_layout() {
    let batch = PolygonBatch::new(8);
    let p = batch.attribute_pointers();
    let names: Vec<&str> = p.iter().map(|a| a.name).collect();
    assert_eq!(names, vec!["a_position", "a_color", "a_texCoord0"]);
    let offsets: Vec<usize> = p.iter().map(|a| a.offset_bytes).collect();
    assert_eq!(offsets, vec![0, 8, 24]);
    assert!(p.iter().all(|a| a.stride_bytes == 32 && a.vertex_type == 0x1406));
}
