use gdx2d::encode::{encode_halves, encode_words};
use gdx2d::layout::VertexAttribute;
use gdx2d::mesh::{DrawCall, Mesh, MeshError};

#[test]
fn empty_layout_is_refused() {
    assert_eq!(Mesh::new(vec![], 4, 6).err(), Some(MeshError::EmptyLayout));
}

#[test]
fn zero_stride_is_refused() {
    let a = VertexAttribute::new("a_x", 0x1406, 0);
    assert_eq!(Mesh::new(vec![a], 4, 6).err(), Some(MeshError::ZeroStride));
}

#[test]
fn layout_stride_and_room() {
    let m = Mesh::new(vec![VertexAttribute::position3(), VertexAttribute::color2()], 5, 9).unwrap();
    assert_eq!(m.elements_per_vertex(), 7);
    assert_eq!(m.vertex_capacity(), 35);
    assert_eq!(m.index_capacity(), 9);
    assert_eq!(m.num_vertices(), 0);
    let p = m.attribute_pointers();
    assert_eq!(p[0].name, "a_position");
    assert_eq!(p[0].num_elements, 3);
    assert_eq!(p[1].name, "a_color2");
    assert_eq!(p[1].offset_bytes, 12);
    assert_eq!(p[1].stride_bytes, 28);
}

#[test]
fn upload_only_what_is_dirty() {
    let mut m = Mesh::new(vec![VertexAttribute::position2()], 4, 6).unwrap();
    let u = m.update();
    assert!(u.vertices.is_none() && u.indices.is_none());
    m.set_vertices(&[0x0403_0201, 0x0807_0605]);
    let u = m.update();
    assert_eq!(u.vertices, Some(vec![1, 2, 3, 4, 5, 6, 7, 8]));
    assert!(u.indices.is_none());
    let u = m.update();
    assert!(u.vertices.is_none());
}

#[test]
fn draw_without_indices_is_arrays() {
    let mut m = Mesh::new(vec![VertexAttribute::position2()], 4, 6).unwrap();
    m.set_vertices(&[1, 2, 3, 4, 5, 6]);
    assert_eq!(m.num_vertices(), 3);
    let d = m.draw(4);
    assert_eq!(d.call, DrawCall::Arrays { primitive: 4, first: 0, count: 3 });
    assert_eq!(d.upload.vertices.unwrap().len(), 24);
}

#[test]
fn draw_with_indices_is_elements() {
    let mut m = Mesh::new(vec![VertexAttribute::position2()], 4, 6).unwrap();
    m.set_vertices(&[1, 2, 3, 4, 5, 6]);
    m.set_indices(&[0, 1, 0x0102]);
    let d = m.draw(4);
    assert_eq!(d.call, DrawCall::Elements { primitive: 4, count: 3, offset: 0 });
    assert_eq!(d.upload.indices, Some(vec![0, 0, 1, 0, 2, 1]));
    let d = m.draw_with_offset(1, 2, 1);
    assert_eq!(d.call, DrawCall::Elements { primitive: 1, count: 1, offset: 2 });
    assert!(d.upload.vertices.is_none());
}

#[test]
fn lengths_and_writes() {
    let mut m = Mesh::new(vec![VertexAttribute::texcoords()], 3, 3).unwrap();
    m.write_vertices(2, &[7, 8]);
    assert_eq!(m.vertices_length(), 0);
    m.set_vertices_length(4);
    let u = m.update();
    assert_eq!(u.vertices, Some(vec![0, 0, 0, 0, 0, 0, 0, 0, 7, 0, 0, 0, 8, 0, 0, 0]));
    m.write_indices(1, &[9]);
    m.set_indices_length(2);
    assert_eq!(m.indices_length(), 2);
    assert_eq!(m.update().indices, Some(vec![0, 0, 9, 0]));
}

#[test]
fn little_endian_encoding() {
    assert_eq!(encode_words(&vec![0x1122_3344, 0xdead_beef], 1), vec![0x44, 0x33, 0x22, 0x11]);
    assert_eq!(encode_words(&vec![1.0f32.to_bits()], 1), 1.0f32.to_le_bytes().to_vec());
    assert_eq!(encode_halves(&vec![0xabcd, 7], 2), vec![0xcd, 0xab, 7, 0]);
    assert!(encode_words(&vec![5], 0).is_empty());
}

#[test]
fn attribute_constructors() {
    let c = VertexAttribute::color();
    assert_eq!((c.name, c.vertex_type, c.num_elements), ("a_color", 0x1406, 4));
    let t = VertexAttribute::texcoords();
    assert_eq!((t.name, t.num_elements), ("a_texCoord0", 2));
    let p = VertexAttribute::position2();
    assert_eq!((p.name, p.num_elements), ("a_position", 2));
}
