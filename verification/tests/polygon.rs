use gemo::geometry::polygon::Polygon;

#[derive(Clone, Copy, Debug, PartialEq)]
struct Vertex {
    x: f32,
    y: f32,
}

fn pentagon() -> Vec<Vertex> {
    vec![
        Vertex { x: -0.0868241, y: 0.49240386 },
        Vertex { x: 0.44147372, y: 0.2347359 },
        Vertex { x: 0.35966998, y: -0.3473291 },
        Vertex { x: -0.21918549, y: -0.44939706 },
        Vertex { x: -0.49513406, y: 0.06958647 },
    ]
}

#[test]
fn pentagon_is_split_into_a_fan_of_three_triangles() {
    let p = Polygon::new(pentagon());
    assert_eq!(p.get_indices(), vec![0, 1, 2, 0, 2, 3, 0, 3, 4]);
}

#[test]
fn vertices_come_back_unchanged() {
    let p = Polygon::new(pentagon());
    assert_eq!(p.get_vertices(), pentagon());
}

#[test]
fn triangle_has_one_triangle() {
    let p = Polygon::new(vec![1u8, 2, 3]);
    assert_eq!(p.get_indices(), vec![0, 1, 2]);
    assert_eq!(p.get_vertices(), vec![1u8, 2, 3]);
}

#[test]
fn index_count_is_three_per_triangle() {
    for n in 3usize..40 {
        let p = Polygon::new((0..n).collect::<Vec<usize>>());
        assert_eq!(p.get_indices().len(), 3 * (n - 2));
    }
}

#[test]
fn every_index_names_a_vertex_and_every_vertex_is_used() {
    for n in 3usize..40 {
        let p = Polygon::new((0..n).collect::<Vec<usize>>());
        let ix = p.get_indices();
        assert!(ix.iter().all(|&i| (i as usize) < n));
        for v in 0..n {
            assert!(ix.contains(&(v as u16)));
        }
        for t in 0..n - 2 {
            assert_eq!(&ix[3 * t..3 * t + 3], &[0, (t + 1) as u16, (t + 2) as u16]);
        }
    }
}

#[test]
fn vertex_numbers_past_u16_wrap_around() {
    let n = 65538usize;
    let p = Polygon::new(vec![0u8; n]);
    let ix = p.get_indices();
    assert_eq!(ix.len(), 3 * (n - 2));
    assert_eq!(&ix[3 * 65533..3 * 65533 + 3], &[0, 65534, 65535]);
    assert_eq!(&ix[3 * 65534..3 * 65534 + 3], &[0, 65535, 0]);
    assert_eq!(&ix[3 * 65535..3 * 65535 + 3], &[0, 0, 1]);
    assert!(ix.iter().all(|&i| (i as usize) < n));
}

#[test]
fn cloned_polygon_keeps_everything() {
    let p = Polygon::new(pentagon());
    let q = p.clone();
    assert_eq!(q.get_indices(), p.get_indices());
    assert_eq!(q.get_vertices(), p.get_vertices());
}
