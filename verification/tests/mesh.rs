use cube_world::shape_util::{create_cube_vertices, create_practice_vertices};

#[test]
fn cube_mesh_exact() {
    let (v, i, n) = create_cube_vertices();
    assert_eq!(
        v,
        vec![0, 0, 0, 100, 0, 0, 0, 100, 0, 0, 0, 100, 100, 100, 0, 100, 0, 100, 0, 100, 100, 100, 100, 100]
    );
    assert_eq!(i, vec![0, 1, 4, 0, 4, 2, 0, 6, 3, 0, 2, 6, 1, 5, 7, 1, 7, 4, 3, 7, 5, 3, 6, 7]);
    assert_eq!(n, 24);
}

#[test]
fn cube_mesh_indices_in_range() {
    let (v, i, n) = create_cube_vertices();
    assert_eq!(n as usize, i.len());
    assert_eq!(i.len() % 3, 0);
    assert!(i.iter().all(|&k| (k as usize) * 3 < v.len()));
    for t in i.chunks(3) {
        let p = |k: u32| [v[3 * k as usize] as i64, v[3 * k as usize + 1] as i64, v[3 * k as usize + 2] as i64];
        let (a, b, c) = (p(t[0]), p(t[1]), p(t[2]));
        let shared = (0..3).filter(|&ax| a[ax] == b[ax] && a[ax] == c[ax]).count();
        assert_eq!(shared, 1);
    }
}

#[test]
fn practice_mesh_exact() {
    let (v, i, n) = create_practice_vertices();
    assert_eq!(v, vec![0, 0, 0, 100, 0, 0, 0, 100, 0, 100, 100, 0]);
    assert_eq!(i, vec![0, 1, 3, 0, 3, 2]);
    assert_eq!(n, 6);
}
