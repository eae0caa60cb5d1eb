use gt6::fx::{push_capped, PKind, CAP};
use gt6::wildlife::{bake_color, bake_triangles, dragon_mesh, find_dragon, DRAGON_TINT};

#[test]
fn full_pool_drops_its_oldest() {
    let mut pool = vec![1, 2, 3];
    push_capped(&mut pool, 4, 3);
    assert_eq!(pool, vec![2, 3, 4]);
    push_capped(&mut pool, 5, 5);
    assert_eq!(pool, vec![2, 3, 4, 5]);
}

#[test]
fn pool_is_capped() {
    let mut pool: Vec<PKind> = Vec::new();
    for i in 0..(CAP + 50) {
        for _ in 0..4 {
            let k = if i % 2 == 0 { PKind::Smoke } else { PKind::Spark };
            push_capped(&mut pool, k, CAP);
        }
        assert!(pool.len() <= CAP);
    }
    assert_eq!(pool.len(), CAP);
    assert_eq!(*pool.last().unwrap(), PKind::Spark);
}

#[test]
fn dragon_is_found_case_insensitively() {
    let names = vec![
        "Body".to_string(),
        "Big_DRAGON_mesh".to_string(),
        "dragon2".to_string(),
    ];
    assert_eq!(find_dragon(&names), Some(1));
    assert_eq!(find_dragon(&vec!["cat".to_string(), "drago".to_string()]), None);
    assert_eq!(find_dragon(&Vec::new()), None);
}

#[test]
fn untextured_colors_take_the_tint() {
    assert_eq!(DRAGON_TINT, [0xeb, 0xa3, 0x10]);
    assert_eq!(bake_color([255, 255, 255], false), 0xeba310);
    assert_eq!(bake_color([100, 200, 50], false), 0x5c7f03);
    assert_eq!(bake_color([0, 0, 0], false), 0);
}

#[test]
fn textured_colors_are_kept() {
    assert_eq!(bake_color([1, 2, 3], true), 0x010203);
    assert_eq!(bake_color([255, 255, 255], true), 0xffffff);
}

#[test]
fn triangles_with_missing_corners_are_dropped() {
    let (tris, tric) = bake_triangles(&[0, 1, 2, 0, 5, 1, 2, 1], &[3, 6, 9]);
    assert_eq!(tris, vec![[0, 1, 2]]);
    assert_eq!(tric, vec![6]);
    let (tris, tric) = bake_triangles(&[2, 1, 0, 1, 1, 1], &[0xff0000, 0x00ff00, 0x0000ff]);
    assert_eq!(tris, vec![[2, 1, 0], [1, 1, 1]]);
    assert_eq!(tric, vec![0x555555, 0x00ff00]);
    // Channels are averaged apart: no carry from one into the next.
    let (_, tric) = bake_triangles(&[0, 1, 2], &[0x00ff00, 0x010000, 0]);
    assert_eq!(tric, vec![0x005500]);
}

#[test]
fn dragon_mesh_bakes_from_gltf() {
    let names = vec!["Dragon".to_string()];
    assert_eq!(find_dragon(&names), Some(0));
    // No texture: the white base color takes the bronze tint.
    let c = bake_color([255, 255, 255], false);
    let (tris, tric) = bake_triangles(&[0, 1, 2], &[c, c, c]);
    assert_eq!(tris.len(), 1);
    assert_ne!(tric[0] & 0xff0000, 0xff0000, "should be tinted bronze");
    assert!(tric[0] >> 16 > 0xcc, "reddish bronze: {:#08x}", tric[0]);
}

#[test]
fn dragon_mesh_ignores_non_dragon_meshes() {
    let names = vec!["Cloth Backdrop".to_string()];
    assert_eq!(find_dragon(&names), None);
    assert_eq!(dragon_mesh(&names, &vec![3], &vec![3]), None);
}

#[test]
fn empty_dragon_mesh_gives_no_dragon() {
    let names = vec!["rock".to_string(), "Dragon".to_string(), "dragon_2".to_string()];
    assert_eq!(dragon_mesh(&names, &vec![3, 5, 3], &vec![3, 6, 3]), Some(1));
    assert_eq!(dragon_mesh(&names, &vec![3, 0, 3], &vec![3, 6, 3]), None);
    assert_eq!(dragon_mesh(&names, &vec![3, 5, 3], &vec![3, 0, 3]), None);
    assert_eq!(dragon_mesh(&names, &vec![3], &vec![3]), None);
}
