use gt6::city::{BLOCK, CELL, LANES, N, ROAD, SIDEWALK, SIZE};
use gt6::color::{key_key_color, rgb, rgb_u};
use gt6::glb::{decode_pixels, rebase_indices, PixelFormat, RgbTex};
use gt6::mission::{pay, reward_for, MissionEvent};
use gt6::rng::Rng;
use gt6::state::{
    block_lot, building_id, bust_fine, special_actions, BoardTarget, Boarding, Mode,
};
use gt6::traffic::Dir;

#[test]
fn city_size_is_consistent() {
    assert_eq!(SIZE as f64, ROAD as f64 + N as f64 * CELL as f64);
    assert!(SIZE as f64 > 0.0);
}

#[test]
fn grid_constants() {
    assert_eq!(CELL, BLOCK + ROAD);
    assert_eq!(LANES, N + 1);
    assert_eq!((BLOCK - 2 * SIDEWALK) / 2, 78);
}

#[test]
fn rng_is_xorshift64_star() {
    let mut r = Rng::new(1);
    assert_eq!(r.next_u64(), 5180492295206395165);
    assert_eq!(r.next_u64(), 12380297144915551517);
    assert_eq!(r.next_u64(), 13389498078930870103);
    let mut z = Rng::new(0);
    assert_eq!(z.next_u64(), 973819730272012410);
    let mut s = Rng::new(42);
    assert_eq!(s.below(10), 0);
    let mut a = Rng::new(1234);
    let mut b = Rng::new(1234);
    for n in 1..200usize {
        let x = a.below(n);
        assert!(x < n);
        assert_eq!(x, b.below(n));
    }
}

#[test]
fn building_ids_round_trip() {
    assert_eq!(building_id(0, 0), 0);
    assert_eq!(building_id(3, 2), 14);
    assert_eq!(block_lot(14), (3, 2));
    for block in 0..81 {
        for lot in 0..4 {
            assert_eq!(block_lot(building_id(block, lot)), (block, lot));
        }
    }
    assert_eq!(building_id(1 << 30, 1), 1);
}

#[test]
fn bust_takes_a_quarter() {
    assert_eq!(bust_fine(100), (25, 75));
    assert_eq!(bust_fine(10), (3, 7));
    assert_eq!(bust_fine(9), (2, 7));
    assert_eq!(bust_fine(0), (0, 0));
    assert_eq!(bust_fine(u32::MAX), (1 << 30, u32::MAX - (1 << 30)));
}

#[test]
fn reward_scales_with_time() {
    assert!(reward_for(70) > reward_for(10));
    assert_eq!(reward_for(0), 400);
    assert_eq!(reward_for(-5), 400);
    assert_eq!(reward_for(75), 1150);
}

#[test]
fn directions_and_turns() {
    assert_eq!(Dir::from_usize(5), Dir::E);
    assert_eq!(Dir::W.as_usize(), 3);
    assert!(Dir::N.vertical() && Dir::S.vertical() && !Dir::E.vertical());
    assert_eq!(Dir::N.turn(true), Dir::E);
    assert_eq!(Dir::N.turn(false), Dir::W);
    assert_eq!(Dir::W.turn(true), Dir::N);
    assert_eq!(Dir::E.lane_offset(), 20);
    assert_eq!(Dir::S.lane_offset(), -20);
    for d in [Dir::N, Dir::E, Dir::S, Dir::W] {
        assert_eq!(d.turn(true).turn(false), d);
        assert_ne!(d.turn(true).vertical(), d.vertical());
    }
}

#[test]
fn css_colors() {
    assert_eq!(rgb(0x123456), "#123456");
    assert_eq!(rgb(0xff00_0a0b), "#000a0b");
    assert_eq!(rgb_u(0xabcdef), "#abcdef");
    assert_eq!(key_key_color(0), "#101010");
    assert_eq!(key_key_color(0b111_000_101), "#f010b0");
}

#[test]
fn tex_sample_and_average() {
    // 2x2: left column red, right column blue.
    let tex = RgbTex {
        w: 2,
        h: 2,
        px: vec![255, 0, 0, 0, 0, 255, 255, 0, 0, 0, 0, 255],
    };
    let avg = tex.average();
    assert!(avg[0] > 60 && avg[2] > 60);
    assert_eq!(avg, [128, 0, 128]);
}

#[test]
fn average_edge_cases() {
    let empty = RgbTex { w: 0, h: 0, px: vec![] };
    assert_eq!(empty.average(), [255, 255, 255]);
    // A partial trailing pixel still adds to its channels.
    let odd = RgbTex { w: 1, h: 1, px: vec![200, 10, 3, 100] };
    assert_eq!(odd.average(), [255, 10, 3]);
    let two = RgbTex { w: 1, h: 1, px: vec![1, 2, 3] };
    assert_eq!(two.average(), [1, 2, 3]);
}

#[test]
fn decode_pixels_scales_and_checks_the_buffer() {
    // 4x4 solid orange RGB.
    let px: Vec<u8> = (0..16).flat_map(|_| [250u8, 120, 10]).collect();
    let t = decode_pixels(&px, PixelFormat::R8G8B8, 4, 4, 2).expect("decodes");
    assert_eq!((t.w, t.h), (2, 2));
    assert_eq!(t.px.len(), 12);
    assert_eq!(&t.px[0..3], &[250, 120, 10]);
    // RGBA drops alpha.
    let rgba: Vec<u8> = (0..4).flat_map(|_| [9u8, 8, 7, 0]).collect();
    let t = decode_pixels(&rgba, PixelFormat::R8G8B8A8, 2, 2, 4).expect("decodes");
    assert_eq!((t.w, t.h), (4, 4));
    assert_eq!(t.px.len(), 48);
    assert_eq!(&t.px[0..3], &[9, 8, 7]);
    // Too few bytes, or an unsupported layout.
    assert!(decode_pixels(&px[..47], PixelFormat::R8G8B8, 4, 4, 2).is_none());
    assert!(decode_pixels(&px, PixelFormat::Other, 4, 4, 2).is_none());
}

#[test]
fn special_actions_list_what_is_available() {
    let has = |a: &Vec<gt6::state::SpecialAction>, k: &str, l: &str| {
        a.iter().any(|x| x.key == k && x.label == l)
    };
    // In the car: exit + summon keys + view keys.
    let mut m = Mode::new();
    let a = special_actions(&m, None);
    assert!(has(&a, "E", "EXIT CAR (WHEN SLOW)"));
    assert!(has(&a, "F", "SUMMON AIRPLANE"));
    assert!(has(&a, "G", "SUMMON DRAGON"));
    assert!(has(&a, "V", "3D CHASE-CAM"));
    assert!(a.iter().all(|x| x.key != "M"), "auto-land is plane-only");
    // On foot next to the car: E boards the car.
    let (foot, what) = m.press_e(None, true);
    assert_eq!(what, Boarding::LeftVehicle);
    m = foot;
    assert!(m.on_foot);
    let a = special_actions(&m, Some(BoardTarget::Car));
    assert!(has(&a, "E", "ENTER CAR"), "{:?}", a);
    // In the plane: M appears, F disappears.
    m.in_plane = true;
    m.on_foot = false;
    let a = special_actions(&m, None);
    assert!(has(&a, "M", "AUTO-LAND"));
    assert!(has(&a, "E", "EXIT AIRPLANE (WHEN SLOW)"));
    assert!(a.iter().all(|x| x.key != "F"), "no summon-plane while in the plane");
    // On the dragon: exit + fireball, G disappears.
    m.in_plane = false;
    m.in_dragon = true;
    let a = special_actions(&m, None);
    assert!(has(&a, "E", "EXIT DRAGON (DROP DOWN)"));
    assert!(has(&a, "LMB", "FIREBALL"));
    assert!(a.iter().all(|x| x.key != "G"), "no summon-dragon while on the dragon");
    // Riding an elephant: E jumps off.
    m.in_dragon = false;
    m.riding = Some(0);
    let a = special_actions(&m, None);
    assert!(has(&a, "E", "JUMP OFF ELEPHANT"));
}

#[test]
fn mode_switches() {
    let m = Mode::new();
    let v = m.toggle_view();
    assert!(v.view_3d);
    assert!(!v.toggle_view().view_3d);
    // M does nothing outside the plane.
    assert_eq!(m.toggle_landing(), m);
    let p = m.summon_plane();
    assert!(p.in_plane && !p.on_foot);
    assert!(p.toggle_landing().landing);
    assert!(!p.toggle_landing().toggle_landing().landing);
    let d = p.summon_dragon();
    assert!(d.in_dragon && !d.in_plane && d.view_3d);
    assert_eq!(d.summon_dragon(), d);
    let (foot, what) = d.press_e(None, false);
    assert_eq!(what, Boarding::LeftDragon);
    assert!(foot.on_foot && !foot.in_dragon);
    let (same, what) = foot.press_e(None, true);
    assert_eq!(what, Boarding::NothingInReach);
    assert_eq!(same, foot);
    let (riding, what) = foot.press_e(Some(BoardTarget::Elephant(2)), true);
    assert_eq!(what, Boarding::MountedElephant(2));
    assert_eq!(riding.riding, Some(2));
    let (off, what) = riding.press_e(None, false);
    assert_eq!(what, Boarding::LeftElephant);
    assert!(off.on_foot && off.riding.is_none());
    let (car, _) = off.press_e(Some(BoardTarget::Car), true);
    let (still, what) = car.press_e(None, false);
    assert_eq!(what, Boarding::StopFirst);
    assert_eq!(still, car);
    let b = riding.summon_plane().busted();
    assert!(!b.in_plane && !b.in_dragon && !b.on_foot && b.riding.is_none());
}

#[test]
fn decode_pixels_takes_long_and_large_images() {
    let px = vec![200u8; 130 * 3];
    let t = decode_pixels(&px, PixelFormat::R8G8B8, 130, 1, 4).expect("decodes");
    assert_eq!((t.w, t.h), (4, 4));
    assert_eq!(t.px.len(), 3 * 4 * 4);
    let px = vec![9u8; 4 * 4 * 3];
    let t = decode_pixels(&px, PixelFormat::R8G8B8, 4, 4, 2000).expect("decodes");
    assert_eq!((t.w, t.h), (2000, 2000));
    assert_eq!(t.px.len(), 3 * 2000 * 2000);
}

#[test]
fn indices_are_rebased_or_refused() {
    assert_eq!(rebase_indices(10, &vec![0, 1, 2]), Some(vec![10, 11, 12]));
    assert_eq!(rebase_indices(0, &vec![]), Some(vec![]));
    assert_eq!(rebase_indices(u32::MAX - 1, &vec![1, 0]), Some(vec![u32::MAX, u32::MAX - 1]));
    assert_eq!(rebase_indices(u32::MAX - 1, &vec![1, 2]), None);
}

#[test]
fn deliveries_add_their_reward() {
    let paid = Some(MissionEvent { msg: "DELIVERED!", reward: 1140 });
    assert_eq!(pay(100, &paid), 1240);
    assert_eq!(pay(100, &None), 100);
    assert_eq!(pay(u32::MAX - 5, &paid), u32::MAX);
}
