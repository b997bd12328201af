use colorwheel_bump::color::CrystalColor;
use colorwheel_bump::input::{encode, Direction};
use colorwheel_bump::world::{
    crystal_collision, crystal_treadmill, move_player, step, update_score, Crystal, Player, World,
    CRYSTAL_SPEED, HALF_HEIGHT, HALF_WIDTH, NUM_CRYSTALS, PLAYER_SPEED,
};

fn still_player(x: i32, y: i32) -> Player {
    Player { x, y, vx: 0, vy: 0, color: None }
}

fn crystal_at(x: i32, y: i32, color: CrystalColor) -> Crystal {
    Crystal { x, y, vx: 0, vy: 0, crystal_color: color, collected: false }
}

fn bare_world(p0: Player, p1: Player, crystals: Vec<Crystal>, target: CrystalColor) -> World {
    World { frame: 0, p0, p1, crystals, target_color: target, score: 0 }
}

#[test]
fn step_is_deterministic() {
    let mut a = World::new_from_seed(7);
    let mut b = World::new_from_seed(7);
    assert_eq!(a, b);
    for f in 0..32u8 {
        let i0 = encode(Direction::East, false);
        let i1 = encode(if f % 2 == 0 { Direction::North } else { Direction::South }, false);
        step(&mut a, i0, i1);
        step(&mut b, i0, i1);
        assert_eq!(a, b);
    }
}

#[test]
fn initial_worlds_differ_by_seed_not_by_call() {
    assert_eq!(World::new_from_seed(1), World::new_from_seed(1));
    let w = World::new_from_seed(5);
    assert_eq!(w.crystals.len(), NUM_CRYSTALS);
    assert_eq!(w.frame, 0);
    assert_eq!(w.score, 0);
    for c in &w.crystals {
        assert!(c.x.abs() <= HALF_WIDTH);
        assert!(c.y.abs() <= HALF_HEIGHT);
        assert!(c.crystal_color.is_primary());
        assert!(!c.collected);
    }
}

#[test]
fn duplicate_is_exact() {
    let w = World::new_from_seed(11);
    assert_eq!(w.duplicate(), w);
}

#[test]
fn movement_advances_by_speed() {
    let mut p = still_player(0, 0);
    move_player(&mut p, encode(Direction::NorthEast, false));
    assert_eq!((p.x, p.y), (PLAYER_SPEED, PLAYER_SPEED));
    assert_eq!((p.vx, p.vy), (PLAYER_SPEED, PLAYER_SPEED));
}

#[test]
fn movement_clamps_at_the_play_area_edge() {
    let mut p = still_player(HALF_WIDTH - 1, 0);
    move_player(&mut p, encode(Direction::East, false));
    assert_eq!(p.x, HALF_WIDTH);
}

#[test]
fn out_of_bounds_resets_to_origin() {
    // Beyond the half-extents on the x axis, with a large velocity: the next
    // step must reset position and velocity, whatever the prior speed.
    let mut p = Player { x: HALF_WIDTH + 1, y: 3, vx: 9999, vy: -9999, color: Some(CrystalColor::Red) };
    move_player(&mut p, encode(Direction::East, true));
    assert_eq!((p.x, p.y, p.vx, p.vy), (0, 0, 0, 0));
    assert_eq!(p.color, Some(CrystalColor::Red));

    let mut q = Player { x: 0, y: -HALF_HEIGHT - 1, vx: 1, vy: 1, color: None };
    move_player(&mut q, 0);
    assert_eq!((q.x, q.y, q.vx, q.vy), (0, 0, 0, 0));
}

#[test]
fn empty_player_adopts_crystal_color() {
    let mut p0 = still_player(0, 0);
    let mut p1 = still_player(20_000, 0);
    let mut crystals = vec![crystal_at(1_000, 0, CrystalColor::Blue)];
    crystal_collision(&mut p0, &mut p1, &mut crystals);
    assert_eq!(p0.color, Some(CrystalColor::Blue));
    assert_eq!(p1.color, None);
    assert!(crystals[0].collected);
}

#[test]
fn held_color_combines_toward_crystal() {
    let mut p0 = Player { color: Some(CrystalColor::Orange), ..still_player(0, 0) };
    let mut p1 = still_player(20_000, 0);
    let mut crystals = vec![crystal_at(-800, 400, CrystalColor::Yellow)];
    crystal_collision(&mut p0, &mut p1, &mut crystals);
    assert_eq!(p0.color, Some(CrystalColor::YellowOrange));
    assert!(crystals[0].collected);
}

#[test]
fn first_player_wins_a_shared_crystal() {
    let mut p0 = still_player(0, 0);
    let mut p1 = still_player(1_000, 0);
    let mut crystals = vec![crystal_at(500, 0, CrystalColor::Red)];
    crystal_collision(&mut p0, &mut p1, &mut crystals);
    assert_eq!(p0.color, Some(CrystalColor::Red));
    assert_eq!(p1.color, None);
}

#[test]
fn distant_crystal_is_untouched() {
    let mut p0 = still_player(0, 0);
    let mut p1 = still_player(10_000, 10_000);
    let mut crystals = vec![crystal_at(-30_000, 0, CrystalColor::Green)];
    crystal_collision(&mut p0, &mut p1, &mut crystals);
    assert_eq!(p0.color, None);
    assert!(!crystals[0].collected);
}

#[test]
fn treadmill_drifts_crystals_left() {
    let mut crystals = vec![crystal_at(10_000, 2_000, CrystalColor::Blue)];
    crystal_treadmill(&mut crystals, 3);
    assert_eq!(crystals[0].x, 10_000 - CRYSTAL_SPEED);
    assert_eq!(crystals[0].y, 2_000);
    assert_eq!(crystals[0].vx, -CRYSTAL_SPEED);
    assert!(!crystals[0].collected);
}

#[test]
fn collected_crystal_respawns_at_the_far_edge() {
    let mut crystals = vec![Crystal { collected: true, ..crystal_at(0, 0, CrystalColor::Blue) }];
    crystal_treadmill(&mut crystals, 9);
    let c = &crystals[0];
    assert!(c.x >= HALF_WIDTH && c.x < HALF_WIDTH + 4_000);
    assert!(c.y >= -HALF_HEIGHT && c.y < HALF_HEIGHT);
    assert!(c.crystal_color.is_primary());
    assert!(!c.collected);
}

#[test]
fn respawn_is_a_function_of_frame_and_slot() {
    let make = || vec![Crystal { collected: true, ..crystal_at(0, 0, CrystalColor::Blue) }];
    let mut a = make();
    let mut b = make();
    crystal_treadmill(&mut a, 42);
    crystal_treadmill(&mut b, 42);
    assert_eq!(a, b);
    let mut c = make();
    crystal_treadmill(&mut c, 43);
    // A different frame draws a different placement (for these values).
    assert_ne!(a[0].x, c[0].x);
}

#[test]
fn matching_target_scores_once_and_retargets() {
    let p0 = Player { color: Some(CrystalColor::Orange), ..still_player(0, 0) };
    let p1 = still_player(5_000, 0);
    let mut target = CrystalColor::Orange;
    let mut score: u64 = 5;
    update_score(&p0, &p1, &mut target, &mut score, 17);
    assert_eq!(score, 6);
    assert_ne!(target, CrystalColor::Orange);
}

#[test]
fn missing_the_target_leaves_score_alone() {
    let p0 = Player { color: Some(CrystalColor::Red), ..still_player(0, 0) };
    let p1 = still_player(5_000, 0);
    let mut target = CrystalColor::Orange;
    let mut score: u64 = 5;
    update_score(&p0, &p1, &mut target, &mut score, 17);
    assert_eq!(score, 5);
    assert_eq!(target, CrystalColor::Orange);
}

#[test]
fn full_step_collects_and_respawns() {
    let p0 = still_player(0, 0);
    let p1 = still_player(-20_000, 0);
    let crystals = vec![crystal_at(1_000, 0, CrystalColor::Blue)];
    let mut w = bare_world(p0, p1, crystals, CrystalColor::Green);
    step(&mut w, 0, 0);
    assert_eq!(w.frame, 1);
    assert_eq!(w.p0.color, Some(CrystalColor::Blue));
    assert!(!w.crystals[0].collected);
    assert!(w.crystals[0].x >= HALF_WIDTH);
    assert_eq!(w.score, 0);
}
