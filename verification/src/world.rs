use vstd::prelude::*;

use crate::color::CrystalColor;
use crate::input::spec_decode;
use crate::input::decode;
use crate::rng::spec_mix;
use crate::rng::mix;
use crate::rng::SALT_RESPAWN_X;
use crate::rng::SALT_RESPAWN_Y;
use crate::rng::SALT_RESPAWN_COLOR;
use crate::rng::SALT_TARGET;

verus! {

// Positions and velocities are in thousandths of a world unit, so that every
// step is exact integer arithmetic: the same inputs give bit-identical worlds
// on every machine, which rollback replay depends on.
/// Half the play area's width (the area spans 100 by 32 units).
pub const HALF_WIDTH: i32 = 50_000;

/// Half the play area's height.
pub const HALF_HEIGHT: i32 = 16_000;

/// How far a player moves per frame along each pressed axis.
pub const PLAYER_SPEED: i32 = 130;

/// How far a collectible drifts left per frame.
pub const CRYSTAL_SPEED: i32 = 100;

/// Half-extent of a player's bounding box.
pub const PLAYER_HALF_EXTENT: i32 = 1_500;

/// Half-extent of a collectible's bounding box.
pub const CRYSTAL_HALF_EXTENT: i32 = 1_000;

/// Width of the band past the right edge a respawned collectible lands in.
pub const RESPAWN_SCATTER: i32 = 4_000;

/// How many collectibles are in play.
pub const NUM_CRYSTALS: usize = 32;

/// A player's rollback-relevant state: position, velocity and the color
/// accumulated by collecting, `None` until the first collectible is taken.
#[derive(Clone, Copy, PartialEq, Eq, Debug)]
pub struct Player {
    pub x: i32,
    pub y: i32,
    pub vx: i32,
    pub vy: i32,
    pub color: Option<CrystalColor>,
}

/// A collectible's rollback-relevant state. A collected crystal is only
/// marked, not removed: removal is deferred to the respawn pass so entity
/// identity and ordering stay stable across rollback.
#[derive(Clone, Copy, PartialEq, Eq, Debug)]
pub struct Crystal {
    pub x: i32,
    pub y: i32,
    pub vx: i32,
    pub vy: i32,
    pub crystal_color: CrystalColor,
    pub collected: bool,
}

/// All world state that a snapshot must capture: both players, every
/// collectible, the session's target color, the score, and the frame number.
#[derive(Clone, PartialEq, Debug)]
pub struct World {
    pub frame: u64,
    pub p0: Player,
    pub p1: Player,
    pub crystals: Vec<Crystal>,
    pub target_color: CrystalColor,
    pub score: u64,
}

/// The mathematical value of a `World`; two worlds with equal models behave
/// identically under `step`.
#[verifier::ext_equal]
pub struct WorldModel {
    pub frame: u64,
    pub p0: Player,
    pub p1: Player,
    pub crystals: Seq<Crystal>,
    pub target_color: CrystalColor,
    pub score: u64,
}

impl View for World {
    type V = WorldModel;

    open spec fn view(&self) -> WorldModel {
        WorldModel {
            frame: self.frame,
            p0: self.p0,
            p1: self.p1,
            crystals: self.crystals@,
            target_color: self.target_color,
            score: self.score,
        }
    }
}

pub open spec fn spec_clamp(v: int, lo: int, hi: int) -> int {
    if v < lo {
        lo
    } else if v > hi {
        hi
    } else {
        v
    }
}

/// A player is out of bounds when its position exceeds the play-area
/// half-extents on either axis.
pub open spec fn spec_out_of_bounds(p: Player) -> bool {
    p.x > HALF_WIDTH || p.x < -HALF_WIDTH || p.y > HALF_HEIGHT || p.y < -HALF_HEIGHT
}

/// Movement integration for one player and one frame input: an out-of-bounds
/// player is reset to the origin with zero velocity, whatever its prior
/// velocity; otherwise the position advances by the decoded direction times
/// the per-frame speed, clamped to the play area.
pub open spec fn spec_move_player(p: Player, input: u8) -> Player {
    if spec_out_of_bounds(p) {
        Player { x: 0, y: 0, vx: 0, vy: 0, color: p.color }
    } else {
        let d = spec_decode(input).0.spec_delta();
        let vx = d.0 * PLAYER_SPEED;
        let vy = d.1 * PLAYER_SPEED;
        Player {
            x: spec_clamp(p.x + vx, -HALF_WIDTH as int, HALF_WIDTH as int) as i32,
            y: spec_clamp(p.y + vy, -HALF_HEIGHT as int, HALF_HEIGHT as int) as i32,
            vx: vx as i32,
            vy: vy as i32,
            color: p.color,
        }
    }
}

/// Whether a player's and a collectible's bounding boxes overlap.
pub open spec fn spec_overlap(p: Player, c: Crystal) -> bool {
    let limit = PLAYER_HALF_EXTENT + CRYSTAL_HALF_EXTENT;
    -limit <= p.x - c.x <= limit && -limit <= p.y - c.y <= limit
}

/// The color a player holds after taking a collectible: the collectible's
/// color outright when the player held none, else one combine step toward it.
pub open spec fn spec_absorb(p: Player, c: CrystalColor) -> Player {
    match p.color {
        Some(held) => Player { color: Some(CrystalColor::spec_combine(held, c)), ..p },
        None => Player { color: Some(c), ..p },
    }
}

/// Collision resolution against a single collectible. An uncollected
/// overlapping crystal is marked collected and recolors the toucher; when
/// both players touch it the same frame, the first player takes it — a fixed
/// order, so both peers resolve the tie identically.
pub open spec fn spec_collect_one(p0: Player, p1: Player, c: Crystal) -> (Player, Player, Crystal) {
    if !c.collected && spec_overlap(p0, c) {
        (spec_absorb(p0, c.crystal_color), p1, Crystal { collected: true, ..c })
    } else if !c.collected && spec_overlap(p1, c) {
        (p0, spec_absorb(p1, c.crystal_color), Crystal { collected: true, ..c })
    } else {
        (p0, p1, c)
    }
}

/// Collision resolution over the collectibles from index `i` on, in index
/// order, threading the players' colors through each taken crystal.
pub open spec fn spec_collide_from(p0: Player, p1: Player, cs: Seq<Crystal>, i: int) -> (
    Player,
    Player,
    Seq<Crystal>,
)
    decreases cs.len() - i,
{
    if i < 0 || i >= cs.len() {
        (p0, p1, cs)
    } else {
        let one = spec_collect_one(p0, p1, cs[i]);
        spec_collide_from(one.0, one.1, cs.update(i, one.2), i + 1)
    }
}

/// The respawn/treadmill rule for one collectible. Every crystal drifts left
/// at constant velocity; one that was collected or has left the play area is
/// relocated to a scatter band past the right edge, at a height and with a
/// fresh primary color drawn from the frame number and the crystal's index —
/// never from an ambient generator, so a replayed frame respawns identically.
pub open spec fn spec_treadmill_one(c: Crystal, frame: u64, id: u64) -> Crystal {
    let drifted = c.x - CRYSTAL_SPEED;
    if c.collected || drifted < -HALF_WIDTH {
        Crystal {
            x: (HALF_WIDTH + spec_mix(frame, id, SALT_RESPAWN_X) % (RESPAWN_SCATTER as u64)) as i32,
            y: (spec_mix(frame, id, SALT_RESPAWN_Y) % 32_000 - 16_000) as i32,
            vx: (-CRYSTAL_SPEED) as i32,
            vy: 0,
            crystal_color: CrystalColor::spec_primary_from_seed(
                spec_mix(frame, id, SALT_RESPAWN_COLOR),
            ),
            collected: false,
        }
    } else {
        Crystal { x: drifted as i32, vx: (-CRYSTAL_SPEED) as i32, vy: 0, ..c }
    }
}

/// The treadmill applied to the collectibles from index `i` on.
pub open spec fn spec_treadmill_from(cs: Seq<Crystal>, frame: u64, i: int) -> Seq<Crystal>
    decreases cs.len() - i,
{
    if i < 0 || i >= cs.len() {
        cs
    } else {
        spec_treadmill_from(cs.update(i, spec_treadmill_one(cs[i], frame, i as u64)), frame, i + 1)
    }
}

/// The progress rule for one player: a player whose held color equals the
/// target scores one point, and a new target is drawn from the frame number
/// and the player's handle, always different from the one just hit.
pub open spec fn spec_progress_one(
    p: Player,
    target: CrystalColor,
    score: u64,
    frame: u64,
    handle: u64,
) -> (u64, CrystalColor) {
    if p.color == Some(target) {
        (
            if score == u64::MAX {
                score
            } else {
                (score + 1) as u64
            },
            CrystalColor::spec_next_target(target, spec_mix(frame, handle, SALT_TARGET)),
        )
    } else {
        (score, target)
    }
}

/// The progress rule for the whole frame: both players are checked in handle
/// order against the then-current target.
pub open spec fn spec_progress(
    p0: Player,
    p1: Player,
    target: CrystalColor,
    score: u64,
    frame: u64,
) -> (u64, CrystalColor) {
    let first = spec_progress_one(p0, target, score, frame, 0);
    spec_progress_one(p1, first.1, first.0, frame, 1)
}

/// One simulation step: movement, then collision resolution, then the
/// respawn treadmill, then progress, and the frame number advances by one.
/// A pure function of the previous world and the two players' inputs.
/// Opaque so that engine-level proofs treat a step as one indivisible event;
/// `step`'s own proof reveals it.
#[verifier::opaque]
pub open spec fn spec_step(w: WorldModel, input0: u8, input1: u8) -> WorldModel {
    let p0 = spec_move_player(w.p0, input0);
    let p1 = spec_move_player(w.p1, input1);
    let collided = spec_collide_from(p0, p1, w.crystals, 0);
    let crystals = spec_treadmill_from(collided.2, w.frame, 0);
    let progressed = spec_progress(collided.0, collided.1, w.target_color, w.score, w.frame);
    WorldModel {
        frame: (w.frame + 1) as u64,
        p0: collided.0,
        p1: collided.1,
        crystals: crystals,
        target_color: progressed.1,
        score: progressed.0,
    }
}

/// The world after running `inputs` in order from `w`, one step per entry.
pub open spec fn spec_run(w: WorldModel, inputs: Seq<(u8, u8)>) -> WorldModel
    decreases inputs.len(),
{
    if inputs.len() == 0 {
        w
    } else {
        spec_step(spec_run(w, inputs.drop_last()), inputs.last().0, inputs.last().1)
    }
}

/// Movement integration for one player, as `spec_move_player` states.
pub fn move_player(p: &mut Player, input: u8)
    ensures
        *final(p) == spec_move_player(*old(p), input),
{
    if p.x > HALF_WIDTH || p.x < -HALF_WIDTH || p.y > HALF_HEIGHT || p.y < -HALF_HEIGHT {
        p.x = 0;
        p.y = 0;
        p.vx = 0;
        p.vy = 0;
    } else {
        let (dir, _action) = decode(input);
        let (dx, dy) = dir.delta();
        let vx = dx * PLAYER_SPEED;
        let vy = dy * PLAYER_SPEED;
        let mut nx = p.x + vx;
        let mut ny = p.y + vy;
        if nx > HALF_WIDTH {
            nx = HALF_WIDTH;
        }
        if nx < -HALF_WIDTH {
            nx = -HALF_WIDTH;
        }
        if ny > HALF_HEIGHT {
            ny = HALF_HEIGHT;
        }
        if ny < -HALF_HEIGHT {
            ny = -HALF_HEIGHT;
        }
        p.x = nx;
        p.y = ny;
        p.vx = vx;
        p.vy = vy;
    }
}

fn overlaps(p: &Player, c: &Crystal) -> (r: bool)
    ensures
        r == spec_overlap(*p, *c),
{
    let limit: i64 = (PLAYER_HALF_EXTENT + CRYSTAL_HALF_EXTENT) as i64;
    let dx = p.x as i64 - c.x as i64;
    let dy = p.y as i64 - c.y as i64;
    -limit <= dx && dx <= limit && -limit <= dy && dy <= limit
}

fn absorb(p: &mut Player, c: CrystalColor)
    ensures
        *final(p) == spec_absorb(*old(p), c),
{
    match p.color {
        Some(held) => {
            p.color = Some(held.combine(&c));
        },
        None => {
            p.color = Some(c);
        },
    }
}

fn collect_one(p0: &mut Player, p1: &mut Player, c: &mut Crystal)
    ensures
        (*final(p0), *final(p1), *final(c)) == spec_collect_one(*old(p0), *old(p1), *old(c)),
{
    if !c.collected && overlaps(p0, c) {
        absorb(p0, c.crystal_color);
        c.collected = true;
    } else if !c.collected && overlaps(p1, c) {
        absorb(p1, c.crystal_color);
        c.collected = true;
    }
}

/// Collision resolution for the whole frame: each collectible is checked in
/// index order against both players, as `spec_collide_from` states.
pub fn crystal_collision(p0: &mut Player, p1: &mut Player, crystals: &mut Vec<Crystal>)
    ensures
        ({
            let r = spec_collide_from(*old(p0), *old(p1), old(crystals)@, 0);
            *final(p0) == r.0 && *final(p1) == r.1 && final(crystals)@ == r.2
        }),
{
    let ghost orig_p0 = *p0;
    let ghost orig_p1 = *p1;
    let ghost orig_cs = crystals@;
    let n = crystals.len();
    let mut i: usize = 0;
    while i < n
        invariant
            i <= n,
            n == crystals.len(),
            spec_collide_from(orig_p0, orig_p1, orig_cs, 0) == spec_collide_from(
                *p0,
                *p1,
                crystals@,
                i as int,
            ),
        decreases n - i,
    {
        let mut c = crystals[i];
        collect_one(p0, p1, &mut c);
        crystals.set(i, c);
        i += 1;
    }
}

fn treadmill_one(c: &mut Crystal, frame: u64, id: u64)
    ensures
        *final(c) == spec_treadmill_one(*old(c), frame, id),
{
    let drifted = c.x as i64 - CRYSTAL_SPEED as i64;
    if c.collected || drifted < -(HALF_WIDTH as i64) {
        let sx = mix(frame, id, SALT_RESPAWN_X);
        let sy = mix(frame, id, SALT_RESPAWN_Y);
        c.x = HALF_WIDTH + (sx % (RESPAWN_SCATTER as u64)) as i32;
        c.y = (sy % 32_000) as i32 - 16_000;
        c.vx = -CRYSTAL_SPEED;
        c.vy = 0;
        c.crystal_color = CrystalColor::primary_from_seed(mix(frame, id, SALT_RESPAWN_COLOR));
        c.collected = false;
    } else {
        c.x = drifted as i32;
        c.vx = -CRYSTAL_SPEED;
        c.vy = 0;
    }
}

/// The respawn treadmill for the whole frame, as `spec_treadmill_from`
/// states.
pub fn crystal_treadmill(crystals: &mut Vec<Crystal>, frame: u64)
    ensures
        final(crystals)@ == spec_treadmill_from(old(crystals)@, frame, 0),
{
    let ghost orig_cs = crystals@;
    let n = crystals.len();
    let mut i: usize = 0;
    while i < n
        invariant
            i <= n,
            n == crystals.len(),
            spec_treadmill_from(orig_cs, frame, 0) == spec_treadmill_from(crystals@, frame, i as int),
        decreases n - i,
    {
        let mut c = crystals[i];
        treadmill_one(&mut c, frame, i as u64);
        crystals.set(i, c);
        i += 1;
    }
}

fn progress_one(p: &Player, target: &mut CrystalColor, score: &mut u64, frame: u64, handle: u64)
    ensures
        ({
            let r = spec_progress_one(*p, *old(target), *old(score), frame, handle);
            *final(score) == r.0 && *final(target) == r.1
        }),
{
    let hit = match p.color {
        Some(held) => held == *target,
        None => false,
    };
    if hit {
        if *score != u64::MAX {
            *score = *score + 1;
        }
        *target = CrystalColor::next_target(*target, mix(frame, handle, SALT_TARGET));
    }
}

/// The progress pass for the whole frame, as `spec_progress` states: each
/// player whose color equals the then-current target scores one point and
/// draws a new target.
pub fn update_score(
    p0: &Player,
    p1: &Player,
    target: &mut CrystalColor,
    score: &mut u64,
    frame: u64,
)
    ensures
        ({
            let r = spec_progress(*p0, *p1, *old(target), *old(score), frame);
            *final(score) == r.0 && *final(target) == r.1
        }),
{
    progress_one(p0, target, score, frame, 0);
    progress_one(p1, target, score, frame, 1);
}

/// One simulation step in place; the world after the call is exactly
/// `spec_step` of the world before it and the two wire inputs, so identical
/// `(world, inputs)` always yield the identical next world.
pub fn step(w: &mut World, input0: u8, input1: u8)
    requires
        old(w).frame < u64::MAX,
    ensures
        final(w)@ == spec_step(old(w)@, input0, input1),
        final(w).frame == old(w).frame + 1,
{
    move_player(&mut w.p0, input0);
    move_player(&mut w.p1, input1);
    crystal_collision(&mut w.p0, &mut w.p1, &mut w.crystals);
    let frame = w.frame;
    crystal_treadmill(&mut w.crystals, frame);
    update_score(&w.p0, &w.p1, &mut w.target_color, &mut w.score, frame);
    w.frame = frame + 1;
    proof {
        reveal(spec_step);
        assert(w@ =~= spec_step(old(w)@, input0, input1));
    }
}

impl World {
    /// The collectible at index `j` of a fresh world: placed uniformly in the
    /// play area by the world seed, with a primary color.
    pub open spec fn spec_initial_crystal(seed: u64, j: u64) -> Crystal {
        Crystal {
            x: (spec_mix(seed, j, SALT_RESPAWN_X) % 100_000 - 50_000) as i32,
            y: (spec_mix(seed, j, SALT_RESPAWN_Y) % 32_000 - 16_000) as i32,
            vx: (-CRYSTAL_SPEED) as i32,
            vy: 0,
            crystal_color: CrystalColor::spec_primary_from_seed(
                spec_mix(seed, j, SALT_RESPAWN_COLOR),
            ),
            collected: false,
        }
    }

    /// The starting world: the players empty-handed at either side of the
    /// origin, the collectibles and the first target drawn from the seed,
    /// score zero, frame zero.
    pub open spec fn spec_initial(seed: u64) -> WorldModel {
        WorldModel {
            frame: 0,
            p0: Player { x: -2_000i32, y: 0, vx: 0, vy: 0, color: None },
            p1: Player { x: 2_000, y: 0, vx: 0, vy: 0, color: None },
            crystals: Seq::new(
                NUM_CRYSTALS as nat,
                |j: int| Self::spec_initial_crystal(seed, j as u64),
            ),
            target_color: CrystalColor::spec_primary_from_seed(spec_mix(seed, 0, SALT_TARGET)),
            score: 0,
        }
    }

    /// Builds the starting world for `seed`. Both peers construct their world
    /// from the same agreed seed, so they start in the same state.
    pub fn new_from_seed(seed: u64) -> (r: World)
        ensures
            r@ == Self::spec_initial(seed),
            r.crystals@.len() == NUM_CRYSTALS,
    {
        let mut crystals: Vec<Crystal> = Vec::new();
        let mut j: usize = 0;
        while j < NUM_CRYSTALS
            invariant
                j <= NUM_CRYSTALS,
                crystals@.len() == j,
                forall|k: int|
                    0 <= k < j ==> crystals@[k] == Self::spec_initial_crystal(seed, k as u64),
            decreases NUM_CRYSTALS - j,
        {
            let sx = mix(seed, j as u64, SALT_RESPAWN_X);
            let sy = mix(seed, j as u64, SALT_RESPAWN_Y);
            let c = Crystal {
                x: (sx % 100_000) as i32 - 50_000,
                y: (sy % 32_000) as i32 - 16_000,
                vx: -CRYSTAL_SPEED,
                vy: 0,
                crystal_color: CrystalColor::primary_from_seed(
                    mix(seed, j as u64, SALT_RESPAWN_COLOR),
                ),
                collected: false,
            };
            crystals.push(c);
            j += 1;
        }
        let r = World {
            frame: 0,
            p0: Player { x: -2_000, y: 0, vx: 0, vy: 0, color: None },
            p1: Player { x: 2_000, y: 0, vx: 0, vy: 0, color: None },
            crystals,
            target_color: CrystalColor::primary_from_seed(mix(seed, 0, SALT_TARGET)),
            score: 0,
        };
        proof {
            assert(r@.crystals =~= Self::spec_initial(seed).crystals);
            assert(r@ =~= Self::spec_initial(seed));
        }
        r
    }

    /// An exact copy: the snapshot store saves and hands back worlds with it.
    pub fn duplicate(&self) -> (r: World)
        ensures
            r@ == self@,
    {
        let mut crystals: Vec<Crystal> = Vec::new();
        let mut j: usize = 0;
        let n = self.crystals.len();
        while j < n
            invariant
                j <= n,
                n == self.crystals@.len(),
                crystals@ == self.crystals@.take(j as int),
            decreases n - j,
        {
            crystals.push(self.crystals[j]);
            proof {
                assert(crystals@ =~= self.crystals@.take(j + 1));
            }
            j += 1;
        }
        proof {
            assert(crystals@ =~= self.crystals@);
        }
        let r = World {
            frame: self.frame,
            p0: self.p0,
            p1: self.p1,
            crystals,
            target_color: self.target_color,
            score: self.score,
        };
        proof {
            assert(r@ =~= self@);
        }
        r
    }
}

/// Determinism: stepping is a pure function of the world model and the input
/// pair — two worlds with the same model step to the same model, with no
/// hidden time, thread or generator dependence.
pub proof fn lemma_step_deterministic(w1: WorldModel, w2: WorldModel, input0: u8, input1: u8)
    requires
        w1 =~= w2,
    ensures
        spec_step(w1, input0, input1) == spec_step(w2, input0, input1),
{
    assert(w1 == w2);
}

/// Running a batch of frames splits: the frames in `a` followed by the frames
/// in `b` reach the same world as running them all in one go.
pub proof fn lemma_run_append(w: WorldModel, a: Seq<(u8, u8)>, b: Seq<(u8, u8)>)
    ensures
        spec_run(w, a + b) == spec_run(spec_run(w, a), b),
    decreases b.len(),
{
    if b.len() == 0 {
        assert(a + b =~= a);
    } else {
        lemma_run_append(w, a, b.drop_last());
        assert((a + b).drop_last() =~= a + b.drop_last());
        assert((a + b).last() == b.last());
    }
}

/// Rollback equivalence: computing frames straight through equals taking a
/// snapshot after `k` frames, restoring it, and replaying the rest with the
/// same inputs.
#[verifier::rlimit(50)]
pub proof fn lemma_rollback_equivalence(w: WorldModel, inputs: Seq<(u8, u8)>, k: int)
    requires
        0 <= k <= inputs.len(),
    ensures
        spec_run(w, inputs) == spec_run(spec_run(w, inputs.take(k)), inputs.skip(k)),
{
    let a = inputs.take(k);
    let b = inputs.skip(k);
    assert(a + b =~= inputs);
    lemma_run_append(w, a, b);
    assert(spec_run(w, a + b) == spec_run(spec_run(w, a), b));
}

/// Bounds reset: a player outside the play-area half-extents on either axis
/// is reset to the origin with zero velocity by the next step, whatever its
/// prior velocity; only the held color survives.
pub proof fn lemma_bounds_reset(p: Player, input: u8)
    requires
        spec_out_of_bounds(p),
    ensures
        spec_move_player(p, input) == (Player { x: 0, y: 0, vx: 0, vy: 0, color: p.color }),
{
}

/// Score trigger: a player whose color equals the current target scores
/// exactly one point, and the new target differs from the one just hit.
pub proof fn lemma_score_trigger(
    p: Player,
    target: CrystalColor,
    score: u64,
    frame: u64,
    handle: u64,
)
    requires
        p.color == Some(target),
        score < u64::MAX,
    ensures
        spec_progress_one(p, target, score, frame, handle).0 == score + 1,
        spec_progress_one(p, target, score, frame, handle).1 != target,
{
    CrystalColor::lemma_next_target_changes(target, spec_mix(frame, handle, SALT_TARGET));
}

} // verus!
