use vstd::prelude::*;
use rand::Rng;
use crate::enemies::{explosion_of, is_dying, Enemy, ExplosionBundle, Facing, Hop};
use crate::layers::{giant_layers, giant_layers_spec, CollisionLayers};
use crate::units::{PhysicMaterial, Vec2};

verus! {

pub const GIANT_HEALTH: i32 = 50;

pub const GIANT_WIDTH: i32 = 3000;

pub const GIANT_HEIGHT: i32 = 6000;

/// How far from the middle a giant appears, on the side it does not face.
pub const SPAWN_OFFSET_X: i32 = 24000;

pub const SPAWN_HEIGHT: i32 = 6000;

/// The band of the launch impulse's horizontal size: from `POWER_X_LOW` up
/// to, not including, `POWER_X_HIGH`.
pub const POWER_X_LOW: i32 = 500;

pub const POWER_X_HIGH: i32 = 510;

/// The band of the launch impulse's vertical part, upper end not included.
pub const POWER_Y_LOW: i32 = 10500;

pub const POWER_Y_HIGH: i32 = 11000;

/// A request to put one giant on the stage.
#[derive(Clone, Copy, Debug, PartialEq, Eq, Structural)]
pub struct GiantSpawn;

/// A giant as it enters the stage.
#[derive(Clone, Copy, Debug, PartialEq, Eq, Structural)]
pub struct Giant {
    pub position: Vec2,
    pub shape: Vec2,
    pub material: PhysicMaterial,
    pub layers: CollisionLayers,
    pub enemy: Enemy,
    pub hop: Hop,
}

/// The launch impulse: `x_magnitude` towards the side faced, `y` upwards.
pub open spec fn hop_power_spec(facing: Facing, x_magnitude: i32, y: i32) -> Vec2 {
    Vec2 { x: (x_magnitude * facing.sign()) as i32, y }
}

/// Where a giant appears: on the side it does not face.
pub open spec fn spawn_position_spec(facing: Facing) -> Vec2 {
    Vec2 { x: (SPAWN_OFFSET_X * -facing.sign()) as i32, y: SPAWN_HEIGHT }
}

/// `g` is the giant made for `facing` with the impulse drawn as
/// `x_magnitude` and `y`.
pub open spec fn is_giant(
    g: Giant,
    facing: Facing,
    x_magnitude: i32,
    y: i32,
    collide_with_giants: bool,
) -> bool {
    &&& g.position == spawn_position_spec(facing)
    &&& g.shape == (Vec2 { x: GIANT_WIDTH, y: GIANT_HEIGHT })
    &&& g.material == (PhysicMaterial { density: 1000, friction: 2000, restitution: 200 })
    &&& g.layers.groups() == giant_layers_spec(collide_with_giants).0
    &&& g.layers.masks() == giant_layers_spec(collide_with_giants).1
    &&& g.enemy == (Enemy { health: GIANT_HEALTH, facing })
    &&& g.hop == (Hop { grounded: false, power: hop_power_spec(facing, x_magnitude, y) })
}

/// `g` is a giant that a spawn could have made: some facing, some impulse
/// within the two bands.
pub open spec fn is_spawned_giant(g: Giant, collide_with_giants: bool) -> bool {
    exists|facing: Facing, x_magnitude: i32, y: i32|
        POWER_X_LOW <= x_magnitude < POWER_X_HIGH && POWER_Y_LOW <= y < POWER_Y_HIGH
            && #[trigger] is_giant(g, facing, x_magnitude, y, collide_with_giants)
}

/// Tosses a fair coin with `rand::Rng::gen_ratio(1, 2)` on the thread's
/// generator. Nothing is claimed of the outcome.
#[verifier::external_body]
fn toss_coin() -> bool {
    rand::thread_rng().gen_ratio(1, 2)
}

/// Draws an integer with `rand::Rng::gen_range(low..high)` on the thread's
/// generator. The range must not be empty, on which the call panics; the
/// draw lies in it, upper end not included.
#[verifier::external_body]
fn draw_between(low: i32, high: i32) -> (r: i32)
    requires
        low < high,
    ensures
        low <= r < high,
{
    rand::thread_rng().gen_range(low..high)
}

/// The launch impulse for a giant that faces `facing`.
pub fn hop_power(facing: Facing, x_magnitude: i32, y: i32) -> (power: Vec2)
    requires
        x_magnitude > i32::MIN,
    ensures
        power == hop_power_spec(facing, x_magnitude, y),
        power.x == x_magnitude * facing.sign(),
{
    Vec2 { x: x_magnitude * facing.multiplier(), y }
}

impl Giant {
    /// The giant for a given facing and a given draw of the impulse.
    pub fn new(facing: Facing, x_magnitude: i32, y: i32, collide_with_giants: bool) -> (g: Giant)
        requires
            x_magnitude > i32::MIN,
        ensures
            is_giant(g, facing, x_magnitude, y, collide_with_giants),
    {
        Giant {
            position: Vec2 { x: SPAWN_OFFSET_X * -facing.multiplier(), y: SPAWN_HEIGHT },
            shape: Vec2 { x: GIANT_WIDTH, y: GIANT_HEIGHT },
            material: PhysicMaterial { density: 1000, friction: 2000, restitution: 200 },
            layers: giant_layers(collide_with_giants),
            enemy: Enemy { health: GIANT_HEALTH, facing },
            hop: Hop { grounded: false, power: hop_power(facing, x_magnitude, y) },
        }
    }

    /// One giant with a random facing and a random impulse within the bands.
    pub fn random(collide_with_giants: bool) -> (g: Giant)
        ensures
            is_spawned_giant(g, collide_with_giants),
    {
        let facing = Facing::from_coin(toss_coin());
        let x_magnitude = draw_between(POWER_X_LOW, POWER_X_HIGH);
        let y = draw_between(POWER_Y_LOW, POWER_Y_HIGH);
        Giant::new(facing, x_magnitude, y, collide_with_giants)
    }
}

/// Answers every waiting request with one giant and leaves the queue empty,
/// so that no request is answered twice.
pub fn spawn(requests: &mut Vec<GiantSpawn>, collide_with_giants: bool) -> (giants: Vec<Giant>)
    ensures
        final(requests)@.len() == 0,
        giants@.len() == old(requests)@.len(),
        forall|i: int|
            0 <= i < giants@.len() ==> is_spawned_giant(#[trigger] giants@[i], collide_with_giants),
{
    let n = requests.len();
    let mut giants: Vec<Giant> = Vec::new();
    let mut i: usize = 0;
    while i < n
        invariant
            i <= n,
            giants@.len() == i,
            forall|k: int|
                0 <= k < giants@.len() ==> is_spawned_giant(
                    #[trigger] giants@[k],
                    collide_with_giants,
                ),
        decreases n - i,
    {
        giants.push(Giant::random(collide_with_giants));
        i += 1;
    }
    requests.clear();
    giants
}

/// Facing left or right changes nothing but the side: the spawn point and
/// the horizontal impulse are each other's negatives, of the same size, and
/// everything else is the same.
pub proof fn lemma_facing_mirrors(
    left: Giant,
    right: Giant,
    x_magnitude: i32,
    y: i32,
    collide_with_giants: bool,
)
    requires
        x_magnitude > i32::MIN,
        is_giant(left, Facing::Left, x_magnitude, y, collide_with_giants),
        is_giant(right, Facing::Right, x_magnitude, y, collide_with_giants),
    ensures
        left.position.x == -right.position.x,
        left.position.y == right.position.y,
        left.hop.power.x == -right.hop.power.x,
        left.hop.power.y == right.hop.power.y,
        right.hop.power.x == x_magnitude,
        right.position.x == -SPAWN_OFFSET_X,
        left.enemy.health == right.enemy.health,
        left.shape == right.shape,
{
    assert(left.hop.power == hop_power_spec(Facing::Left, x_magnitude, y));
    assert(right.hop.power == hop_power_spec(Facing::Right, x_magnitude, y));
    assert(Facing::Left.sign() == -1 && Facing::Right.sign() == 1);
    assert(x_magnitude * (-1) == -x_magnitude);
    assert(x_magnitude * 1 == x_magnitude);
}

/// A giant is launched the way it faces, from the side it does not face:
/// to the right from the left of the stage, or to the left from the right.
pub proof fn lemma_launch_follows_facing(g: Giant, collide_with_giants: bool)
    requires
        is_spawned_giant(g, collide_with_giants),
    ensures
        g.enemy.facing == Facing::Right ==> g.hop.power.x > 0 && g.position.x < 0,
        g.enemy.facing == Facing::Left ==> g.hop.power.x < 0 && g.position.x > 0,
        g.hop.power.y > 0,
        !g.hop.grounded,
        g.enemy.health == GIANT_HEALTH,
{
    let (facing, x_magnitude, y) = choose|facing: Facing, x_magnitude: i32, y: i32|
        POWER_X_LOW <= x_magnitude < POWER_X_HIGH && POWER_Y_LOW <= y < POWER_Y_HIGH
            && #[trigger] is_giant(g, facing, x_magnitude, y, collide_with_giants);
    assert(g.hop.power == hop_power_spec(facing, x_magnitude, y));
    assert(Facing::Left.sign() == -1 && Facing::Right.sign() == 1);
    assert(x_magnitude * (-1) == -x_magnitude);
    assert(x_magnitude * 1 == x_magnitude);
}

/// One giant as the health pass sees it: who it is, what it carries, whether
/// its health was touched this frame, and where it stands.
#[derive(Clone, Copy, Debug, PartialEq, Eq, Structural)]
pub struct GiantEntry {
    pub entity: u64,
    pub enemy: Enemy,
    pub changed: bool,
    pub position: Vec2,
}

/// What the health pass reports of one giant that died: who it was, and the
/// explosion that takes its place.
#[derive(Clone, Copy, Debug, PartialEq, Eq, Structural)]
pub struct Death {
    pub entity: u64,
    pub explosion: ExplosionBundle,
}

/// The death of `e`: an explosion where it stood, sized by its health.
pub open spec fn death_of(e: GiantEntry) -> Death {
    Death { entity: e.entity, explosion: explosion_of(e.enemy.health, e.position) }
}

/// The giants of `s` that the health pass leaves alive, in their order.
pub open spec fn survivors(s: Seq<GiantEntry>) -> Seq<GiantEntry> {
    s.filter(|e: GiantEntry| !is_dying(e.enemy, e.changed))
}

/// The deaths that the health pass reports for `s`: one for each giant that
/// dies, in their order.
pub open spec fn deaths(s: Seq<GiantEntry>) -> Seq<Death> {
    s.filter(|e: GiantEntry| is_dying(e.enemy, e.changed)).map_values(
        |e: GiantEntry| death_of(e),
    )
}

/// The health pass: every giant whose health was touched and is at or below
/// zero leaves the stage, and one explosion takes its place.
pub fn health(giants: &mut Vec<GiantEntry>) -> (dead: Vec<Death>)
    ensures
        final(giants)@ == survivors(old(giants)@),
        dead@ == deaths(old(giants)@),
{
    let ghost before = giants@;
    let mut kept: Vec<GiantEntry> = Vec::new();
    let mut dead: Vec<Death> = Vec::new();
    let n = giants.len();
    let mut i: usize = 0;
    while i < n
        invariant
            i <= n,
            n == giants@.len(),
            giants@ == before,
            kept@ == survivors(before.take(i as int)),
            dead@ == deaths(before.take(i as int)),
        decreases n - i,
    {
        let entry = giants[i];
        proof {
            lemma_pass_step(before.take(i as int + 1));
            assert(before.take(i as int + 1).drop_last() =~= before.take(i as int));
        }
        match entry.enemy.death(entry.changed, entry.position) {
            Some(explosion) => {
                dead.push(Death { entity: entry.entity, explosion });
            },
            None => {
                kept.push(entry);
            },
        }
        i += 1;
    }
    proof {
        assert(before.take(n as int) =~= before);
    }
    *giants = kept;
    dead
}

/// How the pass treats the last giant of a sequence.
proof fn lemma_pass_step(s: Seq<GiantEntry>)
    requires
        s.len() > 0,
    ensures
        survivors(s) == (if is_dying(s.last().enemy, s.last().changed) {
            survivors(s.drop_last())
        } else {
            survivors(s.drop_last()).push(s.last())
        }),
        deaths(s) == (if is_dying(s.last().enemy, s.last().changed) {
            deaths(s.drop_last()).push(death_of(s.last()))
        } else {
            deaths(s.drop_last())
        }),
{
    reveal(Seq::filter);
    let dying = |e: GiantEntry| is_dying(e.enemy, e.changed);
    let report = |e: GiantEntry| death_of(e);
    if is_dying(s.last().enemy, s.last().changed) {
        assert(s.filter(dying) == s.drop_last().filter(dying).push(s.last()));
        assert(s.filter(dying).map_values(report) =~= s.drop_last().filter(dying).map_values(
            report,
        ).push(report(s.last())));
    }
}

/// A giant dies once: after the health pass has run, running it again on
/// what it left spawns no explosion and removes nobody.
pub proof fn lemma_death_fires_once(s: Seq<GiantEntry>)
    ensures
        deaths(survivors(s)) == Seq::<Death>::empty(),
        survivors(survivors(s)) == survivors(s),
{
    let alive = |e: GiantEntry| !is_dying(e.enemy, e.changed);
    let dying = |e: GiantEntry| is_dying(e.enemy, e.changed);
    let kept = s.filter(alive);
    assert forall|i: int| 0 <= i < kept.len() implies alive(#[trigger] kept[i]) by {
        s.lemma_filter_pred(alive, i);
    }
    kept.lemma_all_neg_filter_empty(dying);
    assert(kept.filter(dying).len() == 0);
    assert(deaths(kept) =~= Seq::<Death>::empty());
    lemma_filter_keeps_all(kept);
}

proof fn lemma_filter_keeps_all(s: Seq<GiantEntry>)
    requires
        forall|i: int| 0 <= i < s.len() ==> !is_dying(#[trigger] s[i].enemy, s[i].changed),
    ensures
        survivors(s) == s,
    decreases s.len(),
{
    reveal(Seq::filter);
    if s.len() > 0 {
        lemma_filter_keeps_all(s.drop_last());
        assert(s.drop_last().push(s.last()) =~= s);
    }
}

} // verus!
