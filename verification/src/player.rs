use vstd::prelude::*;
use crate::layers::{projectile_layers, CollisionLayers, PhysicsLayers};
use crate::units::{PhysicMaterial, Vec2, UNIT};

verus! {

/// The player's anchor, from which the aim is taken.
pub const PLAYER_CENTER_X: i32 = 0;

pub const PLAYER_CENTER_Y: i32 = 8000;

/// The speed of a launched projectile, in world units per second.
pub const LAUNCH_SPEED: i32 = 12;

/// How far from the anchor a charging projectile is held, in world units.
pub const CHARGE_RADIUS: i32 = 2;

/// Where a retired projectile is put: far below the stage.
pub const RETIRED_Y: i32 = -50000;

/// How long one round of the charge timer lasts, in milliseconds.
pub const CHARGE_PERIOD_MS: u32 = 10000;

/// The charge timer starts over when a round is done.
pub const CHARGE_REPEATS: bool = true;

/// How far the squared length of an aim, in thousandths, may be from that
/// of a vector of length one. Rounding each part of such a vector to the
/// nearest thousandth stays within it.
pub const AIM_SLACK: i32 = 2000;

/// The edge of the projectile's square sprite.
pub const PROJECTILE_SIZE: i32 = 1000;

/// The radius of the projectile's collision sphere.
pub const PROJECTILE_RADIUS: i32 = 500;

pub open spec fn player_center_spec() -> Vec2 {
    Vec2 { x: PLAYER_CENTER_X, y: PLAYER_CENTER_Y }
}

pub fn player_center() -> (c: Vec2)
    ensures
        c == player_center_spec(),
{
    Vec2 { x: PLAYER_CENTER_X, y: PLAYER_CENTER_Y }
}

/// A direction from the player's anchor, in thousandths: a vector whose
/// length is one, as near as thousandths can tell.
#[derive(Clone, Copy, Debug, PartialEq, Eq, Structural)]
pub struct Aim {
    x: i32,
    y: i32,
}

impl Aim {
    #[verifier::type_invariant]
    spec fn wf(self) -> bool {
        Aim::fits(self.x, self.y)
    }

    pub closed spec fn view(self) -> Vec2 {
        Vec2 { x: self.x, y: self.y }
    }

    /// Whether the two parts can be those of a direction: neither is longer
    /// than one, and the squared length is within `AIM_SLACK` of one.
    pub open spec fn fits(x: i32, y: i32) -> bool {
        &&& -UNIT <= x <= UNIT
        &&& -UNIT <= y <= UNIT
        &&& UNIT * UNIT - AIM_SLACK <= x * x + y * y <= UNIT * UNIT + AIM_SLACK
    }

    /// Straight up.
    pub fn up() -> (a: Aim)
        ensures
            a@ == (Vec2 { x: 0, y: UNIT }),
    {
        Aim { x: 0, y: UNIT }
    }

    /// The direction with the given parts, where they fit.
    pub fn new(x: i32, y: i32) -> (r: Option<Aim>)
        ensures
            r.is_some() == Aim::fits(x, y),
            r.is_some() ==> r.unwrap()@ == (Vec2 { x, y }),
    {
        if -UNIT <= x && x <= UNIT && -UNIT <= y && y <= UNIT {
            assert(0 <= x * x <= 1000000 && 0 <= y * y <= 1000000) by (nonlinear_arith)
                requires
                    -1000 <= x <= 1000,
                    -1000 <= y <= 1000,
            ;
            let squared = x * x + y * y;
            if UNIT * UNIT - AIM_SLACK <= squared && squared <= UNIT * UNIT + AIM_SLACK {
                Some(Aim { x, y })
            } else {
                None
            }
        } else {
            None
        }
    }

    pub fn vector(&self) -> (v: Vec2)
        ensures
            v == self@,
            Aim::fits(v.x, v.y),
    {
        proof {
            use_type_invariant(self);
        }
        Vec2 { x: self.x, y: self.y }
    }
}

/// Where the pointer is in the world and where it points from the player.
/// Both keep their last value on a frame without news.
#[derive(Clone, Copy, Debug, PartialEq, Eq, Structural)]
pub struct MouseData {
    pub world_pos: Vec2,
    pub vec_from_player: Aim,
}

/// The position after a frame's pointer moves: the last one, or the old
/// position if there was none.
pub open spec fn last_move(before: Vec2, moves: Seq<Vec2>) -> Vec2 {
    if moves.len() == 0 {
        before
    } else {
        moves.last()
    }
}

impl MouseData {
    /// The pointer at the origin, aiming straight up.
    pub fn new() -> (m: MouseData)
        ensures
            m.world_pos == (Vec2 { x: 0, y: 0 }),
            m.vec_from_player@ == (Vec2 { x: 0, y: UNIT }),
    {
        MouseData { world_pos: Vec2 { x: 0, y: 0 }, vec_from_player: Aim::up() }
    }

    /// Takes in the pointer moves of one frame, given as world positions in
    /// the order in which they came, and says whether there was any. Only
    /// then is there a new aim to be taken; without news both the position
    /// and the aim stay as they are.
    pub fn track(&mut self, moves: &Vec<Vec2>) -> (moved: bool)
        ensures
            moved == (moves@.len() > 0),
            final(self).world_pos == last_move(old(self).world_pos, moves@),
            final(self).vec_from_player == old(self).vec_from_player,
            !moved ==> *final(self) == *old(self),
    {
        let n = moves.len();
        if n > 0 {
            self.world_pos = moves[n - 1];
            true
        } else {
            false
        }
    }

    /// Takes a new aim where its parts fit, and says whether it did; one
    /// that does not fit leaves the old aim in place.
    pub fn set_aim(&mut self, x: i32, y: i32) -> (taken: bool)
        ensures
            taken == Aim::fits(x, y),
            taken ==> final(self).vec_from_player@ == (Vec2 { x, y }),
            !taken ==> final(self).vec_from_player == old(self).vec_from_player,
            final(self).world_pos == old(self).world_pos,
    {
        match Aim::new(x, y) {
            Some(a) => {
                self.vec_from_player = a;
                true
            },
            None => false,
        }
    }
}

/// How the physics engine treats the projectile's body.
#[derive(Clone, Copy, Debug, PartialEq, Eq, Structural)]
pub enum RigidBody {
    /// Moved by forces and contacts.
    Dynamic,
    /// Held in place.
    Static,
    /// Taken out of the simulation.
    Inert,
}

/// Where the projectile is in its life.
#[derive(Clone, Copy, Debug, PartialEq, Eq, Structural)]
pub enum Phase {
    Resting,
    Charging,
    Flying,
    Spent,
}

/// What the charge timer is made with: the length of a round in
/// milliseconds, and whether it starts over when a round is done.
#[derive(Clone, Copy, Debug, PartialEq, Eq, Structural)]
pub struct ChargeTimer {
    pub period_ms: u32,
    pub repeating: bool,
}

/// The player's one projectile.
#[derive(Clone, Copy, Debug, PartialEq, Eq, Structural)]
pub struct PlayerProjectile {
    /// The size shown while charging, from 1 to 5.
    pub size: i32,
    pub phase: Phase,
    pub body: RigidBody,
    /// Set between the release of the button and the launch that follows.
    pub fired: bool,
    pub position: Vec2,
    /// The visual scale, in thousandths.
    pub scale: i32,
    /// In thousandths of a world unit per second.
    pub velocity: Vec2,
}

/// The size index for a squared sine given in thousandths: four times the
/// squared sine plus one, rounded to the nearest whole number, halves
/// upwards. The thousandths are to be the squared sine cut down, not
/// rounded: then the index is that of the squared sine itself, since the
/// index changes only where the thousandths reach 125, 375, 625 or 875. A
/// squared sine is at most one; a larger input counts as one.
pub open spec fn charge_size_spec(sine_squared: u32) -> int {
    let s: int = if sine_squared > UNIT {
        UNIT as int
    } else {
        sine_squared as int
    };
    1 + (4 * s + 500) / 1000
}

pub fn charge_size(sine_squared: u32) -> (size: i32)
    ensures
        size == charge_size_spec(sine_squared),
        1 <= size <= 5,
{
    let s: i32 = if sine_squared > 1000 {
        1000
    } else {
        sine_squared as i32
    };
    1 + (4 * s + 500) / 1000
}

/// A contact with a real enemy: a body that is an enemy and is not
/// something an enemy threw.
pub open spec fn is_enemy_hit(other: CollisionLayers) -> bool {
    other.groups().contains(PhysicsLayers::Enemy) && !other.groups().contains(
        PhysicsLayers::EnemyProj,
    )
}

pub open spec fn any_enemy_hit(contacts: Seq<CollisionLayers>) -> bool {
    exists|i: int| 0 <= i < contacts.len() && is_enemy_hit(#[trigger] contacts[i])
}

pub fn enemy_hit(other: &CollisionLayers) -> (hit: bool)
    ensures
        hit == is_enemy_hit(*other),
{
    other.contains_group(PhysicsLayers::Enemy) && !other.contains_group(PhysicsLayers::EnemyProj)
}

impl PlayerProjectile {
    /// What holds of the projectile in every phase.
    pub open spec fn wf(self) -> bool {
        &&& 1 <= self.size <= 5
        &&& self.fired ==> self.phase == Phase::Flying
        &&& self.phase == Phase::Charging ==> self.body == RigidBody::Static
        &&& self.phase == Phase::Flying ==> self.body == RigidBody::Dynamic
        &&& self.phase == Phase::Spent ==> self.body == RigidBody::Inert
    }

    /// The projectile as it first appears: at rest above the player.
    pub open spec fn spawned() -> PlayerProjectile {
        PlayerProjectile {
            size: 1,
            phase: Phase::Resting,
            body: RigidBody::Static,
            fired: false,
            position: Vec2 { x: -10000i32, y: 45000 },
            scale: 1000,
            velocity: Vec2 { x: 0, y: 0 },
        }
    }

    /// After the fire button went down: a resting projectile starts to
    /// charge and is held in place. A spent one does so only where `rearm`
    /// is set; in any other phase nothing happens.
    pub open spec fn pressed(self, rearm: bool) -> PlayerProjectile {
        if self.phase == Phase::Resting || (rearm && self.phase == Phase::Spent) {
            PlayerProjectile { phase: Phase::Charging, body: RigidBody::Static, ..self }
        } else {
            self
        }
    }

    /// After the fire button came up: a charging projectile is set free and
    /// marked as fired.
    pub open spec fn released(self) -> PlayerProjectile {
        if self.phase == Phase::Charging {
            PlayerProjectile {
                phase: Phase::Flying,
                body: RigidBody::Dynamic,
                fired: true,
                ..self
            }
        } else {
            self
        }
    }

    /// After the button's edges of one frame. Where both are reported, the
    /// button went down and came up again within the frame: the press is
    /// taken first and the release after it, so a charge that lasted no
    /// time still ends in a launch.
    pub open spec fn buttoned(self, just_pressed: bool, just_released: bool, rearm: bool)
        -> PlayerProjectile {
        let down = if just_pressed {
            self.pressed(rearm)
        } else {
            self
        };
        if just_released {
            down.released()
        } else {
            down
        }
    }

    /// The timer that runs beside the projectile: one while it charges,
    /// started at nothing when the charge begins, and none in any other
    /// phase.
    pub open spec fn charge_timer_spec(self) -> Option<ChargeTimer> {
        if self.phase == Phase::Charging {
            Some(ChargeTimer { period_ms: CHARGE_PERIOD_MS, repeating: CHARGE_REPEATS })
        } else {
            None
        }
    }

    /// After one frame of charging with the squared sine of the time
    /// charged so far: size and scale follow it, and the projectile is held
    /// on the circle round the player, where the aim points.
    pub open spec fn charged(self, aim: Vec2, sine_squared: u32) -> PlayerProjectile {
        if self.phase == Phase::Charging {
            PlayerProjectile {
                size: charge_size_spec(sine_squared) as i32,
                scale: (500 + 50 * charge_size_spec(sine_squared)) as i32,
                position: Vec2 {
                    x: (CHARGE_RADIUS * aim.x + PLAYER_CENTER_X) as i32,
                    y: (CHARGE_RADIUS * aim.y + PLAYER_CENTER_Y) as i32,
                },
                ..self
            }
        } else {
            self
        }
    }

    /// After the launch pass: a fired projectile gets its velocity, once.
    pub open spec fn launched(self, aim: Vec2) -> PlayerProjectile {
        if self.fired {
            PlayerProjectile {
                velocity: Vec2 {
                    x: (LAUNCH_SPEED * aim.x) as i32,
                    y: (LAUNCH_SPEED * aim.y) as i32,
                },
                fired: false,
                ..self
            }
        } else {
            self
        }
    }

    /// After the contacts of one frame: a flying projectile that touched a
    /// real enemy, however often, is put far below the stage and taken out
    /// of the simulation.
    pub open spec fn struck(self, contacts: Seq<CollisionLayers>) -> PlayerProjectile {
        if self.phase == Phase::Flying && any_enemy_hit(contacts) {
            PlayerProjectile {
                phase: Phase::Spent,
                body: RigidBody::Inert,
                fired: false,
                position: Vec2 { x: 0, y: RETIRED_Y },
                ..self
            }
        } else {
            self
        }
    }

    pub fn new() -> (p: PlayerProjectile)
        ensures
            p == PlayerProjectile::spawned(),
            p.wf(),
    {
        PlayerProjectile {
            size: 1,
            phase: Phase::Resting,
            body: RigidBody::Static,
            fired: false,
            position: Vec2 { x: -10000, y: 45000 },
            scale: 1000,
            velocity: Vec2 { x: 0, y: 0 },
        }
    }

    /// The button pass.
    pub fn mouse_input(&mut self, just_pressed: bool, just_released: bool, rearm: bool)
        ensures
            *final(self) == old(self).buttoned(just_pressed, just_released, rearm),
            old(self).wf() ==> final(self).wf(),
    {
        if just_pressed {
            if self.phase == Phase::Resting || (rearm && self.phase == Phase::Spent) {
                self.phase = Phase::Charging;
                self.body = RigidBody::Static;
            }
        }
        if just_released {
            if self.phase == Phase::Charging {
                self.phase = Phase::Flying;
                self.body = RigidBody::Dynamic;
                self.fired = true;
            }
        }
    }

    /// The timer that the projectile needs now, if any.
    pub fn charge_timer(&self) -> (t: Option<ChargeTimer>)
        ensures
            t == self.charge_timer_spec(),
    {
        if self.phase == Phase::Charging {
            Some(ChargeTimer { period_ms: CHARGE_PERIOD_MS, repeating: CHARGE_REPEATS })
        } else {
            None
        }
    }

    /// The charge pass.
    pub fn aim(&mut self, mouse: &MouseData, sine_squared: u32)
        ensures
            *final(self) == old(self).charged(mouse.vec_from_player@, sine_squared),
            old(self).wf() ==> final(self).wf(),
            1 <= old(self).size <= 5 ==> 1 <= final(self).size <= 5,
    {
        if self.phase == Phase::Charging {
            let aim = mouse.vec_from_player.vector();
            self.size = charge_size(sine_squared);
            self.scale = 500 + 50 * self.size;
            self.position = Vec2 {
                x: CHARGE_RADIUS * aim.x + PLAYER_CENTER_X,
                y: CHARGE_RADIUS * aim.y + PLAYER_CENTER_Y,
            };
        }
    }

    /// The launch pass.
    pub fn launch(&mut self, mouse: &MouseData)
        ensures
            *final(self) == old(self).launched(mouse.vec_from_player@),
            old(self).wf() ==> final(self).wf(),
    {
        if self.fired {
            let aim = mouse.vec_from_player.vector();
            self.velocity = Vec2 { x: LAUNCH_SPEED * aim.x, y: LAUNCH_SPEED * aim.y };
            self.fired = false;
        }
    }

    /// The impact pass. Says whether the projectile was retired by it.
    pub fn projectile_destruction(&mut self, contacts: &Vec<CollisionLayers>) -> (retired: bool)
        ensures
            *final(self) == old(self).struck(contacts@),
            retired == (old(self).phase == Phase::Flying && any_enemy_hit(contacts@)),
            old(self).wf() ==> final(self).wf(),
    {
        let mut hit = false;
        let mut i: usize = 0;
        while i < contacts.len()
            invariant
                i <= contacts@.len(),
                hit == any_enemy_hit(contacts@.take(i as int)),
            decreases contacts@.len() - i,
        {
            let here = enemy_hit(&contacts[i]);
            proof {
                let before = contacts@.take(i as int);
                let after = contacts@.take(i as int + 1);
                if any_enemy_hit(before) {
                    let k = choose|k: int| 0 <= k < before.len() && is_enemy_hit(before[k]);
                    assert(is_enemy_hit(after[k]));
                }
                if here {
                    assert(is_enemy_hit(after[i as int]));
                }
                if any_enemy_hit(after) {
                    let k = choose|k: int| 0 <= k < after.len() && is_enemy_hit(after[k]);
                    if k < i {
                        assert(is_enemy_hit(before[k]));
                    }
                }
            }
            hit = hit || here;
            i += 1;
        }
        proof {
            assert(contacts@.take(i as int) =~= contacts@);
        }
        if self.phase == Phase::Flying && hit {
            self.phase = Phase::Spent;
            self.body = RigidBody::Inert;
            self.fired = false;
            self.position = Vec2 { x: 0, y: RETIRED_Y };
            true
        } else {
            false
        }
    }
}

/// A projectile is retired once: a flying one that touched a real enemy is
/// spent after the pass whatever else it touched, as if that one contact had
/// been the only one, and no later contacts change a spent projectile.
pub proof fn lemma_impact_retires_once(
    p: PlayerProjectile,
    contacts: Seq<CollisionLayers>,
    i: int,
    later: Seq<CollisionLayers>,
)
    requires
        p.phase == Phase::Flying,
        0 <= i < contacts.len(),
        is_enemy_hit(contacts[i]),
    ensures
        p.struck(contacts).phase == Phase::Spent,
        p.struck(contacts) == p.struck(seq![contacts[i]]),
        p.struck(contacts).struck(later) == p.struck(contacts),
{
    let one = seq![contacts[i]];
    assert(is_enemy_hit(one[0]));
}

/// The size index stays within 1 to 5, whatever the squared sine.
pub proof fn lemma_charge_size_bound(sine_squared: u32)
    ensures
        1 <= charge_size_spec(sine_squared) <= 5,
        sine_squared == 0 ==> charge_size_spec(sine_squared) == 1,
        sine_squared >= UNIT ==> charge_size_spec(sine_squared) == 5,
{
}

/// The projectile as it enters the stage, with its sprite and its body.
#[derive(Clone, Copy, Debug, PartialEq, Eq, Structural)]
pub struct ProjectileBundle {
    pub projectile: PlayerProjectile,
    /// The size of the sprite.
    pub sprite_size: Vec2,
    /// The radius of the collision sphere.
    pub radius: i32,
    pub material: PhysicMaterial,
    pub layers: CollisionLayers,
}

/// `b` is the projectile as it is put on the stage: at rest, a sphere of
/// half a unit that loses nothing to friction and gains speed when it
/// bounces, in its own group, stopped by the ground, by enemies and by what
/// enemies throw.
pub open spec fn is_fresh_projectile(b: ProjectileBundle) -> bool {
    &&& b.projectile == PlayerProjectile::spawned()
    &&& b.sprite_size == (Vec2 { x: PROJECTILE_SIZE, y: PROJECTILE_SIZE })
    &&& b.radius == PROJECTILE_RADIUS
    &&& b.material == (PhysicMaterial { density: 1000, friction: 0, restitution: 1500 })
    &&& b.layers.groups() == set![PhysicsLayers::PlayerProj]
    &&& b.layers.masks() == set![
        PhysicsLayers::Ground,
        PhysicsLayers::Enemy,
        PhysicsLayers::EnemyProj,
    ]
}

impl ProjectileBundle {
    pub fn new() -> (b: ProjectileBundle)
        ensures
            is_fresh_projectile(b),
    {
        ProjectileBundle {
            projectile: PlayerProjectile::new(),
            sprite_size: Vec2 { x: PROJECTILE_SIZE, y: PROJECTILE_SIZE },
            radius: PROJECTILE_RADIUS,
            material: PhysicMaterial { density: 1000, friction: 0, restitution: 1500 },
            layers: projectile_layers(),
        }
    }
}

/// A launch is made at the fixed speed: the squared speed of a projectile
/// launched along `aim` is that of `LAUNCH_SPEED`, as near as the aim is to
/// length one.
pub proof fn lemma_launch_speed(p: PlayerProjectile, aim: Vec2)
    requires
        p.fired,
        Aim::fits(aim.x, aim.y),
    ensures
        p.launched(aim).velocity.x == LAUNCH_SPEED * aim.x,
        p.launched(aim).velocity.y == LAUNCH_SPEED * aim.y,
        ({
            let v = p.launched(aim).velocity;
            LAUNCH_SPEED * LAUNCH_SPEED * (UNIT * UNIT - AIM_SLACK) <= v.x * v.x + v.y * v.y
                <= LAUNCH_SPEED * LAUNCH_SPEED * (UNIT * UNIT + AIM_SLACK)
        }),
        !p.launched(aim).fired,
{
    let x = aim.x as int;
    let y = aim.y as int;
    let v = p.launched(aim).velocity;
    let n = x * x + y * y;
    assert(v.x == 12 * x && v.y == 12 * y);
    assert(998000 <= n <= 1002000);
    assert(v.x * v.x + v.y * v.y == 144 * n) by (nonlinear_arith)
        requires
            v.x == 12 * x,
            v.y == 12 * y,
            n == x * x + y * y,
    ;
    assert(LAUNCH_SPEED * LAUNCH_SPEED * (UNIT * UNIT - AIM_SLACK) == 144 * 998000);
    assert(LAUNCH_SPEED * LAUNCH_SPEED * (UNIT * UNIT + AIM_SLACK) == 144 * 1002000);
}

/// A press and a release within one frame launch a resting projectile: it
/// flies, it is free to move, it is marked as fired, and no charge timer is
/// left.
pub proof fn lemma_press_and_release_launches(p: PlayerProjectile, rearm: bool)
    requires
        p.phase == Phase::Resting,
    ensures
        p.buttoned(true, true, rearm).phase == Phase::Flying,
        p.buttoned(true, true, rearm).body == RigidBody::Dynamic,
        p.buttoned(true, true, rearm).fired,
        p.buttoned(true, true, rearm).charge_timer_spec().is_none(),
        p.buttoned(true, false, rearm).charge_timer_spec() == Some(
            ChargeTimer { period_ms: 10000, repeating: true },
        ),
{
}

/// What one frame brings from outside: the button's edges, the squared sine
/// of the time charged so far (in thousandths), the layers of every body
/// that touched the projectile, and whether a spent projectile may be
/// charged again.
#[derive(Debug)]
pub struct FrameInput {
    pub just_pressed: bool,
    pub just_released: bool,
    pub sine_squared: u32,
    pub contacts: Vec<CollisionLayers>,
    pub rearm: bool,
}

/// The projectile after the four passes of one frame, in their order:
/// button, charge, launch, impact.
pub open spec fn after_frame(p: PlayerProjectile, aim: Vec2, input: FrameInput)
    -> PlayerProjectile {
    p.buttoned(input.just_pressed, input.just_released, input.rearm).charged(
        aim,
        input.sine_squared,
    ).launched(aim).struck(input.contacts@)
}

/// The one place a projectile can be: empty before the first spawn, full
/// ever after.
#[derive(Clone, Copy, Debug, PartialEq, Eq)]
pub struct ProjectileSlot {
    pub projectile: Option<PlayerProjectile>,
}

impl ProjectileSlot {
    /// How many projectiles are alive.
    pub open spec fn live_count(self) -> nat {
        if self.projectile.is_some() {
            1
        } else {
            0
        }
    }

    /// The slot after one frame.
    pub open spec fn stepped(self, aim: Vec2, input: FrameInput) -> ProjectileSlot {
        match self.projectile {
            Some(p) => ProjectileSlot { projectile: Some(after_frame(p, aim, input)) },
            None => self,
        }
    }

    /// The slot after a run of frames, each with its own aim.
    pub open spec fn ran(self, frames: Seq<(Vec2, FrameInput)>) -> ProjectileSlot
        decreases frames.len(),
    {
        if frames.len() == 0 {
            self
        } else {
            self.ran(frames.drop_last()).stepped(frames.last().0, frames.last().1)
        }
    }

    pub fn new() -> (s: ProjectileSlot)
        ensures
            s.projectile.is_none(),
            s.live_count() == 0,
    {
        ProjectileSlot { projectile: None }
    }

    /// Puts the projectile on the stage and hands out what it is spawned
    /// with. Where there is one already, the request is ignored and nothing
    /// handed out.
    pub fn spawn_projectile(&mut self) -> (made: Option<ProjectileBundle>)
        ensures
            made.is_some() == old(self).projectile.is_none(),
            made.is_some() ==> is_fresh_projectile(made.unwrap()) && final(self).projectile
                == Some(made.unwrap().projectile),
            made.is_none() ==> *final(self) == *old(self),
            final(self).live_count() == 1,
    {
        if self.projectile.is_none() {
            let bundle = ProjectileBundle::new();
            self.projectile = Some(bundle.projectile);
            Some(bundle)
        } else {
            None
        }
    }

    /// Runs the four passes of one frame on the projectile, if there is one.
    pub fn frame(&mut self, mouse: &MouseData, input: &FrameInput) -> (retired: bool)
        ensures
            *final(self) == old(self).stepped(mouse.vec_from_player@, *input),
            final(self).live_count() == old(self).live_count(),
            retired == (old(self).projectile.is_some() && old(self).projectile.unwrap().buttoned(
                input.just_pressed,
                input.just_released,
                input.rearm,
            ).phase == Phase::Flying && any_enemy_hit(input.contacts@)),
    {
        match self.projectile {
            Some(p) => {
                let mut p = p;
                p.mouse_input(input.just_pressed, input.just_released, input.rearm);
                p.aim(mouse, input.sine_squared);
                p.launch(mouse);
                let retired = p.projectile_destruction(&input.contacts);
                self.projectile = Some(p);
                retired
            },
            None => false,
        }
    }
}

/// There is always exactly one projectile: once the slot is full, it is
/// full after every run of frames, whatever they bring.
pub proof fn lemma_one_projectile(slot: ProjectileSlot, frames: Seq<(Vec2, FrameInput)>)
    requires
        slot.live_count() == 1,
    ensures
        slot.ran(frames).live_count() == 1,
    decreases frames.len(),
{
    if frames.len() > 0 {
        lemma_one_projectile(slot, frames.drop_last());
    }
}

} // verus!
