use vstd::prelude::*;

verus! {

/// The collision categories a body can belong to or collide with.
#[derive(Clone, Copy, Debug, PartialEq, Eq, Structural)]
pub enum PhysicsLayers {
    Ground,
    Enemy,
    Giant,
    PlayerProj,
    EnemyProj,
}

impl PhysicsLayers {
    /// The single bit that stands for this layer in a bit set.
    pub open spec fn bit(self) -> u32 {
        match self {
            PhysicsLayers::Ground => 1,
            PhysicsLayers::Enemy => 2,
            PhysicsLayers::Giant => 4,
            PhysicsLayers::PlayerProj => 8,
            PhysicsLayers::EnemyProj => 16,
        }
    }

    pub fn to_bits(self) -> (r: u32)
        ensures
            r == self.bit(),
    {
        match self {
            PhysicsLayers::Ground => 1,
            PhysicsLayers::Enemy => 2,
            PhysicsLayers::Giant => 4,
            PhysicsLayers::PlayerProj => 8,
            PhysicsLayers::EnemyProj => 16,
        }
    }
}

/// Every bit that stands for some layer.
pub const ALL_BITS: u32 = 31;

/// The layers whose bit is set in `bits`.
pub open spec fn layers_of(bits: u32) -> Set<PhysicsLayers> {
    Set::new(|l: PhysicsLayers| bits & l.bit() != 0)
}

/// Two sets of layers have a layer in common.
pub open spec fn overlap(a: Set<PhysicsLayers>, b: Set<PhysicsLayers>) -> bool {
    exists|l: PhysicsLayers| a.contains(l) && b.contains(l)
}

proof fn lemma_set_bit(bits: u32, m: u32, k: u32)
    requires
        m == 1 || m == 2 || m == 4 || m == 8 || m == 16,
        k == 1 || k == 2 || k == 4 || k == 8 || k == 16,
    ensures
        ((bits | m) & k != 0) == ((bits & k != 0) || m == k),
        (bits | m) <= 31 <==> bits <= 31,
{
    assert(((bits | m) & k != 0) == ((bits & k != 0) || m == k)) by (bit_vector)
        requires
            m == 1 || m == 2 || m == 4 || m == 8 || m == 16,
            k == 1 || k == 2 || k == 4 || k == 8 || k == 16,
    ;
    assert((bits | m) <= 31 <==> bits <= 31) by (bit_vector)
        requires
            m == 1 || m == 2 || m == 4 || m == 8 || m == 16,
    ;
}

proof fn lemma_common_bit(a: u32, b: u32)
    requires
        a <= 31,
        b <= 31,
    ensures
        (a & b != 0) == overlap(layers_of(a), layers_of(b)),
{
    assert((a & b != 0) == ((a & 1 != 0 && b & 1 != 0) || (a & 2 != 0 && b & 2 != 0) || (a & 4
        != 0 && b & 4 != 0) || (a & 8 != 0 && b & 8 != 0) || (a & 16 != 0 && b & 16 != 0)))
        by (bit_vector)
        requires
            a <= 31,
            b <= 31,
    ;
    let sa = layers_of(a);
    let sb = layers_of(b);
    if a & b != 0 {
        if a & 1 != 0 && b & 1 != 0 {
            assert(sa.contains(PhysicsLayers::Ground) && sb.contains(PhysicsLayers::Ground));
        } else if a & 2 != 0 && b & 2 != 0 {
            assert(sa.contains(PhysicsLayers::Enemy) && sb.contains(PhysicsLayers::Enemy));
        } else if a & 4 != 0 && b & 4 != 0 {
            assert(sa.contains(PhysicsLayers::Giant) && sb.contains(PhysicsLayers::Giant));
        } else if a & 8 != 0 && b & 8 != 0 {
            assert(sa.contains(PhysicsLayers::PlayerProj) && sb.contains(
                PhysicsLayers::PlayerProj,
            ));
        } else {
            assert(sa.contains(PhysicsLayers::EnemyProj) && sb.contains(
                PhysicsLayers::EnemyProj,
            ));
        }
    }
    if overlap(sa, sb) {
        let l = choose|l: PhysicsLayers| sa.contains(l) && sb.contains(l);
        assert(a & l.bit() != 0 && b & l.bit() != 0);
    }
}

/// What a body belongs to (its groups) and what it may collide with (its
/// masks).
#[derive(Clone, Copy, Debug, PartialEq, Eq, Structural)]
pub struct CollisionLayers {
    groups: u32,
    masks: u32,
}

impl CollisionLayers {
    #[verifier::type_invariant]
    spec fn wf(self) -> bool {
        self.groups <= 31 && self.masks <= 31
    }

    /// The layers this body belongs to.
    pub closed spec fn groups(self) -> Set<PhysicsLayers> {
        layers_of(self.groups)
    }

    /// The layers this body may collide with.
    pub closed spec fn masks(self) -> Set<PhysicsLayers> {
        layers_of(self.masks)
    }

    /// Whether the physics engine lets two bodies touch: each one's masks
    /// hold a group of the other.
    pub open spec fn interacts(self, other: CollisionLayers) -> bool {
        overlap(self.groups(), other.masks()) && overlap(other.groups(), self.masks())
    }

    /// A body in no group that collides with nothing.
    pub fn none() -> (r: CollisionLayers)
        ensures
            r.groups() == Set::<PhysicsLayers>::empty(),
            r.masks() == Set::<PhysicsLayers>::empty(),
    {
        let r = CollisionLayers { groups: 0, masks: 0 };
        proof {
            assert forall|l: PhysicsLayers| 0u32 & l.bit() == 0 by {
                let k = l.bit();
                assert(0u32 & k == 0) by (bit_vector);
            }
            assert(r.groups() =~= Set::<PhysicsLayers>::empty());
            assert(r.masks() =~= Set::<PhysicsLayers>::empty());
        }
        r
    }

    /// Builds the pair from two bit sets; bits that stand for no layer are
    /// dropped.
    pub fn from_bits(groups: u32, masks: u32) -> (r: CollisionLayers)
        ensures
            r.groups() == layers_of(groups),
            r.masks() == layers_of(masks),
    {
        proof {
            assert(groups & 31 <= 31) by (bit_vector);
            assert(masks & 31 <= 31) by (bit_vector);
        }
        let r = CollisionLayers { groups: groups & ALL_BITS, masks: masks & ALL_BITS };
        proof {
            assert forall|l: PhysicsLayers|
                ((groups & 31) & l.bit() != 0) == (groups & l.bit() != 0) && ((masks & 31)
                    & l.bit() != 0) == (masks & l.bit() != 0) by {
                let k = l.bit();
                assert(((groups & 31) & k != 0) == (groups & k != 0)) by (bit_vector)
                    requires
                        k == 1 || k == 2 || k == 4 || k == 8 || k == 16,
                ;
                assert(((masks & 31) & k != 0) == (masks & k != 0)) by (bit_vector)
                    requires
                        k == 1 || k == 2 || k == 4 || k == 8 || k == 16,
                ;
            }
            assert(r.groups() =~= layers_of(groups));
            assert(r.masks() =~= layers_of(masks));
        }
        r
    }

    pub fn groups_bits(&self) -> (r: u32)
        ensures
            layers_of(r) == self.groups(),
            r <= ALL_BITS,
    {
        proof {
            use_type_invariant(self);
        }
        self.groups
    }

    pub fn masks_bits(&self) -> (r: u32)
        ensures
            layers_of(r) == self.masks(),
            r <= ALL_BITS,
    {
        proof {
            use_type_invariant(self);
        }
        self.masks
    }

    /// The same body, also a member of `layer`.
    pub fn with_group(self, layer: PhysicsLayers) -> (r: CollisionLayers)
        ensures
            r.groups() == self.groups().insert(layer),
            r.masks() == self.masks(),
    {
        proof {
            use_type_invariant(self);
            assert forall|l: PhysicsLayers|
                ((self.groups | layer.bit()) & l.bit() != 0) == ((self.groups & l.bit() != 0)
                    || layer == l) by {
                lemma_set_bit(self.groups, layer.bit(), l.bit());
            }
            lemma_set_bit(self.groups, layer.bit(), layer.bit());
        }
        let r = CollisionLayers { groups: self.groups | layer.to_bits(), masks: self.masks };
        proof {
            assert(r.groups() =~= self.groups().insert(layer));
        }
        r
    }

    /// The same body, also colliding with `layer`.
    pub fn with_mask(self, layer: PhysicsLayers) -> (r: CollisionLayers)
        ensures
            r.masks() == self.masks().insert(layer),
            r.groups() == self.groups(),
    {
        proof {
            use_type_invariant(self);
            assert forall|l: PhysicsLayers|
                ((self.masks | layer.bit()) & l.bit() != 0) == ((self.masks & l.bit() != 0)
                    || layer == l) by {
                lemma_set_bit(self.masks, layer.bit(), l.bit());
            }
            lemma_set_bit(self.masks, layer.bit(), layer.bit());
        }
        let r = CollisionLayers { groups: self.groups, masks: self.masks | layer.to_bits() };
        proof {
            assert(r.masks() =~= self.masks().insert(layer));
        }
        r
    }

    pub fn contains_group(&self, layer: PhysicsLayers) -> (r: bool)
        ensures
            r == self.groups().contains(layer),
    {
        self.groups & layer.to_bits() != 0
    }

    pub fn contains_mask(&self, layer: PhysicsLayers) -> (r: bool)
        ensures
            r == self.masks().contains(layer),
    {
        self.masks & layer.to_bits() != 0
    }

    pub fn interacts_with(&self, other: &CollisionLayers) -> (r: bool)
        ensures
            r == self.interacts(*other),
    {
        proof {
            use_type_invariant(self);
            use_type_invariant(other);
            lemma_common_bit(self.groups, other.masks);
            lemma_common_bit(other.groups, self.masks);
        }
        (self.groups & other.masks) != 0 && (other.groups & self.masks) != 0
    }
}

/// The layers of a giant: an enemy and a giant, stopped by the ground and by
/// the player's projectile, and by other giants only where
/// `collide_with_giants` is set.
pub open spec fn giant_layers_spec(collide_with_giants: bool) -> (
    Set<PhysicsLayers>,
    Set<PhysicsLayers>,
) {
    (
        set![PhysicsLayers::Enemy, PhysicsLayers::Giant],
        if collide_with_giants {
            set![PhysicsLayers::Ground, PhysicsLayers::PlayerProj, PhysicsLayers::Giant]
        } else {
            set![PhysicsLayers::Ground, PhysicsLayers::PlayerProj]
        },
    )
}

pub fn giant_layers(collide_with_giants: bool) -> (r: CollisionLayers)
    ensures
        r.groups() == giant_layers_spec(collide_with_giants).0,
        r.masks() == giant_layers_spec(collide_with_giants).1,
{
    let base = CollisionLayers::none().with_group(PhysicsLayers::Enemy).with_group(
        PhysicsLayers::Giant,
    ).with_mask(PhysicsLayers::Ground).with_mask(PhysicsLayers::PlayerProj);
    let r = if collide_with_giants {
        base.with_mask(PhysicsLayers::Giant)
    } else {
        base
    };
    proof {
        assert(r.groups() =~= giant_layers_spec(collide_with_giants).0);
        assert(r.masks() =~= giant_layers_spec(collide_with_giants).1);
    }
    r
}

/// The layers of the player's projectile: its own group, stopped by the
/// ground, by enemies and by what enemies throw.
pub fn projectile_layers() -> (r: CollisionLayers)
    ensures
        r.groups() == set![PhysicsLayers::PlayerProj],
        r.masks() == set![PhysicsLayers::Ground, PhysicsLayers::Enemy, PhysicsLayers::EnemyProj],
{
    let r = CollisionLayers::none().with_group(PhysicsLayers::PlayerProj).with_mask(
        PhysicsLayers::Ground,
    ).with_mask(PhysicsLayers::Enemy).with_mask(PhysicsLayers::EnemyProj);
    proof {
        assert(r.groups() =~= set![PhysicsLayers::PlayerProj]);
        assert(r.masks() =~= set![
            PhysicsLayers::Ground,
            PhysicsLayers::Enemy,
            PhysicsLayers::EnemyProj,
        ]);
    }
    r
}

} // verus!
