use vstd::prelude::*;

verus! {

/// Describes a coordinate system.
#[derive(Debug, Clone, Copy, PartialEq, Eq, Structural)]
pub enum GeodeticSystem {
    Wgs84,
    Gcj02,
    Bd09,
}

/// One of the four direct transforms between neighbouring systems.
///
/// The regional system sits between the other two: the open and the vendor
/// system are only ever connected through it.
#[derive(Debug, Clone, Copy, PartialEq, Eq, Structural)]
pub enum Transform {
    /// Forward offset from the open system into the regional system.
    WgsToGcj,
    /// Fixed-point inversion of the regional offset.
    GcjToWgs,
    /// Polar warp from the regional system into the vendor system.
    GcjToBd,
    /// Closed-form inverse of the polar warp.
    BdToGcj,
}

impl Transform {
    /// The system a transform reads its coordinate in.
    pub open spec fn source(self) -> GeodeticSystem {
        match self {
            Transform::WgsToGcj => GeodeticSystem::Wgs84,
            Transform::GcjToWgs => GeodeticSystem::Gcj02,
            Transform::GcjToBd => GeodeticSystem::Gcj02,
            Transform::BdToGcj => GeodeticSystem::Bd09,
        }
    }

    /// The system a transform writes its coordinate in.
    pub open spec fn target(self) -> GeodeticSystem {
        match self {
            Transform::WgsToGcj => GeodeticSystem::Gcj02,
            Transform::GcjToWgs => GeodeticSystem::Wgs84,
            Transform::GcjToBd => GeodeticSystem::Bd09,
            Transform::BdToGcj => GeodeticSystem::Gcj02,
        }
    }
}

/// The transforms that bring a coordinate of `s` into the regional system.
pub open spec fn into_regional(s: GeodeticSystem) -> Seq<Transform> {
    match s {
        GeodeticSystem::Wgs84 => seq![Transform::WgsToGcj],
        GeodeticSystem::Gcj02 => seq![],
        GeodeticSystem::Bd09 => seq![Transform::BdToGcj],
    }
}

/// The transforms that bring a regional coordinate into `s`.
pub open spec fn out_of_regional(s: GeodeticSystem) -> Seq<Transform> {
    match s {
        GeodeticSystem::Wgs84 => seq![Transform::GcjToWgs],
        GeodeticSystem::Gcj02 => seq![],
        GeodeticSystem::Bd09 => seq![Transform::GcjToBd],
    }
}

/// The chain of transforms applied to convert from `from` to `to`: nothing
/// when the systems agree, otherwise into the regional system and out of it.
pub open spec fn route_of(from: GeodeticSystem, to: GeodeticSystem) -> Seq<Transform> {
    if from == to {
        seq![]
    } else {
        into_regional(from) + out_of_regional(to)
    }
}

/// `steps` applied in order lead from `from` to `to`: each step reads the
/// system the previous one wrote.
pub open spec fn is_chain(steps: Seq<Transform>, from: GeodeticSystem, to: GeodeticSystem) -> bool
    decreases steps.len(),
{
    if steps.len() == 0 {
        from == to
    } else {
        steps[0].source() == from && is_chain(steps.drop_first(), steps[0].target(), to)
    }
}

impl GeodeticSystem {
    /// The transforms that convert a coordinate from `self` to `target`, in
    /// the order they are applied.
    pub fn route_to(self, target: Self) -> (r: Vec<Transform>)
        ensures
            r@ == route_of(self, target),
    {
        let mut r: Vec<Transform> = Vec::new();
        if self == target {
            return r;
        }
        match self {
            GeodeticSystem::Wgs84 => r.push(Transform::WgsToGcj),
            GeodeticSystem::Gcj02 => {},
            GeodeticSystem::Bd09 => r.push(Transform::BdToGcj),
        }
        match target {
            GeodeticSystem::Wgs84 => r.push(Transform::GcjToWgs),
            GeodeticSystem::Gcj02 => {},
            GeodeticSystem::Bd09 => r.push(Transform::GcjToBd),
        }
        assert(r@ =~= route_of(self, target));
        r
    }
}

/// Converting a coordinate to the system it is already in applies no
/// transform at all, so the coordinate comes back exactly as it was.
pub proof fn lemma_route_identity(s: GeodeticSystem)
    ensures
        route_of(s, s) == Seq::<Transform>::empty(),
{
}

/// Every route is a chain of at most two transforms that starts in the
/// source system and ends in the target system, and a route between two
/// distinct systems is never empty.
pub proof fn lemma_route_connects(from: GeodeticSystem, to: GeodeticSystem)
    ensures
        is_chain(route_of(from, to), from, to),
        route_of(from, to).len() <= 2,
        from != to ==> route_of(from, to).len() >= 1,
{
    reveal_with_fuel(is_chain, 3);
}

/// Converting between two distinct systems is the same as converting into
/// the regional system and from there into the target: in particular the
/// open-to-vendor route is the open-to-regional route followed by the
/// regional-to-vendor route.
pub proof fn lemma_route_through_regional(from: GeodeticSystem, to: GeodeticSystem)
    requires
        from != to,
    ensures
        route_of(from, to) == route_of(from, GeodeticSystem::Gcj02) + route_of(
            GeodeticSystem::Gcj02,
            to,
        ),
{
    assert(route_of(from, to) =~= route_of(from, GeodeticSystem::Gcj02) + route_of(
        GeodeticSystem::Gcj02,
        to,
    ));
}

} // verus!
