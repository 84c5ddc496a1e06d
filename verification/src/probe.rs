//! Ground contact detection: derives the downward shape-cast query from the
//! player's capsule collider, classifies the cast result with slope
//! filtering, and maintains the continuous dwell time on solid ground.
//!
//! The spatial query itself is answered by the physics engine; this core
//! publishes the cast parameters and consumes the cast result as plain
//! values.

use vstd::prelude::*;

verus! {

use crate::ConfigError;

/// A collider shape, described by its dimensions in world distance units.
#[derive(Clone, Copy, Debug, PartialEq, Eq, Structural)]
pub enum ColliderShape {
    Capsule { radius: u64, half_height: u64 },
    Sphere { radius: u64 },
    Cuboid { half_x: u64, half_y: u64, half_z: u64 },
}

/// What the physics engine reports for a downward shape cast that hit
/// something within the allowed travel distance.
#[derive(Clone, Copy, Debug, PartialEq, Eq, Structural)]
pub struct CastHit {
    /// How far the cast shape traveled before touching, in world distance
    /// units.
    pub distance: u64,
    /// The hit surface normal's vertical component (its dot product with
    /// "up"), in thousandths: `1000` for a flat floor, `0` for a wall.
    pub normal_up_milli: i64,
}

/// Contact classification for one fixed tick.
#[derive(Clone, Copy, Debug, PartialEq, Eq, Structural)]
pub enum ContactState {
    Grounded,
    Airborne,
}

/// Continuous dwell time in ground contact, used to gate the jump action:
/// requiring a minimum dwell on solid ground prevents repeated-jump
/// exploits from a single-frame touch.
#[derive(Clone, Copy, Debug, PartialEq, Eq, Structural)]
pub struct Grounded {
    /// Accumulated time in uninterrupted solid contact, in time units;
    /// reset to zero whenever contact is lost.
    pub time_since_grounded: u64,
}

impl Grounded {
    /// A player that has not yet touched ground.
    pub fn new() -> (g: Grounded)
        ensures
            g.time_since_grounded == 0,
    {
        Grounded { time_since_grounded: 0 }
    }
}

/// The downward ground probe: a sphere cast a short, fixed distance from
/// just above the feet of a capsule-shaped body.
#[derive(Clone, Copy, Debug, PartialEq, Eq, Structural)]
pub struct GroundProbe {
    /// Radius of the cast sphere: nine tenths of the capsule radius, so the
    /// probe never catches walls the capsule itself clears.
    pub probe_radius: u64,
    /// How far below the body origin the cast starts: capsule half-height
    /// plus radius, pulled back up by the skin width to avoid
    /// self-intersection false negatives.
    pub origin_drop: u64,
    /// Maximum travel distance of the cast, acting as contact tolerance.
    pub max_distance: u64,
    /// Slope filter: a hit counts as ground only if the surface normal's
    /// vertical component, in thousandths, exceeds this threshold.
    pub slope_threshold_milli: i64,
}

/// Whether a collider can be probed: it must be a capsule (anything else is
/// a configuration error), with a positive radius, the skin thinner than
/// the radius, and dimensions small enough that the probe arithmetic is
/// exact.
pub open spec fn probe_shape_ok(shape: ColliderShape, skin: u64) -> bool {
    match shape {
        ColliderShape::Capsule { radius, half_height } => {
            &&& 0 < radius
            &&& skin < radius
            &&& radius <= 0x1000_0000_0000_0000
            &&& half_height <= 0x1000_0000_0000_0000
        },
        _ => false,
    }
}

impl GroundProbe {
    /// Derives the probe from the probed collider, failing fast on any
    /// shape that is not a capsule: the probe geometry is meaningless for
    /// other shapes, and proceeding would corrupt the contact model.
    pub fn new(shape: &ColliderShape, skin: u64, max_distance: u64, slope_threshold_milli: i64)
        -> (r: Result<GroundProbe, ConfigError>)
        ensures
            r is Ok <==> probe_shape_ok(*shape, skin),
            r is Ok ==> (match *shape {
                ColliderShape::Capsule { radius, half_height } => {
                    &&& r->Ok_0.probe_radius == radius * 9 / 10
                    &&& r->Ok_0.origin_drop == half_height + radius - skin
                    &&& r->Ok_0.max_distance == max_distance
                    &&& r->Ok_0.slope_threshold_milli == slope_threshold_milli
                },
                _ => false,
            }),
            !probe_shape_ok(*shape, skin) ==> r == Err::<GroundProbe, ConfigError>(
                ConfigError::NonCapsuleCollider,
            ),
    {
        match *shape {
            ColliderShape::Capsule { radius, half_height } => {
                if 0 < radius && skin < radius && radius <= 0x1000_0000_0000_0000
                    && half_height <= 0x1000_0000_0000_0000 {
                    Ok(
                        GroundProbe {
                            probe_radius: radius * 9 / 10,
                            origin_drop: half_height + radius - skin,
                            max_distance,
                            slope_threshold_milli,
                        },
                    )
                } else {
                    Err(ConfigError::NonCapsuleCollider)
                }
            },
            _ => Err(ConfigError::NonCapsuleCollider),
        }
    }

    /// A cast result counts as solid ground only if something was hit and
    /// the hit surface is flat enough: its normal's vertical component must
    /// exceed the slope threshold.  No hit, or a hit on too steep a
    /// surface, is the expected airborne non-event.
    pub open spec fn is_solid_hit(self, hit: Option<CastHit>) -> bool {
        match hit {
            Option::Some(h) => h.normal_up_milli > self.slope_threshold_milli,
            Option::None => false,
        }
    }

    /// Per-tick contact evaluation: classifies this tick's cast result and
    /// updates the dwell time — accumulated (saturating) while contact
    /// holds, reset to zero the moment it is lost.
    pub fn evaluate(&self, grounded: &mut Grounded, hit: Option<CastHit>, delta_time: u64) -> (c:
        ContactState)
        ensures
            c is Grounded <==> self.is_solid_hit(hit),
            final(grounded).time_since_grounded == (if self.is_solid_hit(hit) {
                if old(grounded).time_since_grounded + delta_time <= u64::MAX {
                    old(grounded).time_since_grounded + delta_time
                } else {
                    u64::MAX as int
                }
            } else {
                0int
            }),
    {
        let solid: bool = match hit {
            Option::Some(h) => h.normal_up_milli > self.slope_threshold_milli,
            Option::None => false,
        };
        if solid {
            grounded.time_since_grounded = if delta_time <= u64::MAX
                - grounded.time_since_grounded {
                grounded.time_since_grounded + delta_time
            } else {
                u64::MAX
            };
            ContactState::Grounded
        } else {
            grounded.time_since_grounded = 0;
            ContactState::Airborne
        }
    }
}

} // verus!
