//! The fixed-timestep tick pipeline: one simulation step advances the world
//! root, then the chunk streamer, then the ground probe, then the lane
//! controller, in that fixed order.  Ordering matters: the streamer's spawn
//! decision must see the current tick's world offset, and the jump gate
//! must read the current tick's grounded dwell time.
//!
//! The pipeline is strictly sequential; no two components write the same
//! state.  Every tick is a fresh, idempotent recomputation from current
//! state, so a missed tick self-corrects on the next one.

use vstd::prelude::*;

verus! {

use crate::lane;
use crate::lane::Command;
use crate::lane::Player;
use crate::probe::CastHit;
use crate::probe::ContactState;
use crate::probe::GroundProbe;
use crate::probe::Grounded;
use crate::track::ActiveChunk;
use crate::track::ChunkDefinition;
use crate::track::TrackState;
use crate::track::WorldRoot;

/// Tuning values for the runner core, fixed at level start.
#[derive(Clone, Copy, Debug, PartialEq, Eq, Structural)]
pub struct RunnerConfig {
    /// Scroll speed of the world root, in distance units per time unit.
    pub scroll_speed: i64,
    /// How far ahead of the world origin chunks must exist.  Must exceed
    /// the camera's far visible range by at least one chunk length so that
    /// generation always stays ahead of visibility.
    pub horizon_distance: i64,
    /// World-space coordinate (a fixed negative constant behind the
    /// camera) past which a chunk is retired.
    pub despawn_threshold: i64,
    /// Lateral distance between adjacent lanes.
    pub lane_width: i64,
    /// Proportional gain of the lateral force law, already scaled by body
    /// mass.
    pub kp: i64,
    /// Derivative gain of the lateral force law, already scaled by body
    /// mass.
    pub kd: i64,
    /// Upward jump impulse per unit of body mass.
    pub jump_base: i64,
    /// Body mass, scaling the jump impulse.
    pub mass: i64,
    /// Minimum grounded dwell time before a jump command is honored.
    pub jump_grace_time: u64,
}

impl RunnerConfig {
    /// Ranges under which every tick's arithmetic is exact: gains and
    /// distances comfortably inside the machine word.
    pub open spec fn wf(self) -> bool {
        &&& 0 <= self.scroll_speed
        &&& 0 <= self.horizon_distance <= 0x1000_0000_0000_0000
        &&& -0x1000_0000_0000_0000 <= self.despawn_threshold <= 0x1000_0000_0000_0000
        &&& 0 <= self.lane_width <= 0x1000_0000_0000_0000
        &&& 0 <= self.kp <= 0x7fff_ffff
        &&& 0 <= self.kd <= 0x7fff_ffff
        &&& 0 <= self.jump_base
        &&& 0 < self.mass
    }
}

/// The whole simulation state owned by the core, advanced tick by tick.
/// The rigid-body state of the player lives in the physics engine and is
/// handed in through `TickInput` instead.
#[derive(Debug)]
pub struct Simulation {
    pub config: RunnerConfig,
    /// The single chunk template of the current design.
    pub chunk_def: ChunkDefinition,
    pub probe: GroundProbe,
    pub world: WorldRoot,
    pub track: TrackState,
    pub grounded: Grounded,
    pub player: Player,
}

/// What the external collaborators hand the core for one fixed tick.
#[derive(Debug)]
pub struct TickInput {
    /// Length of this fixed step, in time units.
    pub delta_time: u64,
    /// Result of the downward shape cast the physics engine ran with the
    /// probe's published parameters, if anything was hit.
    pub cast_hit: Option<CastHit>,
    /// The decoded commands that arrived since the previous tick, in
    /// arrival order.
    pub commands: Vec<Command>,
    /// The player body's lateral position, owned by the physics engine.
    pub body_x: i64,
    /// The player body's lateral velocity, owned by the physics engine.
    pub body_vx: i64,
}

impl TickInput {
    /// Ranges under which the tick's arithmetic is exact.
    pub open spec fn wf(self) -> bool {
        &&& -0x1000_0000_0000_0000 <= self.body_x <= 0x1000_0000_0000_0000
        &&& -0x1000_0000_0000_0000 <= self.body_vx <= 0x1000_0000_0000_0000
    }
}

/// What the core asks the external collaborators to do after one tick.
#[derive(Debug)]
pub struct TickOutput {
    /// Chunks to instantiate, parented to the world root at their
    /// `start_z`.
    pub spawned: Vec<ActiveChunk>,
    /// Chunks whose geometry must be destroyed.
    pub retired: Vec<ActiveChunk>,
    /// This tick's contact classification.
    pub contact: ContactState,
    /// Lateral force to apply to the player body this tick.
    pub lateral_force: i128,
    /// One upward impulse per honored jump command.
    pub jump_impulses: Vec<i128>,
}

impl Simulation {
    /// Composite well-formedness of the simulation state.
    pub open spec fn wf(self) -> bool {
        &&& self.config.wf()
        &&& self.chunk_def.valid()
        &&& self.track.wf()
        &&& self.player.wf()
    }

    /// The world offset this tick's decisions will see: the root's position
    /// after the scroll step.
    pub open spec fn offset_after_scroll(self, input: TickInput) -> int {
        self.world.position_z - self.config.scroll_speed * input.delta_time
    }

    /// The grounded dwell time after this tick's contact evaluation.
    pub open spec fn dwell_after(self, input: TickInput) -> int {
        if self.probe.is_solid_hit(input.cast_hit) {
            if self.grounded.time_since_grounded + input.delta_time <= u64::MAX {
                self.grounded.time_since_grounded + input.delta_time
            } else {
                u64::MAX as int
            }
        } else {
            0int
        }
    }

    /// Assembles a simulation from validated parts.
    pub fn new(
        config: RunnerConfig,
        chunk_def: ChunkDefinition,
        probe: GroundProbe,
    ) -> (sim: Simulation)
        requires
            config.wf(),
            chunk_def.valid(),
        ensures
            sim.wf(),
            sim.config == config,
            sim.chunk_def == chunk_def,
            sim.probe == probe,
            sim.world.position_z == 0,
            sim.track.next_spawn_z == 0,
            sim.track.active@.len() == 0,
            sim.grounded.time_since_grounded == 0,
            sim.player.lane_index == 0,
    {
        Simulation {
            config,
            chunk_def,
            probe,
            world: WorldRoot::new(),
            track: TrackState::new(),
            grounded: Grounded::new(),
            player: Player::new(),
        }
    }

    /// One fixed simulation step.
    ///
    /// Scrolls the world root, streams chunks against the new offset,
    /// re-evaluates ground contact, consumes the command queue, and
    /// computes the lateral force for the lane target that results.  The
    /// contract pins every piece of the new state and of the requested
    /// actions:
    ///
    /// - the root moved by exactly `-scroll_speed * delta_time`;
    /// - the spawn cursor never decreased, reached the horizon, and
    ///   advanced by exactly one chunk length per spawned chunk;
    /// - the surviving chunks are the old ones plus the spawned ones minus
    ///   the retired prefix; a chunk is retired only once wholly behind the
    ///   despawn threshold, and every chunk still reaching past the
    ///   threshold survives;
    /// - the dwell time accumulated or reset according to the slope-filtered
    ///   cast result;
    /// - the lane index is the clamped fold of the move commands, and each
    ///   jump command yielded exactly one impulse of `jump_base * mass` if
    ///   and only if the dwell time beat the grace threshold;
    /// - the lateral force follows the proportional-derivative law toward
    ///   the new lane target.
    pub fn step(&mut self, input: TickInput) -> (out: TickOutput)
        requires
            old(self).wf(),
            input.wf(),
            old(self).config.scroll_speed * input.delta_time <= i64::MAX,
            old(self).offset_after_scroll(input) >= i64::MIN,
            old(self).config.horizon_distance - old(self).offset_after_scroll(input) + old(self).chunk_def.length <= i64::MAX,
        ensures
            final(self).wf(),
            final(self).config == old(self).config,
            final(self).chunk_def == old(self).chunk_def,
            final(self).probe == old(self).probe,
            // world scroll
            final(self).world.position_z == old(self).offset_after_scroll(input),
            // spawn rule, against the current tick's offset
            final(self).track.next_spawn_z >= old(self).track.next_spawn_z,
            final(self).track.next_spawn_z >= old(self).config.horizon_distance - final(self).world.position_z,
            final(self).track.next_spawn_z == old(self).track.next_spawn_z + old(self).chunk_def.length * out.spawned@.len(),
            old(self).track.next_spawn_z >= old(self).config.horizon_distance - final(self).world.position_z ==> out.spawned@.len() == 0,
            out.spawned@.len() > 0 ==> final(self).track.next_spawn_z < old(self).config.horizon_distance - final(self).world.position_z + old(self).chunk_def.length,
            forall|i: int| 0 <= i < out.spawned@.len()
                ==> (#[trigger] out.spawned@[i]).start_z == old(self).track.next_spawn_z + old(self).chunk_def.length * i
                && out.spawned@[i].end_z == old(self).track.next_spawn_z + old(self).chunk_def.length * (i + 1),
            // chunk bookkeeping and despawn safety
            old(self).track.active@ + out.spawned@ == out.retired@ + final(self).track.active@,
            forall|i: int| 0 <= i < out.retired@.len() ==> (#[trigger] out.retired@[i]).end_z
                + final(self).world.position_z < old(self).config.despawn_threshold,
            forall|i: int| 0 <= i < final(self).track.active@.len()
                ==> (#[trigger] final(self).track.active@[i]).end_z + final(self).world.position_z
                >= old(self).config.despawn_threshold,
            // ground contact
            out.contact is Grounded <==> old(self).probe.is_solid_hit(input.cast_hit),
            final(self).grounded.time_since_grounded == old(self).dwell_after(input),
            // lane controller
            final(self).player.lane_index == lane::lane_after(
                old(self).player.lane_index as int,
                input.commands@,
            ),
            out.jump_impulses@.len() == (if old(self).dwell_after(input) > old(self).config.jump_grace_time {
                lane::count_jumps(input.commands@)
            } else {
                0int
            }),
            forall|i: int| 0 <= i < out.jump_impulses@.len() ==> out.jump_impulses@[i] == old(self).config.jump_base * old(self).config.mass,
            // lateral force toward the new lane target
            out.lateral_force == lane::pd_force(
                old(self).config.kp as int,
                old(self).config.kd as int,
                lane::lane_target(final(self).player.lane_index as int, old(self).config.lane_width as int),
                input.body_x as int,
                input.body_vx as int,
            ),
    {
        self.world.advance(input.delta_time, self.config.scroll_speed);
        let offset: i64 = self.world.position_z;
        let spawned = self.track.spawn_chunks(&self.chunk_def, offset, self.config.horizon_distance);
        let retired = self.track.despawn_chunks(offset, self.config.despawn_threshold);
        let contact = self.probe.evaluate(&mut self.grounded, input.cast_hit, input.delta_time);
        let jump_impulses = lane::apply_commands(
            &mut self.player,
            &self.grounded,
            self.config.jump_grace_time,
            self.config.jump_base,
            self.config.mass,
            &input.commands,
        );
        let target: i64 = self.player.target_offset(self.config.lane_width);
        let force: i128 = lane::lateral_force(
            self.config.kp,
            self.config.kd,
            target,
            input.body_x,
            input.body_vx,
        );
        TickOutput { spawned, retired, contact, lateral_force: force, jump_impulses }
    }
}

} // verus!
