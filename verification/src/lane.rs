//! Lane-constrained locomotion: discrete lane switching, the
//! proportional-derivative lateral force law, and the gated jump impulse.

use vstd::prelude::*;

verus! {

use crate::probe::Grounded;

/// One decoded input command.  The input layer hands the core a per-tick
/// queue of these, already debounced; the core never parses raw device
/// state.
#[derive(Clone, Copy, Debug, PartialEq, Eq, Structural)]
pub enum Command {
    MoveLeft,
    MoveRight,
    Jump,
}

/// The lane shift a command asks for: `-1`, `+1`, or `0` for a jump.
pub open spec fn move_delta(cmd: Command) -> int {
    match cmd {
        Command::MoveLeft => -1,
        Command::MoveRight => 1,
        Command::Jump => 0,
    }
}

/// Clamps a lane index to the three legal lanes.
pub open spec fn clamp_lane(v: int) -> int {
    if v < -1 {
        -1
    } else if v > 1 {
        1
    } else {
        v
    }
}

/// The lane index reached from `lane` after consuming `cmds` in order,
/// each move clamped to the three lanes and jumps leaving the lane alone.
pub open spec fn lane_after(lane: int, cmds: Seq<Command>) -> int
    decreases cmds.len(),
{
    if cmds.len() == 0 {
        lane
    } else {
        clamp_lane(lane_after(lane, cmds.drop_last()) + move_delta(cmds.last()))
    }
}

/// Lane clamp law: from any legal lane index, any sequence of commands
/// leaves the lane index in `{-1, 0, 1}`.
pub proof fn lemma_lane_stays_clamped(lane: int, cmds: Seq<Command>)
    requires
        -1 <= lane <= 1,
    ensures
        -1 <= lane_after(lane, cmds) <= 1,
    decreases cmds.len(),
{
    if cmds.len() > 0 {
        lemma_lane_stays_clamped(lane, cmds.drop_last());
    }
}

/// The target lateral offset of a lane: `lane_index * -lane_width`.  The
/// sign is inverted because the player's forward-facing convention is
/// mirrored relative to the world axes; keeping the inversion here, in one
/// place, avoids a silent mirroring bug.
pub open spec fn lane_target(lane_index: int, lane_width: int) -> int {
    lane_index * -lane_width
}

/// The proportional-derivative force law driving the body toward
/// `target_x`: `kp * (target_x - x) + kd * (0 - vx)`.  The gains are scaled
/// by body mass outside this formula, so behavior is mass-invariant.
pub open spec fn pd_force(kp: int, kd: int, target_x: int, x: int, vx: int) -> int {
    kp * (target_x - x) + kd * (0 - vx)
}

/// Controller convergence, for the tuning the runner ships with: gains
/// `kp = 200` and `kd = 30` (mass-normalized), a constant target, no
/// disturbance, and an exact Euler step of the lateral dynamics at 64
/// ticks per second.  One step takes the position error `e` and closing
/// velocity `v` to `e' = (64*e - v) / 64` and
/// `v' = (64*v + pd_force) / 64`; this lemma states, scaled by 64 to stay
/// in the integers, that the overdamped cone `0 <= v <= 10*e` is
/// preserved and the error never grows.  The cone and the claim are
/// homogeneous, so the lemma applies again to the scaled next state, tick
/// after tick: from rest (`v == 0`), the error decays monotonically toward
/// zero with no oscillation.
pub proof fn lemma_pd_step_overdamped(e: int, v: int)
    requires
        0 <= v <= 10 * e,
    ensures
        0 <= 64 * e - v <= 64 * e,
        0 <= 64 * v + pd_force(200, 30, e, 0, v) <= 10 * (64 * e - v),
{
}

/// The player's discrete locomotion state.  The rigid-body state (position,
/// velocity) is owned by the physics engine and handed in per tick.
#[derive(Clone, Copy, Debug, PartialEq, Eq, Structural)]
pub struct Player {
    /// Which of the three lateral lanes the player aims for.
    /// Invariant: clamped to `{-1, 0, 1}`.
    pub lane_index: i32,
}

impl Player {
    /// The lane index is one of the three legal lanes.
    pub open spec fn wf(self) -> bool {
        -1 <= self.lane_index <= 1
    }

    /// A player in the middle lane.
    pub fn new() -> (p: Player)
        ensures
            p.lane_index == 0,
            p.wf(),
    {
        Player { lane_index: 0 }
    }

    /// Applies one discrete lane-change command:
    /// `lane_index = clamp(lane_index + delta, -1, 1)`.
    pub fn apply_move(&mut self, delta: i32)
        requires
            old(self).wf(),
            -1 <= delta <= 1,
        ensures
            final(self).wf(),
            final(self).lane_index == clamp_lane(old(self).lane_index + delta),
    {
        let shifted: i32 = self.lane_index + delta;
        self.lane_index = if shifted < -1 {
            -1
        } else if shifted > 1 {
            1
        } else {
            shifted
        };
    }

    /// The world-space lateral offset this player's lane maps to.
    pub fn target_offset(&self, lane_width: i64) -> (x: i64)
        requires
            self.wf(),
            0 <= lane_width,
        ensures
            x == lane_target(self.lane_index as int, lane_width as int),
            -lane_width <= x <= lane_width,
    {
        proof {
            let l = self.lane_index as int;
            let w = lane_width as int;
            assert(l == 0 ==> l * -w == 0) by (nonlinear_arith);
            assert(l == 1 ==> l * -w == -w) by (nonlinear_arith);
            assert(l == -1 ==> l * -w == w) by (nonlinear_arith);
        }
        if self.lane_index == 0 {
            0
        } else if self.lane_index == 1 {
            0 - lane_width
        } else {
            lane_width
        }
    }
}

/// Per-tick lateral force toward the lane target, by the
/// proportional-derivative law.  Applied every tick regardless of jump
/// state, so lane convergence and vertical motion are independent axes.
pub fn lateral_force(kp: i64, kd: i64, target_x: i64, current_x: i64, current_vx: i64) -> (f: i128)
    requires
        0 <= kp <= 0x7fff_ffff,
        0 <= kd <= 0x7fff_ffff,
        -0x1000_0000_0000_0000 <= target_x <= 0x1000_0000_0000_0000,
        -0x1000_0000_0000_0000 <= current_x <= 0x1000_0000_0000_0000,
        -0x1000_0000_0000_0000 <= current_vx <= 0x1000_0000_0000_0000,
    ensures
        f == pd_force(kp as int, kd as int, target_x as int, current_x as int, current_vx as int),
{
    let position_error: i128 = (target_x as i128) - (current_x as i128);
    let velocity_error: i128 = 0 - (current_vx as i128);
    proof {
        assert(kp * position_error <= 0x7fff_ffff * 0x2000_0000_0000_0000
            && kp * position_error >= -(0x7fff_ffff * 0x2000_0000_0000_0000)
            && kd * velocity_error <= 0x7fff_ffff * 0x1000_0000_0000_0000
            && kd * velocity_error >= -(0x7fff_ffff * 0x1000_0000_0000_0000))
            by (nonlinear_arith)
            requires
                0 <= kp <= 0x7fff_ffff,
                0 <= kd <= 0x7fff_ffff,
                -0x2000_0000_0000_0000 <= position_error <= 0x2000_0000_0000_0000,
                -0x1000_0000_0000_0000 <= velocity_error <= 0x1000_0000_0000_0000,
        ;
    }
    (kp as i128) * position_error + (kd as i128) * velocity_error
}

/// Jump gating: a jump command becomes an upward impulse of magnitude
/// `jump_base * mass` only when the player has dwelt on solid ground longer
/// than the grace threshold; otherwise the command is a silent no-op, since
/// rapid repeated jump presses are expected player behavior.
pub fn try_jump(grounded: &Grounded, grace_time: u64, jump_base: i64, mass: i64) -> (impulse:
    Option<i128>)
    requires
        0 <= jump_base,
        0 <= mass,
    ensures
        impulse is Some <==> grounded.time_since_grounded > grace_time,
        impulse is Some ==> impulse->0 == jump_base * mass,
{
    if grounded.time_since_grounded > grace_time {
        proof {
            assert(jump_base * mass <= 0x7fff_ffff_ffff_ffff * 0x7fff_ffff_ffff_ffff)
                by (nonlinear_arith)
                requires
                    0 <= jump_base <= 0x7fff_ffff_ffff_ffff,
                    0 <= mass <= 0x7fff_ffff_ffff_ffff,
            ;
        }
        Some((jump_base as i128) * (mass as i128))
    } else {
        None
    }
}

/// How many jump commands a queue holds.
pub open spec fn count_jumps(cmds: Seq<Command>) -> int
    decreases cmds.len(),
{
    if cmds.len() == 0 {
        0
    } else {
        count_jumps(cmds.drop_last()) + (if cmds.last() is Jump {
            1int
        } else {
            0int
        })
    }
}

/// Consumes one tick's command queue in order: moves shift the lane (each
/// clamped), and every jump command that passes the grace gate yields one
/// impulse of `jump_base * mass`.  The grounded dwell time is read, not
/// changed, so every jump command of the tick sees the same dwell.
pub fn apply_commands(
    player: &mut Player,
    grounded: &Grounded,
    grace_time: u64,
    jump_base: i64,
    mass: i64,
    commands: &Vec<Command>,
) -> (impulses: Vec<i128>)
    requires
        old(player).wf(),
        0 <= jump_base,
        0 <= mass,
    ensures
        final(player).wf(),
        final(player).lane_index == lane_after(old(player).lane_index as int, commands@),
        impulses@.len() == (if grounded.time_since_grounded > grace_time {
            count_jumps(commands@)
        } else {
            0int
        }),
        forall|i: int| 0 <= i < impulses@.len() ==> impulses@[i] == jump_base * mass,
{
    let mut impulses: Vec<i128> = Vec::new();
    let mut idx: usize = 0;
    while idx < commands.len()
        invariant
            player.wf(),
            idx <= commands.len(),
            0 <= jump_base,
            0 <= mass,
            player.lane_index == lane_after(
                old(player).lane_index as int,
                commands@.take(idx as int),
            ),
            impulses@.len() == (if grounded.time_since_grounded > grace_time {
                count_jumps(commands@.take(idx as int))
            } else {
                0int
            }),
            forall|i: int| 0 <= i < impulses@.len() ==> impulses@[i] == jump_base * mass,
        decreases commands.len() - idx,
    {
        proof {
            assert(commands@.take(idx + 1).drop_last() =~= commands@.take(idx as int));
            assert(commands@.take(idx + 1).last() == commands@[idx as int]);
        }
        match commands[idx] {
            Command::MoveLeft => player.apply_move(-1),
            Command::MoveRight => player.apply_move(1),
            Command::Jump => {
                if let Some(impulse) = try_jump(grounded, grace_time, jump_base, mass) {
                    impulses.push(impulse);
                }
            },
        }
        idx = idx + 1;
    }
    proof {
        assert(commands@.take(commands@.len() as int) =~= commands@);
    }
    impulses
}

} // verus!
