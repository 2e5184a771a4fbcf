use vstd::prelude::*;
use crate::buffer::GlBuffer;
use crate::grid::{line_dispatch, snap_down, snapped, Dispatch};
use crate::pingpong::{swapped, PingPong};

verus! {

/// Number of boids at start and after "Reset settings".
pub const DEFAULT_BOID_COUNT: u32 = 1024;

/// The agent count chosen in the settings window is snapped to a multiple
/// of this.
pub const BOID_COUNT_STEP: u32 = 8;

/// Invocations per work group of the boid shader.
pub const BOID_LOCAL_SIZE: u32 = 8;

/// The integer state of the Boids simulation: the agent count in use, the
/// one chosen in the settings window, and the two agent buffers.
/// (Speed, vision range and size are floats and stay with the caller.)
#[derive(Clone, Copy, Debug, PartialEq, Eq, Structural)]
pub struct BoidSim {
    pub count: u32,
    pub new_count: u32,
    pub buffers: PingPong,
}

/// The GL work of one redraw: the compute pass gets `count_uniform` as
/// `u_count`, binds `compute_out` at 0 and `compute_in` at 1 and launches
/// `groups`; the draw pass gets the same `u_count` and binds `draw_data` at 0.
#[derive(Clone, Copy, Debug, PartialEq, Eq, Structural)]
pub struct BoidFrame {
    pub count_uniform: i32,
    pub compute_out: GlBuffer,
    pub compute_in: GlBuffer,
    pub groups: Dispatch,
    pub draw_data: GlBuffer,
}

pub open spec fn boid_frame(s: BoidSim) -> BoidFrame {
    BoidFrame {
        count_uniform: s.count as i32,
        compute_out: s.buffers.out_data,
        compute_in: s.buffers.in_data,
        groups: Dispatch { x: s.count / BOID_LOCAL_SIZE, y: 1, z: 1 },
        draw_data: s.buffers.out_data,
    }
}

pub open spec fn boid_after_frame(s: BoidSim) -> BoidSim {
    BoidSim { buffers: swapped(s.buffers), ..s }
}

/// The state after the settings window's buttons are handled.
pub open spec fn boid_after_buttons(s: BoidSim, reset_sim: bool, reset_settings: bool) -> BoidSim {
    let s1 = if reset_sim { BoidSim { count: s.new_count, ..s } } else { s };
    if reset_settings {
        BoidSim { count: DEFAULT_BOID_COUNT, new_count: DEFAULT_BOID_COUNT, ..s1 }
    } else {
        s1
    }
}

/// The agent count the simulation is regenerated with, if it is.
pub open spec fn boid_regeneration(s: BoidSim, reset_sim: bool) -> Option<u32> {
    if reset_sim { Some(s.new_count) } else { None }
}

impl BoidSim {
    /// The starting state: `DEFAULT_BOID_COUNT` agents, first data in `in_data`.
    pub fn new(in_data: GlBuffer, out_data: GlBuffer) -> (s: BoidSim)
        ensures
            s.count == DEFAULT_BOID_COUNT,
            s.new_count == DEFAULT_BOID_COUNT,
            s.buffers == (PingPong { in_data, out_data }),
    {
        BoidSim {
            count: DEFAULT_BOID_COUNT,
            new_count: DEFAULT_BOID_COUNT,
            buffers: PingPong::new(in_data, out_data),
        }
    }

    /// Snaps the chosen agent count down to a multiple of `BOID_COUNT_STEP`.
    pub fn snap_new_count(&mut self)
        ensures
            *final(self) == (BoidSim { new_count: snapped(old(self).new_count, BOID_COUNT_STEP), ..*old(self) }),
    {
        self.new_count = snap_down(self.new_count, BOID_COUNT_STEP);
    }

    /// Plans one redraw and exchanges the agent buffers, so that the draw
    /// pass shows the positions the compute pass just wrote.
    pub fn frame(&mut self) -> (f: BoidFrame)
        ensures
            f == boid_frame(*old(self)),
            *final(self) == boid_after_frame(*old(self)),
            f.count_uniform == old(self).count as i32,
            f.groups == (Dispatch { x: old(self).count / BOID_LOCAL_SIZE, y: 1, z: 1 }),
            f.compute_in == old(self).buffers.in_data,
            f.compute_out == old(self).buffers.out_data,
            f.draw_data == old(self).buffers.out_data,
            final(self).count == old(self).count,
            final(self).new_count == old(self).new_count,
    {
        let groups = line_dispatch(self.count, BOID_LOCAL_SIZE);
        let compute_out = self.buffers.out_data;
        let compute_in = self.buffers.in_data;
        self.buffers.swap();
        BoidFrame {
            count_uniform: self.count as i32,
            compute_out,
            compute_in,
            groups,
            draw_data: self.buffers.in_data,
        }
    }

    /// Handles the "Reset simulation" and "Reset settings" buttons, in that
    /// order. Returns the agent count to regenerate the agents with, which
    /// is the chosen count when the simulation is reset. Resetting the
    /// settings restores the default count without regenerating.
    pub fn finish_frame(&mut self, reset_sim: bool, reset_settings: bool) -> (regen: Option<u32>)
        ensures
            *final(self) == boid_after_buttons(*old(self), reset_sim, reset_settings),
            regen == boid_regeneration(*old(self), reset_sim),
            !reset_sim && !reset_settings ==> *final(self) == *old(self) && regen is None,
            reset_sim ==> regen == Some(old(self).new_count),
            final(self).count == (if reset_settings {
                DEFAULT_BOID_COUNT
            } else if reset_sim {
                old(self).new_count
            } else {
                old(self).count
            }),
            final(self).new_count == (if reset_settings {
                DEFAULT_BOID_COUNT
            } else {
                old(self).new_count
            }),
            final(self).buffers == old(self).buffers,
    {
        let mut regen = None;
        if reset_sim {
            self.count = self.new_count;
            regen = Some(self.count);
        }
        if reset_settings {
            self.count = DEFAULT_BOID_COUNT;
            self.new_count = self.count;
        }
        regen
    }
}

/// Double buffering: each frame draws what its compute pass wrote, and
/// the next frame computes from it.
pub proof fn lemma_boid_double_buffering(s: BoidSim)
    ensures
        boid_frame(s).draw_data == boid_frame(s).compute_out,
        boid_frame(boid_after_frame(s)).compute_in == boid_frame(s).compute_out,
        boid_after_frame(boid_after_frame(s)) == s,
{
}

/// After a snapped count is applied by "Reset simulation" (and the
/// settings are not reset), the agents are regenerated with that count and
/// the compute pass launches exactly one invocation per agent.
pub proof fn lemma_boid_reset_covers_agents(s: BoidSim)
    requires
        s.new_count == snapped(s.new_count, BOID_COUNT_STEP),
    ensures
        boid_regeneration(s, true) == Some(s.new_count),
        boid_frame(boid_after_buttons(s, true, false)).groups.x * BOID_LOCAL_SIZE
            == boid_after_buttons(s, true, false).count,
{
    crate::grid::lemma_snapped_count_covered(s.new_count, BOID_COUNT_STEP);
}

/// "Reset settings" brings both agent counts back to the default,
/// whatever else happened in the frame.
pub proof fn lemma_boid_reset_settings(s: BoidSim, reset_sim: bool)
    ensures
        boid_after_buttons(s, reset_sim, true).count == DEFAULT_BOID_COUNT,
        boid_after_buttons(s, reset_sim, true).new_count == DEFAULT_BOID_COUNT,
        boid_after_buttons(s, reset_sim, true).buffers == s.buffers,
{
}

/// A frame is planned from the agent count in use and the buffers alone:
/// `u_count` is that count, one group per `BOID_LOCAL_SIZE` agents is
/// launched, and a count chosen in the settings window but not yet applied
/// changes nothing about the frame.
pub proof fn lemma_boid_frame_uses_count_in_use(s: BoidSim, t: BoidSim)
    requires
        s.count == t.count,
        s.buffers == t.buffers,
    ensures
        boid_frame(s).count_uniform == s.count as i32,
        boid_frame(s).groups.x == s.count / BOID_LOCAL_SIZE,
        boid_frame(s).compute_in == s.buffers.in_data,
        boid_frame(s).compute_out == s.buffers.out_data,
        boid_frame(s) == boid_frame(t),
        boid_after_frame(s).count == s.count,
        boid_after_frame(s).new_count == s.new_count,
{
}

/// Without a button press the frame leaves the simulation as it was and
/// regenerates nothing; the agent count in use changes only when a button
/// is pressed, to the chosen count on "Reset simulation" and to the default
/// on "Reset settings".
pub proof fn lemma_boid_count_changes_only_by_buttons(s: BoidSim, reset_sim: bool, reset_settings: bool)
    ensures
        boid_after_buttons(s, false, false) == s,
        boid_regeneration(s, false) is None,
        boid_after_buttons(s, reset_sim, reset_settings).count != s.count ==> reset_sim || reset_settings,
        !reset_settings ==> boid_after_buttons(s, reset_sim, reset_settings).new_count == s.new_count,
        reset_sim && !reset_settings ==> boid_after_buttons(s, reset_sim, reset_settings).count == s.new_count,
        !reset_sim && !reset_settings ==> boid_after_buttons(s, reset_sim, reset_settings).count == s.count,
        boid_after_buttons(s, reset_sim, reset_settings).buffers == s.buffers,
{
}

} // verus!
