use vstd::prelude::*;
use crate::buffer::GlBuffer;
use crate::grid::{grid_dispatch, line_dispatch, snap_down, snapped, Dispatch};
use crate::pingpong::{swapped, PingPong};

verus! {

/// Side of the trail texture at start and after "Reset settings".
pub const DEFAULT_TEX_SIZE: u32 = 4096;

/// Number of agents at start and after "Reset settings" (2 to the 17th).
pub const DEFAULT_MOLD_COUNT: u32 = 131072;

pub const DEFAULT_SENSOR_SIZE: i32 = 2;
pub const DEFAULT_SENSOR_STRIDE: i32 = 2;
pub const DEFAULT_SENSOR_OFFSET: i32 = 30;
pub const DEFAULT_TRAIL_WEIGHT: i32 = 10;

/// The chosen agent count is snapped to a multiple of this.
pub const MOLD_COUNT_STEP: u32 = 32;

/// The chosen texture side is snapped to a multiple of this.
pub const TEX_SIZE_STEP: u32 = 8;

/// Invocations per work group of the agent shader.
pub const AGENT_LOCAL_SIZE: u32 = 32;

/// Invocations per work group, along each axis, of the blur shader.
pub const BLUR_LOCAL_SIZE: u32 = 8;

/// The integer state of the Mold simulation: the integer settings, the
/// texture side and agent count in use and chosen, the agent buffers
/// (`in_data`, `out_data`) and the trail buffers (`in_data` is the trail
/// the agents deposit on, `out_data` the one the blur writes). Speed, turn
/// speed and decay rate are floats and stay with the caller.
#[derive(Clone, Copy, Debug, PartialEq, Eq, Structural)]
pub struct MoldSim {
    pub sensor_size: i32,
    pub sensor_stride: i32,
    pub sensor_offset: i32,
    pub trail_weight: i32,
    pub tex_size: u32,
    pub count: u32,
    pub new_tex_size: u32,
    pub new_count: u32,
    pub agents: PingPong,
    pub trail: PingPong,
}

/// The GL work of one redraw.
/// Agent pass: the integer uniforms, `u_field_size` = (`field_uniform`,
/// `field_uniform`), `agents_out` at binding 0, `agents_in` at 1,
/// `agent_trail` at 2, `agent_groups` launched.
/// Blur pass: the same field size, `blur_out` at 0, `blur_in` at 2,
/// `blur_groups` launched.
/// Draw pass: the same field size, `draw_data` at 0.
#[derive(Clone, Copy, Debug, PartialEq, Eq, Structural)]
pub struct MoldFrame {
    pub sensor_size: i32,
    pub sensor_stride: i32,
    pub sensor_offset: i32,
    pub trail_weight: i32,
    pub field_uniform: i32,
    pub agents_out: GlBuffer,
    pub agents_in: GlBuffer,
    pub agent_trail: GlBuffer,
    pub agent_groups: Dispatch,
    pub blur_out: GlBuffer,
    pub blur_in: GlBuffer,
    pub blur_groups: Dispatch,
    pub draw_data: GlBuffer,
}

pub open spec fn mold_frame(s: MoldSim) -> MoldFrame {
    MoldFrame {
        sensor_size: s.sensor_size,
        sensor_stride: s.sensor_stride,
        sensor_offset: s.sensor_offset,
        trail_weight: s.trail_weight,
        field_uniform: s.tex_size as i32,
        agents_out: s.agents.out_data,
        agents_in: s.agents.in_data,
        agent_trail: s.trail.in_data,
        agent_groups: Dispatch { x: s.count / AGENT_LOCAL_SIZE, y: 1, z: 1 },
        blur_out: s.trail.out_data,
        blur_in: s.trail.in_data,
        blur_groups: Dispatch {
            x: s.tex_size / BLUR_LOCAL_SIZE,
            y: s.tex_size / BLUR_LOCAL_SIZE,
            z: 1,
        },
        draw_data: s.trail.out_data,
    }
}

pub open spec fn mold_after_frame(s: MoldSim) -> MoldSim {
    MoldSim { agents: swapped(s.agents), trail: swapped(s.trail), ..s }
}

/// The state after the settings window's buttons are handled.
pub open spec fn mold_after_buttons(s: MoldSim, reset_sim: bool, reset_settings: bool) -> MoldSim {
    let s1 = if reset_sim {
        MoldSim { tex_size: s.new_tex_size, count: s.new_count, ..s }
    } else {
        s
    };
    if reset_settings {
        MoldSim {
            sensor_size: DEFAULT_SENSOR_SIZE,
            sensor_stride: DEFAULT_SENSOR_STRIDE,
            sensor_offset: DEFAULT_SENSOR_OFFSET,
            trail_weight: DEFAULT_TRAIL_WEIGHT,
            tex_size: DEFAULT_TEX_SIZE,
            count: DEFAULT_MOLD_COUNT,
            new_tex_size: DEFAULT_TEX_SIZE,
            new_count: DEFAULT_MOLD_COUNT,
            ..s1
        }
    } else {
        s1
    }
}

/// The (agent count, texture side) the simulation is regenerated with, if it is.
pub open spec fn mold_regeneration(s: MoldSim, reset_sim: bool) -> Option<(u32, u32)> {
    if reset_sim { Some((s.new_count, s.new_tex_size)) } else { None }
}

/// The trail buffers hold one cell per texel of a `tex_size` x `tex_size` texture.
pub fn trail_cells(tex_size: u32) -> (r: usize)
    requires
        tex_size * tex_size <= u32::MAX,
    ensures
        r == tex_size * tex_size,
{
    (tex_size * tex_size) as usize
}

impl MoldSim {
    /// The starting state: default settings, agent data first in
    /// `in_data`, trail first in `tex_data`.
    pub fn new(in_data: GlBuffer, out_data: GlBuffer, tex_data: GlBuffer, tex_data_2: GlBuffer) -> (s: MoldSim)
        ensures
            s.sensor_size == DEFAULT_SENSOR_SIZE,
            s.sensor_stride == DEFAULT_SENSOR_STRIDE,
            s.sensor_offset == DEFAULT_SENSOR_OFFSET,
            s.trail_weight == DEFAULT_TRAIL_WEIGHT,
            s.tex_size == DEFAULT_TEX_SIZE,
            s.count == DEFAULT_MOLD_COUNT,
            s.new_tex_size == DEFAULT_TEX_SIZE,
            s.new_count == DEFAULT_MOLD_COUNT,
            s.agents == (PingPong { in_data, out_data }),
            s.trail == (PingPong { in_data: tex_data, out_data: tex_data_2 }),
    {
        MoldSim {
            sensor_size: DEFAULT_SENSOR_SIZE,
            sensor_stride: DEFAULT_SENSOR_STRIDE,
            sensor_offset: DEFAULT_SENSOR_OFFSET,
            trail_weight: DEFAULT_TRAIL_WEIGHT,
            tex_size: DEFAULT_TEX_SIZE,
            count: DEFAULT_MOLD_COUNT,
            new_tex_size: DEFAULT_TEX_SIZE,
            new_count: DEFAULT_MOLD_COUNT,
            agents: PingPong::new(in_data, out_data),
            trail: PingPong::new(tex_data, tex_data_2),
        }
    }

    /// Snaps the chosen agent count to a multiple of `MOLD_COUNT_STEP` and
    /// the chosen texture side to a multiple of `TEX_SIZE_STEP`.
    pub fn snap_new_values(&mut self)
        ensures
            *final(self) == (MoldSim {
                new_count: snapped(old(self).new_count, MOLD_COUNT_STEP),
                new_tex_size: snapped(old(self).new_tex_size, TEX_SIZE_STEP),
                ..*old(self)
            }),
    {
        self.new_count = snap_down(self.new_count, MOLD_COUNT_STEP);
        self.new_tex_size = snap_down(self.new_tex_size, TEX_SIZE_STEP);
    }

    /// Plans one redraw: the agents move (reading `in_data`, writing
    /// `out_data`, depositing on the trail), the agent buffers trade places,
    /// the blur writes the diffused trail, the trail buffers trade places,
    /// and the draw pass shows the diffused trail.
    pub fn frame(&mut self) -> (f: MoldFrame)
        ensures
            f == mold_frame(*old(self)),
            *final(self) == mold_after_frame(*old(self)),
            f.sensor_size == old(self).sensor_size,
            f.sensor_stride == old(self).sensor_stride,
            f.sensor_offset == old(self).sensor_offset,
            f.trail_weight == old(self).trail_weight,
            f.field_uniform == old(self).tex_size as i32,
            f.agent_groups == (Dispatch { x: old(self).count / AGENT_LOCAL_SIZE, y: 1, z: 1 }),
            f.blur_groups == (Dispatch {
                x: old(self).tex_size / BLUR_LOCAL_SIZE,
                y: old(self).tex_size / BLUR_LOCAL_SIZE,
                z: 1,
            }),
            f.agents_in == old(self).agents.in_data,
            f.agents_out == old(self).agents.out_data,
            f.agent_trail == old(self).trail.in_data,
            f.blur_in == old(self).trail.in_data,
            f.blur_out == old(self).trail.out_data,
            f.draw_data == old(self).trail.out_data,
            final(self).tex_size == old(self).tex_size,
            final(self).count == old(self).count,
    {
        let agent_groups = line_dispatch(self.count, AGENT_LOCAL_SIZE);
        let agents_out = self.agents.out_data;
        let agents_in = self.agents.in_data;
        let agent_trail = self.trail.in_data;
        self.agents.swap();
        let blur_groups = grid_dispatch(self.tex_size, self.tex_size, BLUR_LOCAL_SIZE);
        let blur_out = self.trail.out_data;
        let blur_in = self.trail.in_data;
        self.trail.swap();
        MoldFrame {
            sensor_size: self.sensor_size,
            sensor_stride: self.sensor_stride,
            sensor_offset: self.sensor_offset,
            trail_weight: self.trail_weight,
            field_uniform: self.tex_size as i32,
            agents_out,
            agents_in,
            agent_trail,
            agent_groups,
            blur_out,
            blur_in,
            blur_groups,
            draw_data: self.trail.in_data,
        }
    }

    /// Handles the "Reset simulation" and "Reset settings" buttons, in that
    /// order. Returns the (agent count, texture side) to regenerate the
    /// simulation with, the chosen ones, when the simulation is reset.
    /// Resetting the settings restores every integer setting, the texture
    /// side and the agent count, without regenerating.
    pub fn finish_frame(&mut self, reset_sim: bool, reset_settings: bool) -> (regen: Option<(u32, u32)>)
        ensures
            *final(self) == mold_after_buttons(*old(self), reset_sim, reset_settings),
            regen == mold_regeneration(*old(self), reset_sim),
            !reset_sim && !reset_settings ==> *final(self) == *old(self) && regen is None,
            reset_sim ==> regen == Some((old(self).new_count, old(self).new_tex_size)),
            final(self).count == (if reset_settings {
                DEFAULT_MOLD_COUNT
            } else if reset_sim {
                old(self).new_count
            } else {
                old(self).count
            }),
            final(self).tex_size == (if reset_settings {
                DEFAULT_TEX_SIZE
            } else if reset_sim {
                old(self).new_tex_size
            } else {
                old(self).tex_size
            }),
            final(self).agents == old(self).agents,
            final(self).trail == old(self).trail,
    {
        let mut regen = None;
        if reset_sim {
            self.tex_size = self.new_tex_size;
            self.count = self.new_count;
            regen = Some((self.count, self.tex_size));
        }
        if reset_settings {
            self.sensor_size = DEFAULT_SENSOR_SIZE;
            self.sensor_stride = DEFAULT_SENSOR_STRIDE;
            self.sensor_offset = DEFAULT_SENSOR_OFFSET;
            self.trail_weight = DEFAULT_TRAIL_WEIGHT;
            self.tex_size = DEFAULT_TEX_SIZE;
            self.new_tex_size = self.tex_size;
            self.count = DEFAULT_MOLD_COUNT;
            self.new_count = self.count;
        }
        regen
    }
}

/// Double buffering of both pairs: the blur reads the trail the agents
/// just deposited on, the draw pass shows what the blur wrote, the next
/// frame's agents deposit on that blurred trail and move from the
/// positions this frame wrote; two frames restore every buffer.
pub proof fn lemma_mold_double_buffering(s: MoldSim)
    ensures
        mold_frame(s).blur_in == mold_frame(s).agent_trail,
        mold_frame(s).draw_data == mold_frame(s).blur_out,
        mold_frame(mold_after_frame(s)).agent_trail == mold_frame(s).blur_out,
        mold_frame(mold_after_frame(s)).agents_in == mold_frame(s).agents_out,
        mold_after_frame(mold_after_frame(s)) == s,
{
}

/// After snapped values are applied by "Reset simulation" (and the
/// settings are not reset), the simulation is regenerated with them, the
/// agent pass launches one invocation per agent and the blur pass one per
/// texel.
pub proof fn lemma_mold_reset_covers(s: MoldSim)
    requires
        s.new_count == snapped(s.new_count, MOLD_COUNT_STEP),
        s.new_tex_size == snapped(s.new_tex_size, TEX_SIZE_STEP),
    ensures
        mold_regeneration(s, true) == Some((s.new_count, s.new_tex_size)),
        mold_frame(mold_after_buttons(s, true, false)).agent_groups.x * AGENT_LOCAL_SIZE
            == s.new_count,
        mold_frame(mold_after_buttons(s, true, false)).blur_groups.x * BLUR_LOCAL_SIZE
            == s.new_tex_size,
        mold_frame(mold_after_buttons(s, true, false)).blur_groups.y * BLUR_LOCAL_SIZE
            == s.new_tex_size,
{
    crate::grid::lemma_snapped_count_covered(s.new_count, MOLD_COUNT_STEP);
    crate::grid::lemma_snapped_count_covered(s.new_tex_size, TEX_SIZE_STEP);
}

/// "Reset settings" restores every default, whatever else happened in the
/// frame, and leaves the buffers alone.
pub proof fn lemma_mold_reset_settings(s: MoldSim, reset_sim: bool)
    ensures
        ({
            let t = mold_after_buttons(s, reset_sim, true);
            &&& t.sensor_size == DEFAULT_SENSOR_SIZE
            &&& t.sensor_stride == DEFAULT_SENSOR_STRIDE
            &&& t.sensor_offset == DEFAULT_SENSOR_OFFSET
            &&& t.trail_weight == DEFAULT_TRAIL_WEIGHT
            &&& t.tex_size == DEFAULT_TEX_SIZE
            &&& t.new_tex_size == DEFAULT_TEX_SIZE
            &&& t.count == DEFAULT_MOLD_COUNT
            &&& t.new_count == DEFAULT_MOLD_COUNT
            &&& t.agents == s.agents
            &&& t.trail == s.trail
        }),
{
}

/// A frame is planned from the settings in use and the buffers alone:
/// each integer uniform is the setting of the same name, the field size
/// is the texture side in use and matches the blur's work groups, and
/// values chosen in the settings window but not yet applied (`new_count`,
/// `new_tex_size`) change nothing about the frame.
pub proof fn lemma_mold_frame_uses_settings_in_use(s: MoldSim, t: MoldSim)
    requires
        s.sensor_size == t.sensor_size,
        s.sensor_stride == t.sensor_stride,
        s.sensor_offset == t.sensor_offset,
        s.trail_weight == t.trail_weight,
        s.tex_size == t.tex_size,
        s.count == t.count,
        s.agents == t.agents,
        s.trail == t.trail,
    ensures
        mold_frame(s).sensor_size == s.sensor_size,
        mold_frame(s).sensor_stride == s.sensor_stride,
        mold_frame(s).sensor_offset == s.sensor_offset,
        mold_frame(s).trail_weight == s.trail_weight,
        mold_frame(s).field_uniform == s.tex_size as i32,
        s.tex_size <= i32::MAX ==> mold_frame(s).field_uniform / (BLUR_LOCAL_SIZE as i32)
            == mold_frame(s).blur_groups.x,
        mold_frame(s).blur_groups.x == mold_frame(s).blur_groups.y,
        mold_frame(s).agent_groups.x == s.count / AGENT_LOCAL_SIZE,
        mold_frame(s).agents_in == s.agents.in_data,
        mold_frame(s).agents_out == s.agents.out_data,
        mold_frame(s).agent_trail == s.trail.in_data,
        mold_frame(s).blur_in == s.trail.in_data,
        mold_frame(s).blur_out == s.trail.out_data,
        mold_frame(s) == mold_frame(t),
        mold_after_frame(s).tex_size == s.tex_size,
        mold_after_frame(s).count == s.count,
        mold_after_frame(s).new_tex_size == s.new_tex_size,
        mold_after_frame(s).new_count == s.new_count,
{
}

/// Without a button press the frame leaves the simulation as it was and
/// regenerates nothing; the agent count and texture side in use change
/// only when a button is pressed, to the chosen values on "Reset
/// simulation" and to the defaults on "Reset settings".
pub proof fn lemma_mold_sizes_change_only_by_buttons(s: MoldSim, reset_sim: bool, reset_settings: bool)
    ensures
        mold_after_buttons(s, false, false) == s,
        mold_regeneration(s, false) is None,
        ({
            let t = mold_after_buttons(s, reset_sim, reset_settings);
            &&& (t.count != s.count || t.tex_size != s.tex_size) ==> reset_sim || reset_settings
            &&& reset_sim && !reset_settings ==> t.count == s.new_count && t.tex_size == s.new_tex_size
            &&& !reset_sim && !reset_settings ==> t.count == s.count && t.tex_size == s.tex_size
            &&& !reset_settings ==> t.new_count == s.new_count && t.new_tex_size == s.new_tex_size
            &&& !reset_settings ==> t.sensor_size == s.sensor_size && t.sensor_stride == s.sensor_stride
                && t.sensor_offset == s.sensor_offset && t.trail_weight == s.trail_weight
            &&& t.agents == s.agents && t.trail == s.trail
        }),
{
}

} // verus!
