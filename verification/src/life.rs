use vstd::prelude::*;
use crate::buffer::GlBuffer;
use crate::control::Flow;
use crate::grid::{grid_dispatch, Dispatch};
use crate::pingpong::{swapped, PingPong};

verus! {

/// Side of the square Game of Life field, in cells.
pub const FIELD_SIDE: usize = 1024;

/// Invocations per work group along each axis of the life shader.
pub const LIFE_LOCAL_SIZE: u32 = 32;

/// Bytes per texel of the RGBA8 image that seeds the output texture.
pub const TEXEL_BYTES: usize = 4;

/// The Game of Life field: its size in cells and the two cell buffers
/// that generations alternate between.
#[derive(Clone, Copy, Debug, PartialEq, Eq, Structural)]
pub struct LifeSim {
    pub width: usize,
    pub height: usize,
    pub buffers: PingPong,
}

/// The GL work of one redraw: the compute pass binds `compute_out` at
/// binding 0 and `compute_in` at binding 1 and launches `groups`; the draw
/// pass then binds `draw_data` at binding 0.
#[derive(Clone, Copy, Debug, PartialEq, Eq, Structural)]
pub struct LifeFrame {
    pub compute_out: GlBuffer,
    pub compute_in: GlBuffer,
    pub groups: Dispatch,
    pub draw_data: GlBuffer,
}

/// The frame that state `s` renders.
pub open spec fn life_frame(s: LifeSim) -> LifeFrame {
    LifeFrame {
        compute_out: s.buffers.out_data,
        compute_in: s.buffers.in_data,
        groups: Dispatch {
            x: (s.width as u32) / LIFE_LOCAL_SIZE,
            y: (s.height as u32) / LIFE_LOCAL_SIZE,
            z: 1,
        },
        draw_data: s.buffers.out_data,
    }
}

/// The state after state `s` renders a frame.
pub open spec fn life_after(s: LifeSim) -> LifeSim {
    LifeSim { buffers: swapped(s.buffers), ..s }
}

impl LifeSim {
    /// A `FIELD_SIDE` x `FIELD_SIDE` field whose first generation is in `in_data`.
    pub fn new(in_data: GlBuffer, out_data: GlBuffer) -> (s: LifeSim)
        ensures
            s.width == FIELD_SIDE,
            s.height == FIELD_SIDE,
            s.buffers == (PingPong { in_data, out_data }),
    {
        LifeSim { width: FIELD_SIDE, height: FIELD_SIDE, buffers: PingPong::new(in_data, out_data) }
    }

    /// Number of cells in the field, the length of each cell buffer.
    pub fn cell_count(&self) -> (r: usize)
        requires
            self.width * self.height <= usize::MAX,
        ensures
            r == self.width * self.height,
    {
        self.width * self.height
    }

    /// Length in bytes of the RGBA8 image that seeds the output texture.
    pub fn texture_bytes(&self) -> (r: usize)
        requires
            self.width * self.height * TEXEL_BYTES <= usize::MAX,
        ensures
            r == self.width * self.height * TEXEL_BYTES,
    {
        proof {
            assert(self.width * self.height <= usize::MAX) by (nonlinear_arith)
                requires
                    self.width * self.height * TEXEL_BYTES <= usize::MAX,
                    TEXEL_BYTES == 4,
            ;
        }
        self.width * self.height * TEXEL_BYTES
    }

    /// Plans one redraw: the compute pass writes the next generation into
    /// `out_data` from `in_data`, the buffers trade places, and the draw
    /// pass shows the generation just written.
    pub fn frame(&mut self) -> (f: LifeFrame)
        ensures
            f == life_frame(*old(self)),
            *final(self) == life_after(*old(self)),
            f.compute_in == old(self).buffers.in_data,
            f.compute_out == old(self).buffers.out_data,
            f.draw_data == old(self).buffers.out_data,
            f.groups == (Dispatch {
                x: (old(self).width as u32) / LIFE_LOCAL_SIZE,
                y: (old(self).height as u32) / LIFE_LOCAL_SIZE,
                z: 1,
            }),
            final(self).width == old(self).width,
            final(self).height == old(self).height,
    {
        let groups = grid_dispatch(self.width as u32, self.height as u32, LIFE_LOCAL_SIZE);
        let compute_out = self.buffers.out_data;
        let compute_in = self.buffers.in_data;
        self.buffers.swap();
        LifeFrame { compute_out, compute_in, groups, draw_data: self.buffers.in_data }
    }
}

/// Double buffering: each frame draws the generation its compute pass
/// wrote, the next frame computes from that generation, and two frames
/// bring the buffers back to where they started.
pub proof fn lemma_life_double_buffering(s: LifeSim)
    ensures
        life_frame(s).draw_data == life_frame(s).compute_out,
        life_frame(life_after(s)).compute_in == life_frame(s).compute_out,
        life_frame(life_after(s)).compute_out == life_frame(s).compute_in,
        life_frame(life_after(s)).groups == life_frame(s).groups,
        life_after(life_after(s)) == s,
{
}

/// A frame computes the next generation from `in_data`, the buffer that
/// holds the latest one, into `out_data`, and launches one group per
/// `LIFE_LOCAL_SIZE` x `LIFE_LOCAL_SIZE` cells of the field.
pub proof fn lemma_life_frame_reads_latest(s: LifeSim)
    ensures
        life_frame(s).compute_in == s.buffers.in_data,
        life_frame(s).compute_out == s.buffers.out_data,
        life_frame(s).groups.x == (s.width as u32) / LIFE_LOCAL_SIZE,
        life_frame(s).groups.y == (s.height as u32) / LIFE_LOCAL_SIZE,
        life_frame(s).groups.z == 1,
        life_after(s).width == s.width,
        life_after(s).height == s.height,
{
}

/// The window events the Game of Life loop tells apart.
#[derive(Clone, Copy, Debug, PartialEq, Eq, Structural)]
pub enum LifeEvent {
    MainEventsCleared,
    RedrawRequested,
    Resized(u32, u32),
    CloseRequested,
    /// Keyboard input (press or release) of the `I` key.
    KeyI,
    /// Keyboard input (press or release) of the `O` key.
    KeyO,
    Other,
}

/// What the Game of Life loop does for an event.
#[derive(Clone, Copy, Debug, PartialEq, Eq, Structural)]
pub enum LifeAction {
    Nothing,
    RequestRedraw,
    /// Render one frame (see `LifeSim::frame`) and swap the window buffers.
    Step,
    Resize(u32, u32),
    /// Delete the compute program and both cell buffers.
    Shutdown,
    /// Zoom in by a tenth, up to twenty times.
    ZoomIn,
    /// Zoom out by a tenth, down to one.
    ZoomOut,
}

/// The response of the Game of Life loop to `event`: the loop waits for
/// the next event, except after a close request, when it exits.
pub fn life_respond(event: LifeEvent) -> (r: (Flow, LifeAction))
    ensures
        r == (match event {
            LifeEvent::MainEventsCleared => (Flow::Wait, LifeAction::RequestRedraw),
            LifeEvent::RedrawRequested => (Flow::Wait, LifeAction::Step),
            LifeEvent::Resized(w, h) => (Flow::Wait, LifeAction::Resize(w, h)),
            LifeEvent::CloseRequested => (Flow::Exit, LifeAction::Shutdown),
            LifeEvent::KeyI => (Flow::Wait, LifeAction::ZoomIn),
            LifeEvent::KeyO => (Flow::Wait, LifeAction::ZoomOut),
            LifeEvent::Other => (Flow::Wait, LifeAction::Nothing),
        }),
{
    match event {
        LifeEvent::MainEventsCleared => (Flow::Wait, LifeAction::RequestRedraw),
        LifeEvent::RedrawRequested => (Flow::Wait, LifeAction::Step),
        LifeEvent::Resized(w, h) => (Flow::Wait, LifeAction::Resize(w, h)),
        LifeEvent::CloseRequested => (Flow::Exit, LifeAction::Shutdown),
        LifeEvent::KeyI => (Flow::Wait, LifeAction::ZoomIn),
        LifeEvent::KeyO => (Flow::Wait, LifeAction::ZoomOut),
        LifeEvent::Other => (Flow::Wait, LifeAction::Nothing),
    }
}

} // verus!
