use vstd::prelude::*;
use vstd::layout::size_of;
use crate::buffer::{GlBuffer, StructuredBuffer};
use crate::control::Flow;
use crate::grid::{grid_dispatch, Dispatch};

verus! {

/// Side of the field of the headless compute harness, in cells.
pub const HEADLESS_SIDE: usize = 10;

/// Invocations per work group along each axis of the harness shader.
pub const HEADLESS_LOCAL_SIZE: u32 = 8;

/// Number of dispatches one `process` call issues (`0..=10240`).
pub const DISPATCH_ROUNDS: u32 = 10241;

/// The field of the headless harness: its size and the previous and
/// current cell buffers.
pub struct HeadlessField<T> where T: Default + Clone {
    field_size: (usize, usize),
    prev_sb: StructuredBuffer<T>,
    curr_sb: StructuredBuffer<T>,
}

/// The GL work of one `process` call: bind `first_bound`, then
/// `second_bound`, as the shader storage buffer, then dispatch `groups`
/// `rounds` times.
#[derive(Clone, Copy, Debug, PartialEq, Eq, Structural)]
pub struct ProcessPlan {
    pub first_bound: GlBuffer,
    pub second_bound: GlBuffer,
    pub groups: Dispatch,
    pub rounds: u32,
}

impl<T> HeadlessField<T> where T: Default + Clone {
    /// Both buffers hold one element per cell of the field, their byte
    /// sizes are that count times `size_of::<T>()`, and their GL names
    /// differ. Every field has this layout: the constructor establishes it
    /// and no method changes the field.
    pub open spec fn layout_holds(self) -> bool {
        let cells = self.spec_field_size().0 * self.spec_field_size().1;
        &&& self.spec_prev().spec_elements() == cells
        &&& self.spec_prev().spec_data().len() == cells
        &&& self.spec_prev().spec_buffer_size() == size_of::<T>() * cells
        &&& self.spec_curr().spec_elements() == cells
        &&& self.spec_curr().spec_data().len() == cells
        &&& self.spec_curr().spec_buffer_size() == size_of::<T>() * cells
        &&& self.spec_prev().spec_id() != self.spec_curr().spec_id()
    }

    #[verifier::type_invariant]
    spec fn well_formed(self) -> bool {
        self.layout_holds()
    }

    pub closed spec fn spec_field_size(self) -> (usize, usize) {
        self.field_size
    }

    pub closed spec fn spec_prev(self) -> StructuredBuffer<T> {
        self.prev_sb
    }

    pub closed spec fn spec_curr(self) -> StructuredBuffer<T> {
        self.curr_sb
    }

    /// A `HEADLESS_SIDE` x `HEADLESS_SIDE` field whose previous buffer,
    /// named `prev_id`, holds one copy of `prev_blank` per cell, and whose
    /// current buffer, named `curr_id`, one copy of `curr_blank` per cell.
    pub fn new(prev_id: GlBuffer, prev_blank: T, curr_id: GlBuffer, curr_blank: T) -> (f: Self)
        requires
            size_of::<T>() * 100 <= usize::MAX,
            prev_id != curr_id,
        ensures
            f.layout_holds(),
            f.spec_field_size() == (HEADLESS_SIDE, HEADLESS_SIDE),
            f.spec_prev().spec_data().len() == 100,
            f.spec_curr().spec_data().len() == 100,
            f.spec_prev().spec_id() == prev_id,
            f.spec_curr().spec_id() == curr_id,
            f.spec_prev().spec_elements() == 100,
            f.spec_curr().spec_elements() == 100,
            f.spec_prev().spec_buffer_size() == size_of::<T>() * 100,
            f.spec_curr().spec_buffer_size() == size_of::<T>() * 100,
            forall|i: int| 0 <= i < 100 ==> cloned(prev_blank, #[trigger] f.spec_prev().spec_data()[i]),
            forall|i: int| 0 <= i < 100 ==> cloned(curr_blank, #[trigger] f.spec_curr().spec_data()[i]),
    {
        let field_size = (HEADLESS_SIDE, HEADLESS_SIDE);
        let cells: usize = HEADLESS_SIDE * HEADLESS_SIDE;
        let prev_sb = StructuredBuffer::filled(prev_id, cells, prev_blank);
        let curr_sb = StructuredBuffer::filled(curr_id, cells, curr_blank);
        HeadlessField { field_size, prev_sb, curr_sb }
    }

    /// The previous cell buffer.
    pub fn prev(&self) -> (r: &StructuredBuffer<T>)
        ensures
            *r == self.spec_prev(),
            self.layout_holds(),
    {
        proof {
            use_type_invariant(self);
        }
        &self.prev_sb
    }

    /// The current cell buffer.
    pub fn curr(&self) -> (r: &StructuredBuffer<T>)
        ensures
            *r == self.spec_curr(),
            self.layout_holds(),
    {
        proof {
            use_type_invariant(self);
        }
        &self.curr_sb
    }

    /// The GL work of `process`: the current buffer is bound, then the
    /// previous one, and `(width / 8, height / 8, 1)` groups are dispatched
    /// `DISPATCH_ROUNDS` times.
    pub fn process_plan(&self) -> (p: ProcessPlan)
        ensures
            p.first_bound == self.spec_curr().spec_id(),
            p.second_bound == self.spec_prev().spec_id(),
            p.groups == (Dispatch {
                x: (self.spec_field_size().0 as u32) / HEADLESS_LOCAL_SIZE,
                y: (self.spec_field_size().1 as u32) / HEADLESS_LOCAL_SIZE,
                z: 1,
            }),
            p.rounds == DISPATCH_ROUNDS,
            self.layout_holds(),
    {
        proof {
            use_type_invariant(self);
        }
        ProcessPlan {
            first_bound: self.curr_sb.id(),
            second_bound: self.prev_sb.id(),
            groups: grid_dispatch(self.field_size.0 as u32, self.field_size.1 as u32, HEADLESS_LOCAL_SIZE),
            rounds: DISPATCH_ROUNDS,
        }
    }
}

/// The events the headless harness's loop tells apart.
#[derive(Clone, Copy, Debug, PartialEq, Eq, Structural)]
pub enum HeadlessEvent {
    LoopDestroyed,
    MainEventsCleared,
    RedrawRequested,
    CloseRequested,
    Other,
}

/// The response of the headless harness's loop: it always leaves the
/// loop, and clears the color buffer when a redraw is requested.
pub fn headless_respond(event: HeadlessEvent) -> (r: (Flow, bool))
    ensures
        r.0 == Flow::Exit,
        r.1 == (event == HeadlessEvent::RedrawRequested),
{
    match event {
        HeadlessEvent::RedrawRequested => (Flow::Exit, true),
        _ => (Flow::Exit, false),
    }
}

} // verus!
