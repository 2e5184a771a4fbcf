use compute_sims::boids::{BoidSim, BOID_COUNT_STEP, BOID_LOCAL_SIZE, DEFAULT_BOID_COUNT};
use compute_sims::buffer::StructuredBuffer;
use compute_sims::control::{ui_respond, Flow, UiAction, UiEvent};
use compute_sims::grid::{grid_dispatch, line_dispatch, snap_down, Dispatch};
use compute_sims::headless::{headless_respond, HeadlessEvent, HeadlessField, DISPATCH_ROUNDS};
use compute_sims::life::{life_respond, LifeAction, LifeEvent, LifeSim, FIELD_SIDE};
use compute_sims::mold::{
    trail_cells, MoldSim, AGENT_LOCAL_SIZE, BLUR_LOCAL_SIZE, DEFAULT_MOLD_COUNT, DEFAULT_TEX_SIZE,
};
use compute_sims::pingpong::PingPong;

#[test]
fn snap_down_rounds_to_multiple() {
    assert_eq!(snap_down(1023, 8), 1016);
    assert_eq!(snap_down(1024, 8), 1024);
    assert_eq!(snap_down(7, 8), 0);
    assert_eq!(snap_down(262143, 32), 262112);
    assert_eq!(snap_down(4095, 8), 4088);
    assert_eq!(snap_down(u32::MAX, 32), u32::MAX - 31);
}

#[test]
fn snap_down_is_idempotent() {
    for v in [0u32, 1, 9, 100, 1000, 4099, 262144] {
        let once = snap_down(v, 32);
        assert_eq!(snap_down(once, 32), once);
        assert!(once <= v && v - once < 32);
    }
}

#[test]
fn dispatch_sizes() {
    assert_eq!(line_dispatch(1024, 8), Dispatch { x: 128, y: 1, z: 1 });
    assert_eq!(line_dispatch(131072, 32), Dispatch { x: 4096, y: 1, z: 1 });
    assert_eq!(line_dispatch(31, 32), Dispatch { x: 0, y: 1, z: 1 });
    assert_eq!(grid_dispatch(1024, 1024, 32), Dispatch { x: 32, y: 32, z: 1 });
    assert_eq!(grid_dispatch(10, 10, 8), Dispatch { x: 1, y: 1, z: 1 });
}

#[test]
fn snapped_count_is_covered_exactly() {
    let c = snap_down(1001, 8);
    assert_eq!(line_dispatch(c, 8).x * 8, c);
}

#[test]
fn pingpong_swap_twice_restores() {
    let mut p = PingPong::new(3, 4);
    p.swap();
    assert_eq!(p, PingPong { in_data: 4, out_data: 3 });
    p.swap();
    assert_eq!(p, PingPong { in_data: 3, out_data: 4 });
}

#[test]
fn life_frames_alternate_buffers() {
    let mut s = LifeSim::new(1, 2);
    assert_eq!((s.width, s.height), (FIELD_SIDE, FIELD_SIDE));
    assert_eq!(s.cell_count(), 1024 * 1024);
    assert_eq!(s.texture_bytes(), 1024 * 1024 * 4);
    let f1 = s.frame();
    assert_eq!((f1.compute_out, f1.compute_in, f1.draw_data), (2, 1, 2));
    assert_eq!(f1.groups, Dispatch { x: 32, y: 32, z: 1 });
    let f2 = s.frame();
    assert_eq!(f2.compute_in, f1.compute_out);
    assert_eq!((f2.compute_out, f2.compute_in, f2.draw_data), (1, 2, 1));
    assert_eq!(s.buffers, PingPong { in_data: 1, out_data: 2 });
}

#[test]
fn life_events() {
    assert_eq!(life_respond(LifeEvent::MainEventsCleared), (Flow::Wait, LifeAction::RequestRedraw));
    assert_eq!(life_respond(LifeEvent::RedrawRequested), (Flow::Wait, LifeAction::Step));
    assert_eq!(life_respond(LifeEvent::Resized(800, 600)), (Flow::Wait, LifeAction::Resize(800, 600)));
    assert_eq!(life_respond(LifeEvent::CloseRequested), (Flow::Exit, LifeAction::Shutdown));
    assert_eq!(life_respond(LifeEvent::KeyI), (Flow::Wait, LifeAction::ZoomIn));
    assert_eq!(life_respond(LifeEvent::KeyO), (Flow::Wait, LifeAction::ZoomOut));
    assert_eq!(life_respond(LifeEvent::Other), (Flow::Wait, LifeAction::Nothing));
}

#[test]
fn ui_events() {
    assert_eq!(ui_respond(UiEvent::NewEvents), (Flow::Wait, UiAction::UpdateTime));
    assert_eq!(ui_respond(UiEvent::MainEventsCleared), (Flow::Wait, UiAction::PrepareFrame));
    assert_eq!(ui_respond(UiEvent::RedrawRequested), (Flow::Wait, UiAction::RenderFrame));
    assert_eq!(ui_respond(UiEvent::CloseRequested), (Flow::Exit, UiAction::Nothing));
    assert_eq!(ui_respond(UiEvent::Other), (Flow::Wait, UiAction::ForwardToUi));
}

#[test]
fn boid_frame_and_snap() {
    let mut s = BoidSim::new(10, 11);
    assert_eq!((s.count, s.new_count), (DEFAULT_BOID_COUNT, DEFAULT_BOID_COUNT));
    let f = s.frame();
    assert_eq!(f.count_uniform, 1024);
    assert_eq!(f.groups, Dispatch { x: 128, y: 1, z: 1 });
    assert_eq!((f.compute_out, f.compute_in, f.draw_data), (11, 10, 11));
    assert_eq!(s.buffers, PingPong { in_data: 11, out_data: 10 });
    s.new_count = 517;
    s.snap_new_count();
    assert_eq!(s.new_count, 512);
    assert_eq!(s.new_count % BOID_COUNT_STEP, 0);
}

#[test]
fn boid_reset_simulation_uses_new_count() {
    let mut s = BoidSim::new(1, 2);
    s.new_count = 200;
    s.snap_new_count();
    assert_eq!(s.finish_frame(true, false), Some(200));
    assert_eq!(s.count, 200);
    assert_eq!(s.frame().groups.x * BOID_LOCAL_SIZE, 200);
}

#[test]
fn boid_reset_settings_restores_default() {
    let mut s = BoidSim::new(1, 2);
    s.new_count = 64;
    assert_eq!(s.finish_frame(false, true), None);
    assert_eq!((s.count, s.new_count), (1024, 1024));
    s.new_count = 64;
    assert_eq!(s.finish_frame(true, true), Some(64));
    assert_eq!((s.count, s.new_count), (1024, 1024));
    assert_eq!(s.finish_frame(false, false), None);
    assert_eq!((s.count, s.new_count), (1024, 1024));
}

#[test]
fn mold_frame_plan() {
    let mut s = MoldSim::new(1, 2, 3, 4);
    assert_eq!((s.tex_size, s.count), (DEFAULT_TEX_SIZE, DEFAULT_MOLD_COUNT));
    assert_eq!((s.sensor_size, s.sensor_stride, s.sensor_offset, s.trail_weight), (2, 2, 30, 10));
    let f = s.frame();
    assert_eq!(f.field_uniform, 4096);
    assert_eq!((f.agents_out, f.agents_in, f.agent_trail), (2, 1, 3));
    assert_eq!(f.agent_groups, Dispatch { x: 4096, y: 1, z: 1 });
    assert_eq!((f.blur_out, f.blur_in), (4, 3));
    assert_eq!(f.blur_groups, Dispatch { x: 512, y: 512, z: 1 });
    assert_eq!(f.draw_data, 4);
    let g = s.frame();
    assert_eq!(g.agents_in, f.agents_out);
    assert_eq!(g.agent_trail, f.blur_out);
    assert_eq!(s.agents, PingPong { in_data: 1, out_data: 2 });
    assert_eq!(s.trail, PingPong { in_data: 3, out_data: 4 });
}

#[test]
fn mold_reset_simulation_and_settings() {
    let mut s = MoldSim::new(1, 2, 3, 4);
    s.new_count = 1000;
    s.new_tex_size = 1001;
    s.snap_new_values();
    assert_eq!((s.new_count, s.new_tex_size), (992, 1000));
    assert_eq!(s.finish_frame(true, false), Some((992, 1000)));
    let f = s.frame();
    assert_eq!(f.agent_groups.x * AGENT_LOCAL_SIZE, 992);
    assert_eq!(f.blur_groups.x * BLUR_LOCAL_SIZE, 1000);
    s.sensor_offset = 3;
    s.trail_weight = 40;
    assert_eq!(s.finish_frame(false, true), None);
    assert_eq!((s.sensor_offset, s.trail_weight, s.tex_size, s.count), (30, 10, 4096, 131072));
    assert_eq!((s.new_tex_size, s.new_count), (4096, 131072));
}

#[test]
fn mold_trail_cells() {
    assert_eq!(trail_cells(4096), 4096 * 4096);
    assert_eq!(trail_cells(8), 64);
    assert_eq!(trail_cells(0), 0);
}

#[test]
fn structured_buffer_sizes() {
    let sb: StructuredBuffer<[u32; 3]> = StructuredBuffer::filled(7, 100, [1, 2, 3]);
    assert_eq!(sb.id(), 7);
    assert_eq!(sb.elements(), 100);
    assert_eq!(sb.buffer_size(), 1200);
    assert_eq!(sb.data().len(), 100);
    assert!(sb.data().iter().all(|c| *c == [1, 2, 3]));
    let empty: StructuredBuffer<u8> = StructuredBuffer::filled(1, 0, 0);
    assert_eq!((empty.elements(), empty.buffer_size()), (0, 0));
}

#[test]
fn headless_field_and_plan() {
    let f: HeadlessField<[u32; 3]> = HeadlessField::new(5, [0; 3], 6, [0; 3]);
    assert_eq!(f.prev().id(), 5);
    assert_eq!(f.curr().id(), 6);
    assert_eq!(f.curr().elements(), 100);
    assert_eq!(f.prev().data().len(), 100);
    assert_eq!(f.curr().data().len(), 100);
    assert_ne!(f.prev().id(), f.curr().id());
    assert_eq!(f.prev().buffer_size(), 1200);
    let p = f.process_plan();
    assert_eq!((p.first_bound, p.second_bound), (6, 5));
    assert_eq!(p.groups, Dispatch { x: 1, y: 1, z: 1 });
    assert_eq!(p.rounds, DISPATCH_ROUNDS);
    assert_eq!(p.rounds, 10241);
}

#[test]
fn headless_always_exits() {
    assert_eq!(headless_respond(HeadlessEvent::RedrawRequested), (Flow::Exit, true));
    assert_eq!(headless_respond(HeadlessEvent::LoopDestroyed), (Flow::Exit, false));
    assert_eq!(headless_respond(HeadlessEvent::CloseRequested), (Flow::Exit, false));
    assert_eq!(headless_respond(HeadlessEvent::MainEventsCleared), (Flow::Exit, false));
    assert_eq!(headless_respond(HeadlessEvent::Other), (Flow::Exit, false));
}
