use minerust::frame_clock::FrameClock;
use minerust::pipeline::{
    pass_state, resting_state, CullFace, DepthFunc, FramePass, FrameSequence, PassOrderError, Target,
};

#[test]
fn fixed_step_is_a_fortieth_of_a_second() {
    let clock = FrameClock::new(1_000_000);
    assert_eq!(clock.fixed_step(), 25_000);
    assert_eq!(clock.frequency(), 1_000_000);
    assert_eq!(clock.accumulated(), 0);
}

#[test]
fn advance_takes_whole_steps() {
    let mut clock = FrameClock::new(4_000);
    assert_eq!(clock.advance(250), 2);
    assert_eq!(clock.accumulated(), 50);
    assert_eq!(clock.advance(40), 0);
    assert_eq!(clock.accumulated(), 90);
    assert_eq!(clock.advance(10), 1);
    assert_eq!(clock.accumulated(), 0);
    assert_eq!(clock.advance(0), 0);
}

#[test]
fn updates_over_a_run_match_total_time() {
    let mut clock = FrameClock::new(4_000);
    let deltas = [17u64, 230, 0, 99, 1, 512, 33, 100, 7];
    let mut updates = 0;
    for d in deltas {
        updates += clock.advance(d);
        assert!(clock.accumulated() < clock.fixed_step());
    }
    let total: u64 = deltas.iter().sum();
    assert_eq!(updates, total / 100);
    assert_eq!(clock.accumulated(), total % 100);
}

#[test]
fn smallest_frequency_gives_one_tick_steps() {
    let mut clock = FrameClock::new(40);
    assert_eq!(clock.fixed_step(), 1);
    assert_eq!(clock.advance(7), 7);
    assert_eq!(clock.accumulated(), 0);
}

#[test]
fn passes_run_in_order() {
    let mut frame = FrameSequence::new();
    for pass in [FramePass::Geometry, FramePass::Shadow, FramePass::Lighting, FramePass::DepthBlit, FramePass::Skybox] {
        assert_eq!(frame.begin(pass), Ok(()));
    }
    assert_eq!(frame.finish(), Ok(()));
    assert_eq!(frame.begin(FramePass::Geometry), Ok(()));
}

#[test]
fn pass_out_of_order_is_refused() {
    let mut frame = FrameSequence::new();
    assert_eq!(frame.begin(FramePass::Shadow), Err(PassOrderError::OutOfOrder));
    assert_eq!(frame.begin(FramePass::Geometry), Ok(()));
    assert_eq!(frame.begin(FramePass::Geometry), Err(PassOrderError::OutOfOrder));
    assert_eq!(frame.begin(FramePass::Lighting), Err(PassOrderError::OutOfOrder));
    assert_eq!(frame.begin(FramePass::Shadow), Ok(()));
}

#[test]
fn unfinished_frame_cannot_end() {
    let mut frame = FrameSequence::new();
    assert_eq!(frame.finish(), Err(PassOrderError::Unfinished));
    frame.begin(FramePass::Geometry).unwrap();
    assert_eq!(frame.finish(), Err(PassOrderError::Unfinished));
}

#[test]
fn skybox_state_and_restore() {
    let sky = pass_state(FramePass::Skybox);
    assert_eq!(sky.depth_func, DepthFunc::LessEqual);
    assert_eq!(sky.cull_face, CullFace::Front);
    assert!(sky.depth_test);
    let rest = resting_state();
    assert_eq!(rest.depth_func, DepthFunc::Less);
    assert_eq!(rest.cull_face, CullFace::Back);
    assert_eq!(rest.target, Target::Screen);
}

#[test]
fn geometry_shadow_lighting_states() {
    let g = pass_state(FramePass::Geometry);
    assert_eq!(g.target, Target::GBuffer);
    assert!(g.clear_color && g.clear_depth && g.depth_test);
    let s = pass_state(FramePass::Shadow);
    assert_eq!(s.target, Target::ShadowMap);
    assert!(!s.clear_color && s.clear_depth);
    assert_eq!(s.cull_face, CullFace::Front);
    let l = pass_state(FramePass::Lighting);
    assert_eq!(l.target, Target::Screen);
    assert!(!l.depth_test);
}
