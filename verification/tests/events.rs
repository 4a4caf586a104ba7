use erosion_terrain::events::{
    after_render, loop_action, should_report_frame_time, InputAction, InputState, LoopAction,
    LoopEvent, RenderFollowUp, RenderOutcome, SurfaceSize, Viewport, WindowInput,
};

#[test]
fn resize_adopts_positive_size() {
    let mut viewport = Viewport { size: SurfaceSize { width: 800, height: 600 } };
    assert!(viewport.resize(SurfaceSize { width: 1280, height: 720 }));
    assert!(viewport.size == SurfaceSize { width: 1280, height: 720 });
}

#[test]
fn resize_ignores_zero_side() {
    let mut viewport = Viewport { size: SurfaceSize { width: 800, height: 600 } };
    assert!(!viewport.resize(SurfaceSize { width: 0, height: 720 }));
    assert!(!viewport.resize(SurfaceSize { width: 1280, height: 0 }));
    assert!(viewport.size == SurfaceSize { width: 800, height: 600 });
}

#[test]
fn input_left_button_sets_mouse() {
    let mut state = InputState { mouse_pressed: false };
    assert!(state.input(WindowInput::LeftButton { pressed: true }) == InputAction::Consumed);
    assert!(state.mouse_pressed);
    assert!(state.input(WindowInput::LeftButton { pressed: false }) == InputAction::Consumed);
    assert!(!state.mouse_pressed);
}

#[test]
fn input_other_events() {
    let mut state = InputState { mouse_pressed: true };
    assert!(state.input(WindowInput::Key) == InputAction::KeyToCamera);
    assert!(state.input(WindowInput::Wheel) == InputAction::ScrollCamera);
    assert!(state.input(WindowInput::Other) == InputAction::NotConsumed);
    assert!(state.mouse_pressed);
}

#[test]
fn loop_actions() {
    let size = SurfaceSize { width: 3, height: 4 };
    assert!(loop_action(LoopEvent::MouseMotion, false) == LoopAction::RotateCamera);
    assert!(loop_action(LoopEvent::CloseRequested, false) == LoopAction::Exit);
    assert!(loop_action(LoopEvent::CloseRequested, true) == LoopAction::Nothing);
    assert!(loop_action(LoopEvent::Resized(size), false) == LoopAction::Resize(size));
    assert!(loop_action(LoopEvent::RedrawRequested, false) == LoopAction::Redraw);
    assert!(loop_action(LoopEvent::RedrawRequested, true) == LoopAction::Nothing);
    assert!(loop_action(LoopEvent::OtherWindowEvent, false) == LoopAction::Nothing);
    assert!(loop_action(LoopEvent::Unrelated, false) == LoopAction::Nothing);
}

#[test]
fn render_follow_ups() {
    assert!(after_render(RenderOutcome::Presented) == RenderFollowUp::Continue);
    assert!(after_render(RenderOutcome::SurfaceLost) == RenderFollowUp::Reconfigure);
    assert!(after_render(RenderOutcome::OutOfMemory) == RenderFollowUp::Exit);
    assert!(after_render(RenderOutcome::OtherError) == RenderFollowUp::Report);
}

#[test]
fn frame_time_report_threshold() {
    assert!(!should_report_frame_time(500));
    assert!(should_report_frame_time(501));
    assert!(!should_report_frame_time(0));
}
