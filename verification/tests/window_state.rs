use widgets::window::{
    index_buffer_bytes, quad_indices, render_failure_policy, select_surface_format, Action, Key,
    LoopEvent, PhysicalSize, State, SurfaceError, Vertex,
};

#[test]
fn create_window() {
    // Opening a real platform window needs a display server and stays in
    // the unverified shell.
}

#[test]
fn resize_zero_is_a_no_op() {
    let mut state = State::new(800, 600);
    let reconfigured = state.resize(0, 0);
    assert!(!reconfigured);
    let frame = state.frame();
    assert_eq!(frame.uniform, PhysicalSize { width: 800, height: 600 });
    assert_eq!(frame.viewport, PhysicalSize { width: 800, height: 600 });
}

#[test]
fn resize_updates_size_and_configuration() {
    let mut state = State::new(800, 600);
    let reconfigured = state.resize(1024, 768);
    assert!(reconfigured);
    let frame = state.frame();
    // A later frame derives its normalization uniform from the new size.
    assert_eq!(frame.uniform, PhysicalSize { width: 1024, height: 768 });
    assert_eq!(frame.viewport, PhysicalSize { width: 1024, height: 768 });
}

#[test]
fn resize_with_one_zero_dimension_is_rejected() {
    let mut state = State::new(800, 600);
    assert!(!state.resize(0, 600));
    assert!(!state.resize(800, 0));
    let frame = state.frame();
    assert_eq!(frame.uniform, PhysicalSize { width: 800, height: 600 });
}

#[test]
fn pointer_move_centres_the_quad() {
    let mut state = State::new(800, 600);
    let handled = state.input(&LoopEvent::CursorMoved { x: 150, y: 200 });
    assert!(handled);
    let frame = state.frame();
    assert_eq!(frame.vertices[0].x, 100);
    assert_eq!(frame.vertices[0].y, 150);
    assert_eq!(frame.vertices[2].x, 200);
    assert_eq!(frame.vertices[2].y, 250);
}

#[test]
fn keyboard_input_is_unhandled_and_moves_nothing() {
    let mut state = State::new(800, 600);
    state.input(&LoopEvent::CursorMoved { x: 150, y: 200 });
    let handled = state.input(&LoopEvent::KeyboardInput { key: Key::Other, pressed: true });
    assert!(!handled);
    let frame = state.frame();
    assert_eq!(frame.vertices[0].x, 100);
    assert_eq!(frame.vertices[0].y, 150);
}

#[test]
fn one_loop_iteration_then_close() {
    // One redraw-driven iteration, then a close request ends the loop.
    let mut state = State::new(640, 480);
    assert_eq!(state.handle_event(&LoopEvent::RedrawRequested), Action::Render);
    assert_eq!(state.handle_event(&LoopEvent::MainEventsCleared), Action::Continue);
    assert_eq!(state.handle_event(&LoopEvent::CloseRequested), Action::Exit);
}

#[test]
fn escape_key_ends_the_loop() {
    let mut state = State::new(640, 480);
    let action = state.handle_event(&LoopEvent::KeyboardInput { key: Key::Escape, pressed: true });
    assert_eq!(action, Action::Exit);
    let released =
        state.handle_event(&LoopEvent::KeyboardInput { key: Key::Escape, pressed: false });
    assert_eq!(released, Action::Continue);
}

#[test]
fn resize_events_reconfigure_the_surface() {
    let mut state = State::new(640, 480);
    assert_eq!(
        state.handle_event(&LoopEvent::Resized { width: 1280, height: 720 }),
        Action::Reconfigure
    );
    assert_eq!(
        state.handle_event(&LoopEvent::ScaleFactorChanged { width: 0, height: 720 }),
        Action::Continue
    );
    let frame = state.frame();
    assert_eq!(frame.uniform, PhysicalSize { width: 1280, height: 720 });
}

#[test]
fn cursor_event_asks_for_redraw() {
    let mut state = State::new(640, 480);
    let action = state.handle_event(&LoopEvent::CursorMoved { x: 10, y: 10 });
    assert_eq!(action, Action::RequestRedraw);
    let frame = state.frame();
    assert_eq!(frame.vertices[0].x, -40);
    assert_eq!(frame.vertices[0].y, -40);
}

#[test]
fn surface_failures_follow_the_policy() {
    assert_eq!(render_failure_policy(&SurfaceError::Lost), Action::Reconfigure);
    assert_eq!(render_failure_policy(&SurfaceError::OutOfMemory), Action::Exit);
    assert_eq!(render_failure_policy(&SurfaceError::Timeout), Action::Report);
    assert_eq!(render_failure_policy(&SurfaceError::Outdated), Action::Report);
}

#[test]
fn index_topology_references_the_four_vertices() {
    let indices = quad_indices();
    assert_eq!(indices, vec![0, 1, 2, 2, 3, 0]);
    assert!(indices.iter().all(|&i| i < 4));

    // Re-uploading geometry never touches the topology.
    let mut state = State::new(640, 480);
    let first = state.frame();
    assert_eq!(first.vertices.len(), 4);
    assert_eq!(first.index_count, 6);
    state.input(&LoopEvent::CursorMoved { x: 300, y: 300 });
    let second = state.frame();
    assert_eq!(second.vertices.len(), 4);
    assert_eq!(second.index_count, 6);
    assert_eq!(quad_indices(), vec![0, 1, 2, 2, 3, 0]);
}

#[test]
fn index_buffer_bytes_are_two_per_index() {
    let bytes = index_buffer_bytes();
    assert_eq!(bytes.len(), 12);
    let expected = [0u8, 1, 2, 2, 3, 0];
    for i in 0..6 {
        let pair = (bytes[2 * i], bytes[2 * i + 1]);
        assert!(pair == (expected[i], 0) || pair == (0, expected[i]));
    }
}

#[test]
fn first_srgb_format_is_chosen() {
    assert_eq!(select_surface_format(&vec![false, true, true]), 1);
    assert_eq!(select_surface_format(&vec![true, false]), 0);
}

#[test]
fn first_format_is_the_fallback() {
    assert_eq!(select_surface_format(&vec![false, false, false]), 0);
}

#[test]
fn fresh_state_draws_the_quad_at_the_origin() {
    let state = State::new(320, 240);
    let frame = state.frame();
    assert_eq!(
        frame.vertices[0],
        Vertex { x: 0, y: 0, z: 0, red: 1, green: 0, blue: 0 }
    );
    assert_eq!(
        frame.vertices[1],
        Vertex { x: 0, y: 100, z: 0, red: 0, green: 1, blue: 0 }
    );
    assert_eq!(
        frame.vertices[2],
        Vertex { x: 100, y: 100, z: 0, red: 0, green: 0, blue: 1 }
    );
    assert_eq!(
        frame.vertices[3],
        Vertex { x: 100, y: 0, z: 0, red: 1, green: 1, blue: 0 }
    );
}
