use widgets::event::Recorder;
use widgets::platform::{WindowEvent, WinitWindow};
use widgets::window::{Action, LoopEvent, State};

#[test]
fn one_iteration_then_platform_close() {
    // A window titled "my app", one redraw-driven loop iteration, then a
    // platform close request: the loop decides to exit and the bus hears
    // about the close, all without a panic.
    let mut window = WinitWindow::<Recorder<WindowEvent>>::new("my app");
    window.handle_events(Recorder::new());
    let mut state = State::new(640, 480);

    assert_eq!(state.handle_event(&LoopEvent::RedrawRequested), Action::Render);
    window.handle_platform_event(&LoopEvent::RedrawRequested);

    assert_eq!(state.handle_event(&LoopEvent::CloseRequested), Action::Exit);
    window.handle_platform_event(&LoopEvent::CloseRequested);
    assert_eq!(
        *window.event_bus().subscriber_at(0).values(),
        vec![WindowEvent::WindowClosed]
    );
}

#[test]
fn close_notifies_every_handler_in_order() {
    let mut window = WinitWindow::<Recorder<WindowEvent>>::new("my app");
    window.handle_events(Recorder::new());
    window.handle_events(Recorder::new());

    window.close();

    let bus = window.event_bus();
    assert_eq!(bus.subscriber_count(), 2);
    assert_eq!(*bus.subscriber_at(0).values(), vec![WindowEvent::WindowClosed]);
    assert_eq!(*bus.subscriber_at(1).values(), vec![WindowEvent::WindowClosed]);
}

#[test]
fn platform_close_request_becomes_a_domain_event() {
    let mut window = WinitWindow::<Recorder<WindowEvent>>::new("my app");
    window.handle_events(Recorder::new());

    window.handle_platform_event(&LoopEvent::CloseRequested);

    let bus = window.event_bus();
    assert_eq!(*bus.subscriber_at(0).values(), vec![WindowEvent::WindowClosed]);
}

#[test]
fn platform_resize_becomes_a_domain_event() {
    let mut window = WinitWindow::<Recorder<WindowEvent>>::new("my app");
    window.handle_events(Recorder::new());

    window.handle_platform_event(&LoopEvent::Resized { width: 200, height: 300 });
    window.handle_platform_event(&LoopEvent::RedrawRequested);

    let bus = window.event_bus();
    assert_eq!(
        *bus.subscriber_at(0).values(),
        vec![WindowEvent::WindowResize(200, 300)]
    );
}

#[test]
fn facade_carries_title_and_size() {
    let mut window = WinitWindow::<Recorder<WindowEvent>>::new("my app");
    assert_eq!(window.window_title().as_str(), "my app");
    window.set_size(200, 300);
    // The declared-but-deferred operations stay callable no-ops.
    window.hide_window();
    window.set_title();
    window.get_size();
    window.set_pos();
    window.get_pos();
    window.set_resizeable();
    window.is_resizeable();
    window.set_fullscreen();
}
