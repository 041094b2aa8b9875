use triangle::dispatch::{FrameOutcome, Key, Phase, Response, WindowEvent};
use triangle::surface::{DrawCall, State, SurfaceSize};
use triangle::App;

fn ready_app() -> App {
    let mut app = App::new(false);
    assert_eq!(app.resumed(), Response::CreateController);
    assert_eq!(app.user_event(State::new(800, 600, 8192), 800, 600), Response::Ignore);
    app
}

#[test]
fn escape_press_exits_once_release_does_not() {
    let mut app = ready_app();
    let press = WindowEvent::KeyboardInput { key: Key::Escape, pressed: true };
    let release = WindowEvent::KeyboardInput { key: Key::Escape, pressed: false };
    let responses = vec![app.window_event(press)];
    assert_eq!(responses.iter().filter(|r| **r == Response::Exit).count(), 1);
    let responses = vec![app.window_event(release)];
    assert_eq!(responses.iter().filter(|r| **r == Response::Exit).count(), 0);
    let other = WindowEvent::KeyboardInput { key: Key::Other, pressed: true };
    assert_eq!(app.window_event(other), Response::Ignore);
}

#[test]
fn escape_press_exits_without_controller() {
    let mut app = App::new(true);
    let press = WindowEvent::KeyboardInput { key: Key::Escape, pressed: true };
    assert_eq!(app.window_event(press), Response::Exit);
}

#[test]
fn close_request_exits_in_every_phase() {
    let mut fresh = App::new(false);
    assert_eq!(fresh.window_event(WindowEvent::CloseRequested), Response::Exit);
    let mut pending = App::new(true);
    assert_eq!(pending.resumed(), Response::SpawnController);
    assert_eq!(pending.phase, Phase::Pending);
    assert_eq!(pending.window_event(WindowEvent::CloseRequested), Response::Exit);
    let mut ready = ready_app();
    let before = ready;
    assert_eq!(ready.window_event(WindowEvent::CloseRequested), Response::Exit);
    assert_eq!(ready, before);
}

#[test]
fn events_before_controller_are_dropped() {
    let mut app = App::new(true);
    app.resumed();
    let before = app;
    assert_eq!(app.window_event(WindowEvent::Resized { width: 10, height: 10 }), Response::Ignore);
    assert_eq!(app.window_event(WindowEvent::RedrawRequested), Response::Ignore);
    assert_eq!(app.frame_outcome(FrameOutcome::Lost, 10, 10), Response::Ignore);
    assert_eq!(app, before);
    assert_eq!(app.state(), None);
}

#[test]
fn deferred_construction_spawns_once() {
    let mut app = App::new(true);
    assert_eq!(app.resumed(), Response::SpawnController);
    assert_eq!(app.resumed(), Response::Ignore);
    let r = app.user_event(State::new(0, 0, 8192), 640, 360);
    assert_eq!(r, Response::RedrawAndConfigure(SurfaceSize { width: 640, height: 360 }));
    let s = app.state().unwrap();
    assert!(s.is_surface_configured());
    assert_eq!(app.resumed(), Response::Ignore);
}

#[test]
fn deferred_delivery_with_zero_size_only_redraws() {
    let mut app = App::new(true);
    app.resumed();
    assert_eq!(app.user_event(State::new(0, 0, 8192), 0, 0), Response::RequestRedraw);
    assert!(!app.state().unwrap().is_surface_configured());
}

#[test]
fn lost_surface_resizes_to_current_window_size() {
    let mut app = ready_app();
    assert_eq!(app.window_event(WindowEvent::Resized { width: 800, height: 600 }),
        Response::Configure(SurfaceSize { width: 800, height: 600 }));
    assert_eq!(app.frame_outcome(FrameOutcome::Lost, 1024, 700),
        Response::Configure(SurfaceSize { width: 1024, height: 700 }));
    assert_eq!(app.state().unwrap().config(), SurfaceSize { width: 1024, height: 700 });
    assert_eq!(app.frame_outcome(FrameOutcome::Outdated, 300, 200),
        Response::Configure(SurfaceSize { width: 300, height: 200 }));
    assert_eq!(app.state().unwrap().config(), SurfaceSize { width: 300, height: 200 });
}

#[test]
fn other_frame_errors_are_reported() {
    let mut app = ready_app();
    let before = app;
    assert_eq!(app.frame_outcome(FrameOutcome::Failed, 10, 10), Response::ReportError);
    assert_eq!(app.frame_outcome(FrameOutcome::Presented, 10, 10), Response::Ignore);
    assert_eq!(app, before);
}

#[test]
fn redraw_draws_only_after_resize() {
    let mut app = ready_app();
    assert_eq!(app.window_event(WindowEvent::RedrawRequested), Response::RequestRedraw);
    app.window_event(WindowEvent::Resized { width: 0, height: 0 });
    assert_eq!(app.window_event(WindowEvent::RedrawRequested), Response::RequestRedraw);
    app.window_event(WindowEvent::Resized { width: 800, height: 600 });
    let frame = DrawCall { first_vertex: 0, vertex_count: 3, first_instance: 0, instance_count: 1 };
    assert_eq!(app.window_event(WindowEvent::RedrawRequested), Response::DrawFrame(frame));
    assert_eq!(app.window_event(WindowEvent::Other), Response::Ignore);
}
