use cube_world::app::{frame_action, App, AppAction, FrameAction, SurfaceStatus, WindowEvent};
use cube_world::direction::Direction;
use cube_world::keys::{Key, KeyEvent, NamedKey};
use cube_world::world::{
    debug_print_due, debug_roll, DebugReadPlan, RenderPlan, WorldRenderer, DEBUG_BUFFER_BYTES,
};

fn key(n: NamedKey, pressed: bool) -> WindowEvent {
    WindowEvent::KeyboardInput(KeyEvent { logical_key: Key::Named(n), pressed })
}

#[test]
fn window_events() {
    let mut app = App::new(800, 600);
    assert_eq!(app.window_event(&WindowEvent::CloseRequested), AppAction::Exit);
    assert_eq!(app.window_event(&WindowEvent::RedrawRequested), AppAction::Redraw);
    assert_eq!(app.window_event(&WindowEvent::Other), AppAction::Continue);
    assert_eq!(app.window_event(&WindowEvent::Resized { width: 1024, height: 768 }), AppAction::Reconfigure);
    assert_eq!((app.width, app.height), (1024, 768));
    assert_eq!(app.window_event(&key(NamedKey::ArrowRight, true)), AppAction::Continue);
    assert_eq!(app.world.cube.translation.x_direction, Direction::Inc);
    assert_eq!(app.window_event(&key(NamedKey::Escape, true)), AppAction::Exit);
    assert_eq!(app.window_event(&key(NamedKey::Escape, false)), AppAction::Exit);
    assert_eq!(app.world.cube.translation.x_speed, 100);
}

#[test]
fn frame_actions() {
    assert_eq!(frame_action(SurfaceStatus::Success), FrameAction::Draw);
    assert_eq!(frame_action(SurfaceStatus::Suboptimal), FrameAction::DrawSuboptimal);
    assert_eq!(frame_action(SurfaceStatus::Occluded), FrameAction::Skip);
}

#[test]
fn world_plans() {
    let mut w = WorldRenderer::new();
    assert_eq!(
        w.render(true),
        RenderPlan { animate: true, first_index: 0, end_index: 24, base_vertex: 0, first_instance: 0, end_instance: 1 }
    );
    assert!(!w.render(false).animate);
    w.handle_input(&KeyEvent { logical_key: Key::character("w"), pressed: true });
    assert_eq!(w.cube.scale.y_direction, Direction::Inc);
    assert_eq!(
        w.read_debug_buffer(),
        DebugReadPlan { map_start: 0, map_end: 4096, read_start: 0, read_end: 128 }
    );
    assert_eq!(DEBUG_BUFFER_BYTES, 1024 * 4);
}

#[test]
fn debug_printing_odds() {
    assert!(debug_print_due(0));
    assert!(debug_print_due(11));
    assert!(!debug_print_due(12));
    assert!(!debug_print_due(255));
    for _ in 0..100 {
        let r = debug_roll();
        assert_eq!(r.print, r.value < 12);
    }
}
