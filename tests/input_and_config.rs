use jadis::config::{Config, LoggingConfig, WindowConfig};
use jadis::input::{Blackboard, InputEvent, InputHandler, RootEventHandler};
use jadis::shader::{ShaderSource, ShaderStage};

/// Passes every event on but resizes, which it counts.
struct ResizeCounter {
    resizes: u32,
}

impl InputHandler for ResizeCounter {
    fn handled(self, event: InputEvent) -> (Self, Option<InputEvent>) {
        match event {
            InputEvent::Resized { .. } => (ResizeCounter { resizes: self.resizes + 1 }, None),
            e => (self, Some(e)),
        }
    }

    fn handle_event(&mut self, event: InputEvent) -> Option<InputEvent> {
        match event {
            InputEvent::Resized { .. } => {
                self.resizes += 1;
                None
            }
            e => Some(e),
        }
    }
}

#[test]
fn blackboard_raises_flags() {
    let mut root = RootEventHandler::default();
    let mut board = Blackboard::default();
    root.handle_event(InputEvent::Resized { width: 10, height: 20 });
    root.handle_event(InputEvent::Keyboard { escape: false });
    root.sync(&mut board);
    assert!(board.should_rebuild_swapchain);
    assert!(!board.should_quit);
    assert!(root.events.is_empty());
    root.handle_event(InputEvent::Keyboard { escape: true });
    root.sync(&mut board);
    assert!(board.should_quit);
    board.reset();
    assert!(!board.should_quit && !board.should_rebuild_swapchain);
    root.handle_event(InputEvent::CloseRequested);
    root.handle_event(InputEvent::NotWindowEvent);
    root.sync(&mut board);
    assert!(board.should_quit);
    assert!(!board.should_rebuild_swapchain);
}

#[test]
fn sync_keeps_passed_events_in_order() {
    let mut root = RootEventHandler::default();
    root.handle_event(InputEvent::OtherWindowEvent);
    root.handle_event(InputEvent::Resized { width: 1, height: 1 });
    root.handle_event(InputEvent::CloseRequested);
    root.handle_event(InputEvent::Resized { width: 2, height: 2 });
    let mut counter = ResizeCounter { resizes: 0 };
    root.sync(&mut counter);
    assert_eq!(counter.resizes, 2);
    assert_eq!(root.events, vec![InputEvent::OtherWindowEvent, InputEvent::CloseRequested]);
    root.reset();
    assert!(root.events.is_empty());
}

#[test]
fn config_defaults() {
    assert_eq!(WindowConfig::default(), WindowConfig { width: 800, height: 600, decorations: true });
    let logging = LoggingConfig::default();
    assert_eq!(logging.log_file, None);
    assert!(logging.log_stdout);
    assert_eq!(logging.level_filter, log::LevelFilter::Debug);
    let config = Config::default();
    assert_eq!(config.window.width, 800);
    assert_eq!(config.window.height, 600);
    assert_eq!(config.logging.level_filter, log::LevelFilter::Debug);
}

#[test]
fn shader_stage_from_extension() {
    match ShaderSource::from_glsl_path("assets/mesh.vert") {
        Some(ShaderSource::GLSLFile(stage, path)) => {
            assert_eq!(stage, ShaderStage::Vertex);
            assert_eq!(path, "assets/mesh.vert");
        }
        other => panic!("unexpected {:?}", other),
    }
    assert!(matches!(ShaderSource::from_glsl_path("a.vs"), Some(ShaderSource::GLSLFile(ShaderStage::Vertex, _))));
    assert!(matches!(ShaderSource::from_glsl_path("assets/mesh.frag"), Some(ShaderSource::GLSLFile(ShaderStage::Fragment, _))));
    assert!(matches!(ShaderSource::from_glsl_path("b.fs"), Some(ShaderSource::GLSLFile(ShaderStage::Fragment, _))));
    assert!(matches!(ShaderSource::from_glsl_path("c.geom"), Some(ShaderSource::GLSLFile(ShaderStage::Geometry, _))));
    assert!(matches!(ShaderSource::from_glsl_path("d.gs"), Some(ShaderSource::GLSLFile(ShaderStage::Geometry, _))));
}

#[test]
fn shader_path_without_known_extension() {
    assert!(ShaderSource::from_glsl_path("mesh.txt").is_none());
    assert!(ShaderSource::from_glsl_path("vert").is_none());
    assert!(ShaderSource::from_glsl_path(".vert").is_none());
    assert!(ShaderSource::from_glsl_path("").is_none());
}
