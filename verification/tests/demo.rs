use triangle_demo::bootstrap::{BootOutcome, ContextRequest, CreatedContext, InitError};
use triangle_demo::bootstrap::{context_request, window_title};
use triangle_demo::events::{Key, KeyAction, WindowEvent, handle_event, handle_events};
use triangle_demo::render::{ClearValue, Frame, RenderCommand, Window, clear_value};
use triangle_demo::shader::{
    Dialect, Program, fragment_source, link_program, select_dialect, vertex_source,
};
use triangle_demo::vertex::{Vertex, triangle_vertices};

fn live_boot(fb_width: u16, fb_height: u16, glsl_version: u32) -> BootOutcome {
    BootOutcome::Created(CreatedContext { fb_width, fb_height, glsl_version })
}

#[test]
fn triangle_has_three_fixed_vertices() {
    let v = triangle_vertices();
    assert_eq!(v.len(), 3);
    assert_eq!(v[0], Vertex { x: -5, y: -5, r: 10, g: 0, b: 0 });
    assert_eq!(v[1], Vertex { x: 5, y: -5, r: 0, g: 10, b: 0 });
    assert_eq!(v[2], Vertex { x: 0, y: 5, r: 0, g: 0, b: 10 });
}

#[test]
fn triangle_tenths_decode_to_expected_floats() {
    let v = triangle_vertices();
    let pos: Vec<[f32; 2]> = v.iter().map(|p| [p.x as f32 / 10.0, p.y as f32 / 10.0]).collect();
    assert_eq!(pos, vec![[-0.5, -0.5], [0.5, -0.5], [0.0, 0.5]]);
    let col: Vec<[f32; 3]> = v
        .iter()
        .map(|p| [p.r as f32 / 10.0, p.g as f32 / 10.0, p.b as f32 / 10.0])
        .collect();
    assert_eq!(col, vec![[1.0, 0.0, 0.0], [0.0, 1.0, 0.0], [0.0, 0.0, 1.0]]);
}

#[test]
fn dialect_matches_context_version() {
    assert_eq!(select_dialect(150), Some(Dialect::Glsl150));
    assert_eq!(select_dialect(330), Some(Dialect::Glsl150));
    assert_eq!(select_dialect(149), Some(Dialect::Glsl120));
    assert_eq!(select_dialect(120), Some(Dialect::Glsl120));
    assert_eq!(select_dialect(119), None);
    assert_eq!(select_dialect(0), None);
}

#[test]
fn linked_program_carries_selected_dialect() {
    assert_eq!(link_program(450), Some(Program { dialect: Dialect::Glsl150 }));
    assert_eq!(link_program(130), Some(Program { dialect: Dialect::Glsl120 }));
    assert_eq!(link_program(110), None);
}

#[test]
fn sources_differ_by_dialect_and_carry_version_pragmas() {
    let v120 = vertex_source(Dialect::Glsl120);
    let v150 = vertex_source(Dialect::Glsl150);
    let f120 = fragment_source(Dialect::Glsl120);
    let f150 = fragment_source(Dialect::Glsl150);
    assert_ne!(v120, v150);
    assert_ne!(f120, f150);
    assert!(v120.contains("#version 120"));
    assert!(v150.contains("#version 150 core"));
    assert!(f120.contains("#version 120"));
    assert!(f150.contains("#version 150 core"));
    assert!(v120.contains("attribute vec2 a_Pos"));
    assert!(v150.contains("in vec2 a_Pos"));
    assert!(f120.contains("gl_FragColor"));
    assert!(f150.contains("o_Color"));
}

#[test]
fn escape_press_sets_close_flag() {
    let press = WindowEvent::KeyInput(Key::Escape, KeyAction::Press);
    assert!(handle_event(&press, false));
    assert!(handle_event(&press, true));
}

#[test]
fn escape_release_or_repeat_does_not_close() {
    let release = WindowEvent::KeyInput(Key::Escape, KeyAction::Release);
    let repeat = WindowEvent::KeyInput(Key::Escape, KeyAction::Repeat);
    assert!(!handle_event(&release, false));
    assert!(!handle_event(&repeat, false));
}

#[test]
fn other_keys_do_not_close() {
    assert!(!handle_event(&WindowEvent::KeyInput(Key::Other, KeyAction::Press), false));
    assert!(!handle_event(&WindowEvent::KeyInput(Key::Other, KeyAction::Release), false));
    assert!(!handle_event(&WindowEvent::Other, false));
}

#[test]
fn close_request_sets_close_flag() {
    assert!(handle_event(&WindowEvent::CloseRequested, false));
}

#[test]
fn close_flag_stays_set_over_a_drained_queue() {
    let events = vec![
        WindowEvent::Other,
        WindowEvent::KeyInput(Key::Other, KeyAction::Press),
        WindowEvent::KeyInput(Key::Escape, KeyAction::Release),
    ];
    assert!(!handle_events(&events, false));
    assert!(handle_events(&events, true));
    let with_escape = vec![
        WindowEvent::Other,
        WindowEvent::KeyInput(Key::Escape, KeyAction::Press),
        WindowEvent::Other,
    ];
    assert!(handle_events(&with_escape, false));
}

#[test]
fn window_creation_failure_terminates_with_diagnostic() {
    let res = Window::new(640, 480, BootOutcome::CreateFailed);
    match res {
        Ok(_) => panic!("no window object may come out of a failed creation"),
        Err(e) => {
            assert_eq!(e, InitError::WindowCreation);
            assert!(!e.message().is_empty());
            assert_eq!(e.message(), "Failed to create GLFW window.");
        }
    }
}

#[test]
fn windowing_system_failure_terminates_with_diagnostic() {
    let res = Window::new(640, 480, BootOutcome::InitFailed);
    match res {
        Ok(_) => panic!("no window object may come out of a failed initialization"),
        Err(e) => {
            assert_eq!(e, InitError::WindowSystemInit);
            assert!(!e.message().is_empty());
        }
    }
}

#[test]
fn link_failure_on_too_old_context_is_fatal() {
    let res = Window::new(640, 480, live_boot(640, 480, 110));
    match res {
        Ok(_) => panic!("linking must fail when no dialect fits the context"),
        Err(e) => {
            assert_eq!(e, InitError::ShaderLink);
            assert!(!e.message().is_empty());
        }
    }
}

#[test]
fn render_target_takes_framebuffer_size_not_requested_size() {
    // Under display scaling the framebuffer is larger than the logical size.
    let w = Window::new(1024, 768, live_boot(2048, 1536, 150)).unwrap();
    assert_eq!(w.width, 1024);
    assert_eq!(w.height, 768);
    assert_eq!(w.renderer.frame, Frame { width: 2048, height: 1536 });
}

#[test]
fn clear_descriptor_is_the_one_constant() {
    let c = clear_value();
    assert_eq!(c, ClearValue { r: 3, g: 3, b: 3, a: 10, depth: 10, stencil: 0 });
    assert_eq!(c.r as f32 / 10.0, 0.3);
    assert_eq!(c.a as f32 / 10.0, 1.0);
    assert_eq!(c.depth as f32 / 10.0, 1.0);
}

#[test]
fn bootstrap_requests_core_profile_3_2() {
    let c = context_request();
    assert_eq!(
        c,
        ContextRequest { major: 3, minor: 2, forward_compat: true, core_profile: true }
    );
}

#[test]
fn window_title_is_fixed() {
    assert_eq!(window_title(), "no title");
}

#[test]
fn frame_cycle_mutates_nothing_and_emits_fixed_commands() {
    let mut w = Window::new(800, 600, live_boot(800, 600, 150)).unwrap();
    let mesh_before = w.renderer.mesh.clone();
    let program_before = w.renderer.program;
    let frame_before = w.renderer.frame;
    let clear_before = w.renderer.clear;
    let expected = vec![
        RenderCommand::Clear(clear_before, frame_before),
        RenderCommand::DrawBatch(frame_before),
        RenderCommand::EndFrame,
        RenderCommand::SwapBuffers,
    ];
    for _ in 0..100 {
        let cmds = w.frame_step(&Vec::new());
        assert_eq!(cmds, expected);
        assert!(!w.should_close);
    }
    assert_eq!(w.renderer.mesh, mesh_before);
    assert_eq!(w.renderer.program, program_before);
    assert_eq!(w.renderer.frame, frame_before);
    assert_eq!(w.renderer.clear, clear_before);
}

#[test]
fn escape_during_a_cycle_closes_and_still_draws_that_frame() {
    let mut w = Window::new(800, 600, live_boot(800, 600, 150)).unwrap();
    let events = vec![WindowEvent::KeyInput(Key::Escape, KeyAction::Press)];
    let cmds = w.frame_step(&events);
    // The iteration that sees Escape still plays the full cycle; the loop
    // exits at the next top-of-loop check.
    assert_eq!(cmds.len(), 4);
    assert!(w.should_close);
    // The flag stays set on later cycles.
    let cmds2 = w.frame_step(&Vec::new());
    assert_eq!(cmds2.len(), 4);
    assert!(w.should_close);
}
