//! The lifecycle: provisioning decisions, the event-loop driver's state
//! machine, the embedding adapter, and the dual-thread integration.

use glquad::driver::{
    framebuffer_size, provision, Action, AttemptOutcome, ContextApi, Display, Driver, Env, Event,
    Key, ProvisionReport, State, Window,
};
use glquad::error::{ProvisionError, SetupError};
use glquad::gl_area::{DualPipeline, GliumGLArea, Propagation};

fn crc32(data: &[u8]) -> u32 {
    let mut crc: u32 = 0xFFFF_FFFF;
    for &b in data {
        crc ^= b as u32;
        for _ in 0..8 {
            if crc & 1 != 0 {
                crc = (crc >> 1) ^ 0xEDB8_8320;
            } else {
                crc >>= 1;
            }
        }
    }
    !crc
}

fn push_chunk(out: &mut Vec<u8>, kind: &[u8; 4], data: &[u8]) {
    out.extend_from_slice(&(data.len() as u32).to_be_bytes());
    out.extend_from_slice(kind);
    out.extend_from_slice(data);
    let mut crc_input = kind.to_vec();
    crc_input.extend_from_slice(data);
    out.extend_from_slice(&crc32(&crc_input).to_be_bytes());
}

/// A valid 1x1 RGBA PNG with one opaque white pixel.
fn tiny_png() -> Vec<u8> {
    let mut png = vec![0x89u8, 0x50, 0x4E, 0x47, 0x0D, 0x0A, 0x1A, 0x0A];
    let mut ihdr = Vec::new();
    ihdr.extend_from_slice(&1u32.to_be_bytes());
    ihdr.extend_from_slice(&1u32.to_be_bytes());
    ihdr.extend_from_slice(&[8, 6, 0, 0, 0]);
    push_chunk(&mut png, b"IHDR", &ihdr);
    let raw = [0u8, 255, 255, 255, 255]; // filter byte, then one white pixel
    let mut a: u32 = 1;
    let mut b: u32 = 0;
    for &x in &raw {
        a = (a + x as u32) % 65521;
        b = (b + a) % 65521;
    }
    let mut idat = vec![0x78u8, 0x01, 0x01];
    idat.extend_from_slice(&(raw.len() as u16).to_le_bytes());
    idat.extend_from_slice(&(!(raw.len() as u16)).to_le_bytes());
    idat.extend_from_slice(&raw);
    idat.extend_from_slice(&((b << 16) | a).to_be_bytes());
    push_chunk(&mut png, b"IDAT", &idat);
    push_chunk(&mut png, b"IEND", &[]);
    png
}

fn ok_report() -> ProvisionReport {
    ProvisionReport {
        loader_ok: true,
        config_found: true,
        preferred_context: AttemptOutcome::Succeeded,
        fallback_context: AttemptOutcome::Failed,
        surface_created: AttemptOutcome::Succeeded,
    }
}

fn good_env() -> Env {
    Env {
        report: ok_report(),
        visible: true,
        window_width: 640,
        window_height: 480,
        png: tiny_png(),
    }
}

#[test]
fn provision_uses_preferred_api_when_it_succeeds() {
    let d = provision(ok_report(), 640, 480).expect("provisioning succeeds");
    assert_eq!(d.api, ContextApi::Preferred);
    assert_eq!((d.width, d.height), (640, 480));
}

#[test]
fn provision_falls_back_to_reduced_api_once() {
    let report = ProvisionReport {
        preferred_context: AttemptOutcome::Failed,
        fallback_context: AttemptOutcome::Succeeded,
        ..ok_report()
    };
    let d = provision(report, 640, 480).expect("the fallback succeeds");
    assert_eq!(d.api, ContextApi::ReducedCapability);
}

#[test]
fn provision_fails_fast_on_dead_loader() {
    // A loader that resolved no symbols fails before anything else runs.
    let report = ProvisionReport {
        loader_ok: false,
        config_found: false,
        preferred_context: AttemptOutcome::Failed,
        fallback_context: AttemptOutcome::Failed,
        surface_created: AttemptOutcome::Failed,
    };
    assert_eq!(provision(report, 10, 10), Err(ProvisionError::LoaderFailed));
}

#[test]
fn provision_reports_each_failure() {
    let no_config = ProvisionReport { config_found: false, ..ok_report() };
    assert_eq!(provision(no_config, 1, 1), Err(ProvisionError::NoConfiguration));
    let no_context = ProvisionReport {
        preferred_context: AttemptOutcome::Failed,
        fallback_context: AttemptOutcome::Failed,
        ..ok_report()
    };
    assert_eq!(provision(no_context, 1, 1), Err(ProvisionError::ContextCreationFailed));
    let no_surface = ProvisionReport { surface_created: AttemptOutcome::Failed, ..ok_report() };
    assert_eq!(provision(no_surface, 1, 1), Err(ProvisionError::SurfaceCreationFailed));
}

#[test]
fn framebuffer_size_defaults_only_when_invisible() {
    assert_eq!(framebuffer_size(true, 1024, 768), (1024, 768));
    assert_eq!(framebuffer_size(false, 1024, 768), (800, 600));
}

#[test]
fn state_new_builds_a_full_session() {
    let s = State::new(ok_report(), true, 640, 480, &tiny_png()).expect("setup succeeds");
    assert_eq!((s.display.width, s.display.height), (640, 480));
    assert_eq!(s.display.api, ContextApi::Preferred);
    assert!(s.window.visible);
    assert_eq!(s.context.draw_texture.opengl_texture.width, 1);
    assert_eq!(s.context.draw_texture.index_buffer, vec![1u16, 2, 0, 3]);
}

#[test]
fn invisible_window_gets_the_default_framebuffer() {
    let s = State::new(ok_report(), false, 0, 0, &tiny_png()).expect("setup succeeds");
    assert_eq!((s.display.width, s.display.height), (800, 600));
    assert!(!s.window.visible);
}

#[test]
fn from_display_window_assembles_the_session() {
    let display = Display { api: ContextApi::ReducedCapability, width: 32, height: 16 };
    let window = Window { visible: true };
    let s = State::from_display_window(display, window, &tiny_png()).expect("assembly succeeds");
    assert_eq!(s.display, display);
    assert_eq!(s.window, window);
    assert_eq!(s.context.draw_texture.opengl_texture.pixels, vec![255u8, 255, 255, 255]);
    assert!(matches!(
        State::from_display_window(display, window, &[9u8]),
        Err(SetupError::TextureDecode)
    ));
}

#[test]
fn state_new_propagates_the_loader_error() {
    let report = ProvisionReport { loader_ok: false, ..ok_report() };
    assert!(matches!(
        State::new(report, true, 640, 480, &tiny_png()),
        Err(SetupError::Provision(ProvisionError::LoaderFailed))
    ));
}

#[test]
fn state_new_fails_on_bad_texture_bytes() {
    assert!(matches!(
        State::new(ok_report(), true, 640, 480, &[0u8, 1, 2]),
        Err(SetupError::TextureDecode)
    ));
}

#[test]
fn resize_then_redraw_keeps_resources_and_takes_the_new_size() {
    let env = good_env();
    let mut driver = Driver::new();
    assert_eq!(driver.handle_event(Event::Resumed, &env), Ok(Action::Idle));
    let before = driver.state.as_ref().unwrap().context.draw_texture.opengl_texture.pixels.clone();
    assert_eq!(
        driver.handle_event(Event::Resized(300, 200), &env),
        Ok(Action::ResizeSurface(300, 200))
    );
    match driver.handle_event(Event::RedrawRequested, &env) {
        Ok(Action::Present(frame)) => {
            assert_eq!((frame.width, frame.height), (300, 200));
            assert_eq!(frame.texture.pixels, before);
            assert_eq!(frame.indices, vec![1u16, 2, 0, 3]);
        },
        other => panic!("expected a presented frame, got {:?}", other),
    }
    let after = &driver.state.as_ref().unwrap().context.draw_texture;
    assert_eq!(after.opengl_texture.pixels, before);
}

#[test]
fn suspend_resume_reproduces_the_first_frame() {
    let env = good_env();
    let mut driver = Driver::new();
    driver.handle_event(Event::Resumed, &env).unwrap();
    let first = match driver.handle_event(Event::RedrawRequested, &env) {
        Ok(Action::Present(f)) => f,
        other => panic!("expected a frame, got {:?}", other),
    };
    assert_eq!(driver.handle_event(Event::Suspended, &env), Ok(Action::Idle));
    assert!(driver.state.is_none());
    assert_eq!(driver.handle_event(Event::AboutToWait, &env), Ok(Action::Idle));
    driver.handle_event(Event::Resumed, &env).unwrap();
    let rebuilt = match driver.handle_event(Event::RedrawRequested, &env) {
        Ok(Action::Present(f)) => f,
        other => panic!("expected a frame, got {:?}", other),
    };
    assert_eq!(first, rebuilt);
}

#[test]
fn idle_policy_requests_redraws_only_while_live() {
    let env = good_env();
    let mut driver = Driver::new();
    assert_eq!(driver.handle_event(Event::AboutToWait, &env), Ok(Action::Idle));
    driver.handle_event(Event::Resumed, &env).unwrap();
    assert_eq!(driver.handle_event(Event::AboutToWait, &env), Ok(Action::RequestRedraw));
}

#[test]
fn events_without_session_are_ignored() {
    let env = good_env();
    let mut driver = Driver::new();
    assert_eq!(driver.handle_event(Event::Resized(5, 5), &env), Ok(Action::Idle));
    assert_eq!(driver.handle_event(Event::RedrawRequested, &env), Ok(Action::Idle));
    assert_eq!(driver.handle_event(Event::Other, &env), Ok(Action::Idle));
    assert!(driver.state.is_none());
    assert!(!driver.exited);
}

#[test]
fn close_terminates_exactly_once() {
    let env = good_env();
    let mut driver = Driver::new();
    driver.handle_event(Event::Resumed, &env).unwrap();
    assert_eq!(driver.handle_event(Event::CloseRequested, &env), Ok(Action::Exit));
    assert!(driver.exited);
    // Nothing is dispatched after termination: no redraw, no resize, and no
    // second exit.
    assert_eq!(driver.handle_event(Event::RedrawRequested, &env), Ok(Action::Idle));
    assert_eq!(driver.handle_event(Event::Resized(10, 10), &env), Ok(Action::Idle));
    assert_eq!(driver.handle_event(Event::CloseRequested, &env), Ok(Action::Idle));
}

#[test]
fn cancel_key_terminates_with_or_without_session() {
    let env = good_env();
    let escape = Event::KeyboardInput { pressed: true, key: Key::Escape };

    let mut live = Driver::new();
    live.handle_event(Event::Resumed, &env).unwrap();
    assert_eq!(live.handle_event(escape, &env), Ok(Action::Exit));

    let mut absent = Driver::new();
    assert_eq!(absent.handle_event(escape, &env), Ok(Action::Exit));

    // Releases and other keys do not terminate.
    let mut other = Driver::new();
    let released = Event::KeyboardInput { pressed: false, key: Key::Escape };
    assert_eq!(other.handle_event(released, &env), Ok(Action::Idle));
    let wrong_key = Event::KeyboardInput { pressed: true, key: Key::Other };
    assert_eq!(other.handle_event(wrong_key, &env), Ok(Action::Idle));
    assert!(!other.exited);
}

#[test]
fn resume_under_dead_loader_fails_fast() {
    let env = Env { report: ProvisionReport { loader_ok: false, ..ok_report() }, ..good_env() };
    let mut driver = Driver::new();
    assert_eq!(
        driver.handle_event(Event::Resumed, &env),
        Err(SetupError::Provision(ProvisionError::LoaderFailed))
    );
    assert!(driver.state.is_none());
}

#[test]
fn gl_area_aborts_silently_on_widget_error() {
    let mut area = GliumGLArea::default();
    assert_eq!(area.realize(true, AttemptOutcome::Succeeded, &tiny_png()), Ok(()));
    assert!(area.renderer.is_none());
}

#[test]
fn gl_area_realize_render_unrealize() {
    let mut area = GliumGLArea::default();
    area.realize(false, AttemptOutcome::Succeeded, &tiny_png()).expect("realize succeeds");
    assert!(area.renderer.is_some());
    // The framebuffer size is queried afresh for every frame.
    let (frame_a, stop_a) = area.render(200, 100);
    assert_eq!((frame_a.width, frame_a.height), (200, 100));
    assert_eq!(stop_a, Propagation::Stop);
    let (frame_b, _) = area.render(64, 64);
    assert_eq!((frame_b.width, frame_b.height), (64, 64));
    assert_eq!(frame_a.texture, frame_b.texture);
    area.unrealize();
    assert!(area.renderer.is_none());
}

#[test]
fn gl_area_realize_fails_on_context_or_texture() {
    let mut area = GliumGLArea::default();
    assert_eq!(
        area.realize(false, AttemptOutcome::Failed, &tiny_png()),
        Err(SetupError::Provision(ProvisionError::ContextCreationFailed))
    );
    assert!(area.renderer.is_none());
    assert_eq!(
        area.realize(false, AttemptOutcome::Succeeded, &[1u8, 2, 3]),
        Err(SetupError::TextureDecode)
    );
    assert!(area.renderer.is_none());
}

#[test]
fn worker_session_rebuild_never_touches_the_host() {
    let env = good_env();
    let mut dual = DualPipeline { worker: Driver::new(), host: GliumGLArea::default() };
    dual.host_realize(false, AttemptOutcome::Succeeded, &tiny_png()).unwrap();
    let host_pixels = dual.host.renderer.as_ref().unwrap().opengl_texture.pixels.clone();
    dual.worker_event(Event::Resumed, &env).unwrap();
    dual.worker_event(Event::Suspended, &env).unwrap();
    dual.worker_event(Event::Resumed, &env).unwrap();
    assert_eq!(dual.host.renderer.as_ref().unwrap().opengl_texture.pixels, host_pixels);

    // And the host's teardown leaves the worker session live.
    assert!(dual.worker.state.is_some());
    dual.host_unrealize();
    assert!(dual.host.renderer.is_none());
    assert!(dual.worker.state.is_some());
    assert!(!dual.worker.exited);
}

#[test]
fn setup_errors_describe_themselves() {
    for e in [
        SetupError::Provision(ProvisionError::LoaderFailed),
        SetupError::Provision(ProvisionError::NoConfiguration),
        SetupError::Provision(ProvisionError::ContextCreationFailed),
        SetupError::Provision(ProvisionError::SurfaceCreationFailed),
        SetupError::TextureDecode,
    ] {
        assert!(!e.describe().is_empty());
    }
}
