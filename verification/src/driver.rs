//! The window/event-loop driver: one process-wide event loop, at most one
//! live session, and the transitions between them.
//!
//! The driver is a state machine over `NoSession`/`Live` (here: whether
//! `Driver::state` holds a `State`). Platform outcomes that only the window
//! system can produce (whether the loader resolved symbols, whether a
//! context or surface attempt succeeded, the window's inner size) enter as
//! plain values; every decision taken on them is made, and verified, here.
//! The unverified binding performs the returned `Action` against the real
//! window system.

use crate::error::{ProvisionError, SetupError};
use crate::gl::{
    draw_texture_of, presented_of, DrawTexture, DrawTextureView, Frame, PresentedFrame,
    PresentedFrameView,
};
use vstd::prelude::*;

verus! {

/// Which GL API a context was created against: the platform's preferred
/// API/version, or the reduced-capability variant tried when the preferred
/// one fails.
#[derive(Clone, Copy, Debug, PartialEq, Eq, Structural)]
pub enum ContextApi {
    Preferred,
    ReducedCapability,
}

/// The outcome the platform reported for one creation attempt.
#[derive(Clone, Copy, Debug, PartialEq, Eq, Structural)]
pub enum AttemptOutcome {
    Succeeded,
    Failed,
}

/// What the platform reported while a session was provisioned. Each field
/// is the outcome of one step the window system performs; the decisions
/// taken on them live in `provision`.
#[derive(Clone, Copy, Debug, PartialEq, Eq, Structural)]
pub struct ProvisionReport {
    /// Whether the process-wide GL function loader resolved its symbols.
    pub loader_ok: bool,
    /// Whether enumerating GL configurations yielded a compatible one; the
    /// first one found is used, no further preference ordering applies.
    pub config_found: bool,
    /// Outcome of creating a context with the preferred API.
    pub preferred_context: AttemptOutcome,
    /// Outcome of the reduced-capability retry, consulted only when the
    /// preferred attempt failed.
    pub fallback_context: AttemptOutcome,
    /// Outcome of creating the window surface, consulted only when a
    /// context was obtained.
    pub surface_created: AttemptOutcome,
}

/// A current context/surface pair: the API the context was created against
/// and the surface's size in pixels. Resizing mutates the size in place and
/// nothing else.
#[derive(Clone, Copy, Debug, PartialEq, Eq, Structural)]
pub struct Display {
    pub api: ContextApi,
    pub width: u32,
    pub height: u32,
}

/// The provisioning decision: which error a report yields, or which context
/// ends up current. Fail-fast order: loader, configuration, context (with
/// one fallback retry), surface.
pub open spec fn provision_spec(report: ProvisionReport, width: u32, height: u32) -> Result<
    Display,
    ProvisionError,
> {
    if !report.loader_ok {
        Err(ProvisionError::LoaderFailed)
    } else if !report.config_found {
        Err(ProvisionError::NoConfiguration)
    } else if report.preferred_context == AttemptOutcome::Succeeded {
        if report.surface_created == AttemptOutcome::Succeeded {
            Ok(Display { api: ContextApi::Preferred, width, height })
        } else {
            Err(ProvisionError::SurfaceCreationFailed)
        }
    } else if report.fallback_context == AttemptOutcome::Succeeded {
        if report.surface_created == AttemptOutcome::Succeeded {
            Ok(Display { api: ContextApi::ReducedCapability, width, height })
        } else {
            Err(ProvisionError::SurfaceCreationFailed)
        }
    } else {
        Err(ProvisionError::ContextCreationFailed)
    }
}

/// Turns a window handle's reported outcomes and a requested size into a
/// current context/surface pair, or fails explicitly; no partial result is
/// ever produced. A loader that resolved nothing fails before anything else
/// is consulted.
pub fn provision(report: ProvisionReport, width: u32, height: u32) -> (r: Result<
    Display,
    ProvisionError,
>)
    requires
        width > 0,
        height > 0,
    ensures
        r == provision_spec(report, width, height),
{
    if !report.loader_ok {
        Err(ProvisionError::LoaderFailed)
    } else if !report.config_found {
        Err(ProvisionError::NoConfiguration)
    } else if matches!(report.preferred_context, AttemptOutcome::Succeeded) {
        if matches!(report.surface_created, AttemptOutcome::Succeeded) {
            Ok(Display { api: ContextApi::Preferred, width, height })
        } else {
            Err(ProvisionError::SurfaceCreationFailed)
        }
    } else if matches!(report.fallback_context, AttemptOutcome::Succeeded) {
        if matches!(report.surface_created, AttemptOutcome::Succeeded) {
            Ok(Display { api: ContextApi::ReducedCapability, width, height })
        } else {
            Err(ProvisionError::SurfaceCreationFailed)
        }
    } else {
        Err(ProvisionError::ContextCreationFailed)
    }
}

/// The framebuffer size a session is provisioned at: the window's inner
/// size when the window is visible, a fixed 800x600 otherwise.
pub open spec fn framebuffer_size_spec(visible: bool, window_width: u32, window_height: u32) -> (
    u32,
    u32,
) {
    if visible {
        (window_width, window_height)
    } else {
        (800u32, 600u32)
    }
}

/// Picks the framebuffer size for a fresh session.
pub fn framebuffer_size(visible: bool, window_width: u32, window_height: u32) -> (r: (u32, u32))
    ensures
        r == framebuffer_size_spec(visible, window_width, window_height),
{
    if visible {
        (window_width, window_height)
    } else {
        (800, 600)
    }
}

/// The application layer over the resource set: owns it, exposes the
/// update/draw/event hooks of the renderer interface.
#[derive(Debug, PartialEq, Eq)]
pub struct Application {
    /// The GPU resource set of the one live session.
    pub draw_texture: DrawTexture,
}

/// The mathematical content of an `Application`.
pub struct ApplicationView {
    pub draw_texture: DrawTextureView,
}

impl View for Application {
    type V = ApplicationView;

    open spec fn view(&self) -> ApplicationView {
        ApplicationView { draw_texture: self.draw_texture@ }
    }
}

/// The application the given PNG bytes construct, or `None` when they do
/// not decode.
pub open spec fn application_of(bytes: Seq<u8>) -> Option<ApplicationView> {
    match draw_texture_of(bytes) {
        Some(dt) => Some(ApplicationView { draw_texture: dt }),
        None => None,
    }
}

impl Application {
    /// Well-formed: the resource set is the fixed one.
    pub open spec fn wf(self) -> bool {
        self.draw_texture.wf()
    }

    /// Builds the application's resource set against a fresh, current
    /// context. Succeeds exactly when the texture bytes decode.
    pub fn new(bytes: &[u8]) -> (r: Result<Application, SetupError>)
        ensures
            r is Ok <==> application_of(bytes@) is Some,
            r matches Ok(a) ==> application_of(bytes@) == Some(a@) && a.wf(),
            r is Err ==> r == Err::<Application, SetupError>(SetupError::TextureDecode),
    {
        match DrawTexture::new(bytes) {
            Ok(draw_texture) => Ok(Application { draw_texture }),
            Err(e) => Err(e),
        }
    }

    /// The update hook invoked before each draw: an extension point for
    /// host-driven state; the default does nothing.
    pub fn update(&mut self)
        ensures
            *final(self) == *old(self),
    {
    }

    /// Draws one frame into a target sized to the given display.
    pub fn draw_frame(&mut self, display: &Display) -> (out: PresentedFrame)
        ensures
            *final(self) == *old(self),
            out@ == presented_of(
                old(self)@.draw_texture,
                Frame { width: display.width, height: display.height },
            ),
    {
        let frame = Frame { width: display.width, height: display.height };
        self.draw_texture.draw(frame)
    }

    /// The extension hook receiving every window event the driver does not
    /// consume, unchanged; the default does nothing.
    pub fn handle_window_event(&mut self, event: &Event)
        ensures
            *final(self) == *old(self),
    {
        let _ = event;
    }
}

/// The native window a session renders into.
#[derive(Clone, Copy, Debug, PartialEq, Eq, Structural)]
pub struct Window {
    /// Whether the window is shown; an invisible window renders at the
    /// fixed default size.
    pub visible: bool,
}

/// The one live session: context/surface pair, native window, and the
/// application with its GPU resources. Rebuilt wholesale on suspend/resume;
/// a resize mutates only the display's size.
#[derive(Debug, PartialEq, Eq)]
pub struct State {
    pub display: Display,
    pub window: Window,
    pub context: Application,
}

/// The mathematical content of a `State`.
pub struct StateView {
    pub display: Display,
    pub window: Window,
    pub context: ApplicationView,
}

impl View for State {
    type V = StateView;

    open spec fn view(&self) -> StateView {
        StateView { display: self.display, window: self.window, context: self.context@ }
    }
}

/// The session that fresh inputs construct: the provisioning decision on
/// the report and the chosen framebuffer size, then the resource set from
/// the texture bytes. A function of the inputs alone.
pub open spec fn state_of(
    report: ProvisionReport,
    visible: bool,
    window_width: u32,
    window_height: u32,
    bytes: Seq<u8>,
) -> Result<StateView, SetupError> {
    let size = framebuffer_size_spec(visible, window_width, window_height);
    match provision_spec(report, size.0, size.1) {
        Ok(display) => match application_of(bytes) {
            Some(context) => Ok(StateView { display, window: Window { visible }, context }),
            None => Err(SetupError::TextureDecode),
        },
        Err(e) => Err(SetupError::Provision(e)),
    }
}

/// `Ok` sessions by their content, errors unchanged.
pub open spec fn state_result_view(r: Result<State, SetupError>) -> Result<StateView, SetupError> {
    match r {
        Ok(s) => Ok(s@),
        Err(e) => Err(e),
    }
}

impl State {
    /// Well-formed: the application's resource set is the fixed one.
    pub open spec fn wf(self) -> bool {
        self.context.wf()
    }

    /// Provisions a window-backed session from the platform's reported
    /// outcomes: picks the framebuffer size, decides the provisioning
    /// result, and builds the GPU resources. Fails explicitly on the first
    /// failed step; no partial session is left.
    pub fn new(
        report: ProvisionReport,
        visible: bool,
        window_width: u32,
        window_height: u32,
        bytes: &[u8],
    ) -> (r: Result<State, SetupError>)
        requires
            visible ==> window_width > 0 && window_height > 0,
        ensures
            state_result_view(r) == state_of(report, visible, window_width, window_height, bytes@),
            r matches Ok(s) ==> s.wf(),
    {
        let (width, height) = framebuffer_size(visible, window_width, window_height);
        let display = match provision(report, width, height) {
            Ok(d) => d,
            Err(e) => { return Err(SetupError::Provision(e)) },
        };
        Self::from_display_window(display, Window { visible }, bytes)
    }

    /// Assembles a session from an already-current display and its window,
    /// building the application against it.
    pub fn from_display_window(display: Display, window: Window, bytes: &[u8]) -> (r: Result<
        State,
        SetupError,
    >)
        ensures
            r is Ok <==> application_of(bytes@) is Some,
            r matches Ok(s) ==> application_of(bytes@) == Some(s@.context) && s@.display == display
                && s@.window == window && s.wf(),
            r is Err ==> r == Err::<State, SetupError>(SetupError::TextureDecode),
    {
        match Application::new(bytes) {
            Ok(context) => Ok(State { display, window, context }),
            Err(_) => Err(SetupError::TextureDecode),
        }
    }
}

/// A named key, as far as this design must tell them apart: the designated
/// cancel key, or anything else.
#[derive(Clone, Copy, Debug, PartialEq, Eq, Structural)]
pub enum Key {
    Escape,
    Other,
}

/// The lifecycle and input events the driver dispatches on, translated
/// from the window system.
#[derive(Clone, Copy, Debug, PartialEq, Eq, Structural)]
pub enum Event {
    /// Resume/activation: build (or rebuild) the session. Also delivered at
    /// startup.
    Resumed,
    /// The context may be lost: destroy the session entirely.
    Suspended,
    /// Event processing for a cycle finished; the idle policy runs.
    AboutToWait,
    /// The window was resized to the given pixel size.
    Resized(u32, u32),
    /// The window asks to be repainted.
    RedrawRequested,
    /// The window was asked to close.
    CloseRequested,
    /// A key changed state.
    KeyboardInput { pressed: bool, key: Key },
    /// Anything else; forwarded, unconsumed, to the extension hook.
    Other,
}

/// What the window system would report if a session were provisioned now:
/// the loader/config/context/surface outcomes, the window's visibility and
/// inner size, and the texture's PNG bytes.
#[derive(Debug, PartialEq, Eq)]
pub struct Env {
    pub report: ProvisionReport,
    pub visible: bool,
    pub window_width: u32,
    pub window_height: u32,
    pub png: Vec<u8>,
}

/// The mathematical content of an `Env`.
pub struct EnvView {
    pub report: ProvisionReport,
    pub visible: bool,
    pub window_width: u32,
    pub window_height: u32,
    pub png: Seq<u8>,
}

impl View for Env {
    type V = EnvView;

    open spec fn view(&self) -> EnvView {
        EnvView {
            report: self.report,
            visible: self.visible,
            window_width: self.window_width,
            window_height: self.window_height,
            png: self.png@,
        }
    }
}

impl Env {
    /// A visible window reports a positive inner size.
    pub open spec fn wf(self) -> bool {
        self.visible ==> self.window_width > 0 && self.window_height > 0
    }
}

/// What the unverified binding must perform after a step: nothing, request
/// a redraw, resize the real surface, present a frame, or end the loop.
#[derive(Debug, PartialEq, Eq)]
pub enum Action {
    /// No outside work.
    Idle,
    /// Ask the window for another redraw (the idle policy's continuous
    /// rendering).
    RequestRedraw,
    /// Resize the real surface to the given size.
    ResizeSurface(u32, u32),
    /// Present this frame on the real surface.
    Present(PresentedFrame),
    /// Terminate the event loop; the only normal termination path.
    Exit,
}

/// The mathematical content of an `Action`.
pub enum ActionView {
    Idle,
    RequestRedraw,
    ResizeSurface(u32, u32),
    Present(PresentedFrameView),
    Exit,
}

impl View for Action {
    type V = ActionView;

    open spec fn view(&self) -> ActionView {
        match self {
            Action::Idle => ActionView::Idle,
            Action::RequestRedraw => ActionView::RequestRedraw,
            Action::ResizeSurface(w, h) => ActionView::ResizeSurface(*w, *h),
            Action::Present(f) => ActionView::Present(f@),
            Action::Exit => ActionView::Exit,
        }
    }
}

/// `Ok` actions by their content, errors unchanged.
pub open spec fn action_result_view(r: Result<Action, SetupError>) -> Result<
    ActionView,
    SetupError,
> {
    match r {
        Ok(a) => Ok(a@),
        Err(e) => Err(e),
    }
}

/// The event-loop driver: at most one live session, and whether the loop
/// has terminated.
#[derive(Debug, PartialEq, Eq)]
pub struct Driver {
    /// The one current session, if any.
    pub state: Option<State>,
    /// Whether the loop has been told to terminate.
    pub exited: bool,
}

/// The mathematical content of a `Driver`.
pub struct DriverView {
    pub state: Option<StateView>,
    pub exited: bool,
}

impl View for Driver {
    type V = DriverView;

    open spec fn view(&self) -> DriverView {
        DriverView {
            state: match self.state {
                Some(s) => Some(s@),
                None => None,
            },
            exited: self.exited,
        }
    }
}

/// One step of the driver: the state after the event and the action (or
/// fatal setup error) it yields.
pub struct Step {
    pub post: DriverView,
    pub out: Result<ActionView, SetupError>,
}

/// The driver's entire transition function. After termination every event
/// is without effect; a resume replaces the session wholesale or fails
/// fatally; a suspend destroys it; a resize mutates only the surface size;
/// a redraw presents the session's frame; close or the cancel key
/// terminates; everything else reaches the no-op extension hook.
pub open spec fn step(pre: DriverView, event: Event, env: EnvView) -> Step {
    if pre.exited {
        Step { post: pre, out: Ok(ActionView::Idle) }
    } else {
        match event {
            Event::Resumed => match state_of(
                env.report,
                env.visible,
                env.window_width,
                env.window_height,
                env.png,
            ) {
                Ok(s) => Step {
                    post: DriverView { state: Some(s), exited: false },
                    out: Ok(ActionView::Idle),
                },
                Err(e) => Step { post: DriverView { state: None, exited: false }, out: Err(e) },
            },
            Event::Suspended => Step {
                post: DriverView { state: None, exited: false },
                out: Ok(ActionView::Idle),
            },
            Event::AboutToWait => Step {
                post: pre,
                out: Ok(
                    if pre.state is Some {
                        ActionView::RequestRedraw
                    } else {
                        ActionView::Idle
                    },
                ),
            },
            Event::Resized(w, h) => match pre.state {
                Some(s) => Step {
                    post: DriverView {
                        state: Some(
                            StateView {
                                display: Display { api: s.display.api, width: w, height: h },
                                window: s.window,
                                context: s.context,
                            },
                        ),
                        exited: false,
                    },
                    out: Ok(ActionView::ResizeSurface(w, h)),
                },
                None => Step { post: pre, out: Ok(ActionView::Idle) },
            },
            Event::RedrawRequested => match pre.state {
                Some(s) => Step {
                    post: pre,
                    out: Ok(
                        ActionView::Present(
                            presented_of(
                                s.context.draw_texture,
                                Frame { width: s.display.width, height: s.display.height },
                            ),
                        ),
                    ),
                },
                None => Step { post: pre, out: Ok(ActionView::Idle) },
            },
            Event::CloseRequested => Step {
                post: DriverView { state: pre.state, exited: true },
                out: Ok(ActionView::Exit),
            },
            Event::KeyboardInput { pressed, key } => if pressed && key == Key::Escape {
                Step {
                    post: DriverView { state: pre.state, exited: true },
                    out: Ok(ActionView::Exit),
                }
            } else {
                Step { post: pre, out: Ok(ActionView::Idle) }
            },
            Event::Other => Step { post: pre, out: Ok(ActionView::Idle) },
        }
    }
}

impl Driver {
    /// Every live session is well-formed.
    pub open spec fn wf(self) -> bool {
        self.state matches Some(s) ==> s.wf()
    }

    /// A fresh driver: no session, loop running.
    pub fn new() -> (d: Driver)
        ensures
            d@ == (DriverView { state: None, exited: false }),
            d.wf(),
    {
        Driver { state: None, exited: false }
    }

    /// Dispatches one event: takes the step of the transition function and
    /// returns the action for the binding to perform. A fatal setup error
    /// is returned as `Err`; the driver then holds no session.
    pub fn handle_event(&mut self, event: Event, env: &Env) -> (out: Result<Action, SetupError>)
        requires
            old(self).wf(),
            env.wf(),
            event matches Event::Resized(w, h) ==> w > 0 && h > 0,
        ensures
            final(self)@ == step(old(self)@, event, env@).post,
            action_result_view(out) == step(old(self)@, event, env@).out,
            final(self).wf(),
    {
        if self.exited {
            return Ok(Action::Idle);
        }
        match event {
            Event::Resumed => {
                match State::new(
                    env.report,
                    env.visible,
                    env.window_width,
                    env.window_height,
                    env.png.as_slice(),
                ) {
                    Ok(s) => {
                        self.state = Some(s);
                        Ok(Action::Idle)
                    },
                    Err(e) => {
                        self.state = None;
                        Err(e)
                    },
                }
            },
            Event::Suspended => {
                self.state = None;
                Ok(Action::Idle)
            },
            Event::AboutToWait => {
                match &self.state {
                    Some(_) => Ok(Action::RequestRedraw),
                    None => Ok(Action::Idle),
                }
            },
            Event::Resized(w, h) => {
                match &mut self.state {
                    Some(s) => {
                        s.display.width = w;
                        s.display.height = h;
                        Ok(Action::ResizeSurface(w, h))
                    },
                    None => Ok(Action::Idle),
                }
            },
            Event::RedrawRequested => {
                match &mut self.state {
                    Some(s) => {
                        s.context.update();
                        let d = s.display;
                        let f = s.context.draw_frame(&d);
                        Ok(Action::Present(f))
                    },
                    None => Ok(Action::Idle),
                }
            },
            Event::CloseRequested => {
                self.exited = true;
                Ok(Action::Exit)
            },
            Event::KeyboardInput { pressed, key } => {
                if pressed && matches!(key, Key::Escape) {
                    self.exited = true;
                    Ok(Action::Exit)
                } else {
                    match &mut self.state {
                        Some(s) => s.context.handle_window_event(&event),
                        None => (),
                    }
                    Ok(Action::Idle)
                }
            },
            Event::Other => {
                match &mut self.state {
                    Some(s) => s.context.handle_window_event(&event),
                    None => (),
                }
                Ok(Action::Idle)
            },
        }
    }
}

/// A resize event followed by a redraw presents a frame of exactly the new
/// size, with no GPU resource recreation: the session's buffers, texture
/// and program are the ones from before the resize, and only the surface
/// size changed.
pub proof fn lemma_resize_then_redraw(pre: DriverView, w: u32, h: u32, env1: EnvView, env2: EnvView)
    requires
        !pre.exited,
        pre.state is Some,
        w > 0,
        h > 0,
    ensures
        ({
            let r1 = step(pre, Event::Resized(w, h), env1);
            let r2 = step(r1.post, Event::RedrawRequested, env2);
            &&& pre.state matches Some(s0) ==> {
                &&& r1.post.state matches Some(s1)
                &&& s1.display.width == w
                &&& s1.display.height == h
                &&& s1.display.api == s0.display.api
                &&& s1.context == s0.context
                &&& s1.window == s0.window
                &&& r2.post == r1.post
                &&& r2.out matches Ok(a)
                &&& a matches ActionView::Present(f)
                &&& f.width == w
                &&& f.height == h
                &&& f.vertices == s0.context.draw_texture.vertex_buffer
                &&& f.indices == s0.context.draw_texture.index_buffer
                &&& f.texture == s0.context.draw_texture.opengl_texture
            }
        }),
{
}

/// Session construction is idempotent in effect: a suspend followed by a
/// resume with identical inputs rebuilds an identical session, and its
/// first presented frame equals the original session's.
pub proof fn lemma_rebuild_reproduces_first_frame(pre: DriverView, env: EnvView)
    requires
        !pre.exited,
        pre.state matches Some(s0) && state_of(
            env.report,
            env.visible,
            env.window_width,
            env.window_height,
            env.png,
        ) == Ok::<StateView, SetupError>(s0),
    ensures
        ({
            let r1 = step(pre, Event::Suspended, env);
            let r2 = step(r1.post, Event::Resumed, env);
            &&& r1.post.state is None
            &&& r2.post.state == pre.state
            &&& step(r2.post, Event::RedrawRequested, env).out == step(
                pre,
                Event::RedrawRequested,
                env,
            ).out
        }),
{
}

/// Closing the window, or pressing the cancel key with or without a live
/// session, terminates the loop exactly once: the step reports `Exit`, and
/// every later event leaves the driver unchanged and dispatches nothing --
/// no redraw, no resize, and no second exit.
pub proof fn lemma_close_terminates_once(
    pre: DriverView,
    ev: Event,
    later: Event,
    env1: EnvView,
    env2: EnvView,
)
    requires
        !pre.exited,
        ev == Event::CloseRequested || ev == (Event::KeyboardInput {
            pressed: true,
            key: Key::Escape,
        }),
    ensures
        ({
            let r1 = step(pre, ev, env1);
            let r2 = step(r1.post, later, env2);
            &&& r1.out == Ok::<ActionView, SetupError>(ActionView::Exit)
            &&& r1.post.exited
            &&& r1.post.state == pre.state
            &&& r2.post == r1.post
            &&& r2.out == Ok::<ActionView, SetupError>(ActionView::Idle)
        }),
{
}

/// A GL loader that resolves no symbols makes provisioning, and with it
/// session construction, fail fast with the loader error: no context or
/// surface outcome is consulted, no partial session is left, and a resume
/// under such a loader reports the fatal error at once.
pub proof fn lemma_loader_failure_fails_fast(
    pre: DriverView,
    env: EnvView,
    width: u32,
    height: u32,
)
    requires
        !pre.exited,
        !env.report.loader_ok,
    ensures
        provision_spec(env.report, width, height) == Err::<Display, ProvisionError>(
            ProvisionError::LoaderFailed,
        ),
        ({
            let r = step(pre, Event::Resumed, env);
            &&& r.out == Err::<ActionView, SetupError>(
                SetupError::Provision(ProvisionError::LoaderFailed),
            )
            &&& r.post.state is None
        }),
{
}

} // verus!
