//! The embedding adapter: the same GPU resource set behind a host-toolkit
//! drawing-area widget.
//!
//! Instead of owning the event loop, the adapter receives realize, render
//! and unrealize signals from the host. An unusable widget aborts the
//! realize step silently; the render target's size is re-queried every
//! frame, never cached; and the session is destroyed before the host's own
//! teardown runs, so no GPU resource outlives the drawable it was bound to.
//! The host guarantees exclusive, non-interleaved GL state ownership for
//! the adapter's lifetime.

use crate::driver::{action_result_view, step, Action, AttemptOutcome, Driver, Env, Event};
use crate::error::{ProvisionError, SetupError};
use crate::gl::{draw_texture_of, presented_of, DrawTexture, DrawTextureView, Frame, PresentedFrame};
use vstd::prelude::*;

verus! {

/// Whether a host signal is propagated further or reported as fully
/// handled.
#[derive(Clone, Copy, Debug, PartialEq, Eq, Structural)]
pub enum Propagation {
    /// Let the host's default handling run too.
    Proceed,
    /// The signal is fully handled; stop further propagation.
    Stop,
}

/// The drawing-area adapter: at most one renderer, built on realize and
/// destroyed on unrealize.
#[derive(Debug, PartialEq, Eq)]
pub struct GliumGLArea {
    /// The GPU resource set of the widget's live session, if any.
    pub renderer: Option<DrawTexture>,
}

/// The mathematical content of a `GliumGLArea`.
pub struct GliumGLAreaView {
    pub renderer: Option<DrawTextureView>,
}

impl View for GliumGLArea {
    type V = GliumGLAreaView;

    open spec fn view(&self) -> GliumGLAreaView {
        GliumGLAreaView {
            renderer: match self.renderer {
                Some(r) => Some(r@),
                None => None,
            },
        }
    }
}

impl Default for GliumGLArea {
    /// A fresh widget: not yet realized, no renderer.
    fn default() -> (a: GliumGLArea)
        ensures
            a.renderer is None,
    {
        GliumGLArea { renderer: None }
    }
}

impl GliumGLArea {
    /// Every live renderer is the fixed, well-formed resource set.
    pub open spec fn wf(self) -> bool {
        self.renderer matches Some(r) ==> r.wf()
    }

    /// The host "realize" signal. An unrecoverable widget error aborts
    /// setup silently: no renderer, no error, no further draws expected. A
    /// usable widget gets a context bound to the host's drawable; a failed
    /// context or a texture that does not decode is fatal and leaves no
    /// partial renderer.
    pub fn realize(
        &mut self,
        widget_error: bool,
        context_created: AttemptOutcome,
        bytes: &[u8],
    ) -> (r: Result<(), SetupError>)
        ensures
            widget_error ==> final(self).renderer is None && r is Ok,
            !widget_error && context_created == AttemptOutcome::Failed
                ==> final(self).renderer is None
                && r == Err::<(), SetupError>(
                    SetupError::Provision(ProvisionError::ContextCreationFailed),
                ),
            !widget_error && context_created == AttemptOutcome::Succeeded
                ==> (match draw_texture_of(bytes@) {
                    Some(dt) => r is Ok && final(self)@.renderer == Some(dt),
                    None => r == Err::<(), SetupError>(SetupError::TextureDecode)
                        && final(self).renderer is None,
                }),
            final(self).wf(),
    {
        if widget_error {
            self.renderer = None;
            return Ok(());
        }
        if matches!(context_created, AttemptOutcome::Failed) {
            self.renderer = None;
            return Err(SetupError::Provision(ProvisionError::ContextCreationFailed));
        }
        match DrawTexture::new(bytes) {
            Ok(dt) => {
                self.renderer = Some(dt);
                Ok(())
            },
            Err(e) => {
                self.renderer = None;
                Err(e)
            },
        }
    }

    /// The host "render" signal: draws into a target of the framebuffer
    /// size queried for this very frame (the host may resize the widget at
    /// any point, so the size is never cached), and reports the signal as
    /// fully handled.
    pub fn render(&self, fb_width: u32, fb_height: u32) -> (r: (PresentedFrame, Propagation))
        requires
            self.renderer is Some,
        ensures
            self.renderer matches Some(dt) ==> r.0@ == presented_of(
                dt@,
                Frame { width: fb_width, height: fb_height },
            ),
            r.1 == Propagation::Stop,
    {
        match &self.renderer {
            Some(dt) => {
                let frame = dt.draw(Frame { width: fb_width, height: fb_height });
                (frame, Propagation::Stop)
            },
            None => { unreached() },
        }
    }

    /// The host "unrealize" signal: destroys the renderer before the
    /// host's default teardown invalidates the drawable underneath it.
    pub fn unrealize(&mut self)
        ensures
            final(self).renderer is None,
    {
        self.renderer = None;
    }
}

/// The dual-thread integration: the event-loop driver runs on a dedicated
/// worker thread while the host toolkit's loop runs on the main thread.
/// The two pipelines share no context, no GPU resource and no mutable
/// state; each side's transitions are proved to leave the other side
/// untouched.
#[derive(Debug, PartialEq, Eq)]
pub struct DualPipeline {
    /// The worker thread's standalone driver.
    pub worker: Driver,
    /// The main thread's host-embedded area.
    pub host: GliumGLArea,
}

impl DualPipeline {
    /// Both pipelines are well-formed.
    pub open spec fn wf(self) -> bool {
        self.worker.wf() && self.host.wf()
    }

    /// An event on the worker thread: steps the driver exactly as it would
    /// step alone, and leaves the host pipeline untouched. Destroying or
    /// rebuilding the worker's session never mutates the host's.
    pub fn worker_event(&mut self, event: Event, env: &Env) -> (out: Result<Action, SetupError>)
        requires
            old(self).wf(),
            env.wf(),
            event matches Event::Resized(w, h) ==> w > 0 && h > 0,
        ensures
            final(self).host == old(self).host,
            final(self).worker@ == step(old(self).worker@, event, env@).post,
            action_result_view(out) == step(old(self).worker@, event, env@).out,
            final(self).wf(),
    {
        self.worker.handle_event(event, env)
    }

    /// A realize signal on the host thread: acts exactly as the adapter
    /// alone would, and leaves the worker pipeline untouched.
    pub fn host_realize(
        &mut self,
        widget_error: bool,
        context_created: AttemptOutcome,
        bytes: &[u8],
    ) -> (r: Result<(), SetupError>)
        requires
            old(self).wf(),
        ensures
            final(self).worker == old(self).worker,
            widget_error ==> final(self).host.renderer is None && r is Ok,
            !widget_error && context_created == AttemptOutcome::Succeeded && draw_texture_of(
                bytes@,
            ) is Some ==> final(self).host@.renderer == Some(draw_texture_of(bytes@).unwrap()),
            final(self).wf(),
    {
        self.host.realize(widget_error, context_created, bytes)
    }

    /// An unrealize signal on the host thread: destroys the host session
    /// and leaves the worker pipeline untouched.
    pub fn host_unrealize(&mut self)
        requires
            old(self).wf(),
        ensures
            final(self).worker == old(self).worker,
            final(self).host.renderer is None,
            final(self).wf(),
    {
        self.host.unrealize()
    }
}

} // verus!
