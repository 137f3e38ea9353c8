//! Error taxonomy of the lifecycle manager.
//!
//! Every failure here is fatal for the session being set up: no partial or
//! degraded session is ever left live, and nothing is retried.

use vstd::prelude::*;

verus! {

/// A failure while turning a window handle into a context/surface pair.
#[derive(Clone, Copy, Debug, PartialEq, Eq, Structural)]
pub enum ProvisionError {
    /// The GL function loader resolved no symbols; nothing was attempted.
    LoaderFailed,
    /// No compatible GL configuration was available.
    NoConfiguration,
    /// Context creation failed for the preferred API and for the
    /// reduced-capability fallback alike.
    ContextCreationFailed,
    /// The drawable surface could not be created against the window.
    SurfaceCreationFailed,
}

/// A failure while building a whole session: provisioning, or the GPU
/// resource set constructed on top of it.
#[derive(Clone, Copy, Debug, PartialEq, Eq, Structural)]
pub enum SetupError {
    /// Provisioning the context/surface pair failed.
    Provision(ProvisionError),
    /// The bundled texture's PNG bytes did not decode.
    TextureDecode,
}

impl SetupError {
    /// A short human-readable description of the failure.
    pub fn describe(&self) -> (s: &'static str)
        ensures
            s@.len() > 0,
    {
        let r = match self {
            SetupError::Provision(ProvisionError::LoaderFailed) => "GL loader resolved no symbols",
            SetupError::Provision(ProvisionError::NoConfiguration) => "no compatible GL configuration",
            SetupError::Provision(ProvisionError::ContextCreationFailed) => "context creation failed, fallback included",
            SetupError::Provision(ProvisionError::SurfaceCreationFailed) => "surface creation failed",
            SetupError::TextureDecode => "texture PNG did not decode",
        };
        proof {
            reveal_strlit("GL loader resolved no symbols");
            reveal_strlit("no compatible GL configuration");
            reveal_strlit("context creation failed, fallback included");
            reveal_strlit("surface creation failed");
            reveal_strlit("texture PNG did not decode");
        }
        r
    }
}

} // verus!
