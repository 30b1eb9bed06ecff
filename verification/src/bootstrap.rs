//! The window/context bootstrap: what the demo asks of the platform
//! (window size, a fixed title, a core-profile context of a fixed version)
//! and the two ways that request can fail fatally. The unverified shell
//! performs the actual platform calls and reports their outcome here as
//! plain values.

use vstd::prelude::*;

verus! {

/// The graphics context the demo requests: version 3.2, forward-compatible,
/// core profile.
#[derive(Clone, Copy, Debug, PartialEq, Eq, Structural)]
pub struct ContextRequest {
    /// Major context version.
    pub major: u32,
    /// Minor context version.
    pub minor: u32,
    /// Whether a forward-compatible context is requested.
    pub forward_compat: bool,
    /// Whether the core profile is requested.
    pub core_profile: bool,
}

/// The one context request the demo ever makes.
pub open spec fn spec_context_request() -> ContextRequest {
    ContextRequest { major: 3u32, minor: 2u32, forward_compat: true, core_profile: true }
}

/// Hands the shell the window hints to set before creating the window.
pub fn context_request() -> (c: ContextRequest)
    ensures
        c == spec_context_request(),
{
    ContextRequest { major: 3, minor: 2, forward_compat: true, core_profile: true }
}

/// The fixed window title.
pub open spec fn spec_window_title() -> Seq<char> {
    "no title"@
}

/// Hands the shell the fixed window title; it is not configurable.
pub fn window_title() -> (t: &'static str)
    ensures
        t@ == spec_window_title(),
{
    "no title"
}

/// A fatal initialization error. Every error of the demo is of this kind:
/// once the window is up and the GPU resources are built, nothing fails.
#[derive(Clone, Copy, Debug, PartialEq, Eq, Structural)]
pub enum InitError {
    /// The windowing system could not be initialized.
    WindowSystemInit,
    /// The window could not be created.
    WindowCreation,
    /// No shader dialect fits the created context, so linking failed.
    ShaderLink,
}

/// The diagnostic the process terminates with for each fatal error.
pub open spec fn spec_message(e: InitError) -> Seq<char> {
    match e {
        InitError::WindowSystemInit => "Failed to initialize the windowing system."@,
        InitError::WindowCreation => "Failed to create GLFW window."@,
        InitError::ShaderLink => "Failed to link the shader program."@,
    }
}

impl InitError {
    /// The diagnostic message for this error; never empty.
    pub fn message(&self) -> (m: &'static str)
        ensures
            m@ == spec_message(*self),
            m@.len() > 0,
    {
        proof {
            reveal_strlit("Failed to initialize the windowing system.");
            reveal_strlit("Failed to create GLFW window.");
            reveal_strlit("Failed to link the shader program.");
        }
        match self {
            InitError::WindowSystemInit => "Failed to initialize the windowing system.",
            InitError::WindowCreation => "Failed to create GLFW window.",
            InitError::ShaderLink => "Failed to link the shader program.",
        }
    }
}

/// Every fatal error carries a non-empty diagnostic.
pub proof fn lemma_messages_nonempty(e: InitError)
    ensures
        spec_message(e).len() > 0,
{
    reveal_strlit("Failed to initialize the windowing system.");
    reveal_strlit("Failed to create GLFW window.");
    reveal_strlit("Failed to link the shader program.");
}

/// What the created window and context look like, as far as the demo
/// reads them: the framebuffer size the window reports (which under
/// display scaling can differ from the requested size) and the
/// shading-language version the context supports.
#[derive(Clone, Copy, Debug, PartialEq, Eq, Structural)]
pub struct CreatedContext {
    /// Framebuffer width in pixels, as reported by the window.
    pub fb_width: u16,
    /// Framebuffer height in pixels, as reported by the window.
    pub fb_height: u16,
    /// Shading-language version of the context, e.g. 150 for GLSL 1.50.
    pub glsl_version: u32,
}

/// The outcome of the shell's platform calls: either of the two fatal
/// bootstrap failures, or a live window and context.
#[derive(Clone, Copy, Debug, PartialEq, Eq, Structural)]
pub enum BootOutcome {
    /// The windowing system failed to initialize.
    InitFailed,
    /// The window could not be created.
    CreateFailed,
    /// The window is up and its context is current.
    Created(CreatedContext),
}

} // verus!
