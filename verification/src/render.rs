//! The frame renderer and the top-level `Window`. The renderer owns the
//! mesh, the linked program, the render target and the clear descriptor;
//! all four are built once and never change afterwards. Each loop
//! iteration folds the drained events into the close flag and emits the
//! same fixed sequence of render commands, which the unverified shell
//! plays against the real GPU.

use vstd::prelude::*;

use crate::bootstrap::{BootOutcome, InitError};
use crate::events::{WindowEvent, any_requests_close, handle_events};
use crate::shader::{Program, link_program, spec_select_dialect};
use crate::vertex::{Vertex, triangle_spec, triangle_vertices};

verus! {

/// The render target: the destination surface, sized once from the
/// window's framebuffer and never resized.
#[derive(Clone, Copy, Debug, PartialEq, Eq, Structural)]
pub struct Frame {
    /// Target width in pixels.
    pub width: u16,
    /// Target height in pixels.
    pub height: u16,
}

/// The constant clear descriptor. Color channels and depth are counts of
/// tenths, as in [`crate::vertex::Vertex`]: the clear color is
/// (0.3, 0.3, 0.3) with full opacity, the depth 1.0, the stencil 0.
#[derive(Clone, Copy, Debug, PartialEq, Eq, Structural)]
pub struct ClearValue {
    /// Red channel of the clear color, in tenths.
    pub r: i32,
    /// Green channel of the clear color, in tenths.
    pub g: i32,
    /// Blue channel of the clear color, in tenths.
    pub b: i32,
    /// Alpha channel of the clear color, in tenths.
    pub a: i32,
    /// Depth clear value, in tenths.
    pub depth: i32,
    /// Stencil clear value.
    pub stencil: u8,
}

/// The one clear descriptor the demo ever uses.
pub open spec fn spec_clear_value() -> ClearValue {
    ClearValue { r: 3i32, g: 3i32, b: 3i32, a: 10i32, depth: 10i32, stencil: 0u8 }
}

/// Builds the constant clear descriptor.
pub fn clear_value() -> (c: ClearValue)
    ensures
        c == spec_clear_value(),
{
    ClearValue { r: 3, g: 3, b: 3, a: 10, depth: 10, stencil: 0 }
}

/// One GPU command of the per-frame cycle, for the shell to play: the
/// commands carry everything the shell needs that the GPU handles
/// themselves do not already fix.
#[derive(Clone, Copy, Debug, PartialEq, Eq, Structural)]
pub enum RenderCommand {
    /// Reset the target to the clear descriptor.
    Clear(ClearValue, Frame),
    /// Draw the one batch (program + mesh + slice) against the target.
    DrawBatch(Frame),
    /// Finish and flush the frame's command buffer.
    EndFrame,
    /// Present: swap the window's back buffer to the screen.
    SwapBuffers,
}

/// The frame renderer: the GPU-resident state, built once at startup and
/// never replaced, resized or freed individually.
#[derive(Debug)]
pub struct Renderer {
    /// The uploaded vertex data: always the fixed triangle.
    pub mesh: Vec<Vertex>,
    /// The linked shader program.
    pub program: Program,
    /// The render target, sized to the window's framebuffer.
    pub frame: Frame,
    /// The constant clear descriptor.
    pub clear: ClearValue,
}

impl Renderer {
    /// The renderer's invariant: the mesh is the fixed triangle and the
    /// clear descriptor is the one constant.
    pub open spec fn wf(self) -> bool {
        self.mesh@ == triangle_spec() && self.clear == spec_clear_value()
    }

    /// Builds the renderer for a context with the given framebuffer size
    /// and shading-language version: uploads the triangle, links the
    /// program in the dialect the context supports, and sizes the target
    /// to the framebuffer. Fails exactly when no dialect fits the context.
    pub fn new(fb_width: u16, fb_height: u16, glsl_version: u32) -> (res: Result<
        Renderer,
        InitError,
    >)
        ensures
            spec_select_dialect(glsl_version) is None ==> res == Err::<Renderer, InitError>(
                InitError::ShaderLink,
            ),
            spec_select_dialect(glsl_version) matches Some(d) ==> (res matches Ok(r) && r.wf()
                && r.frame.width == fb_width && r.frame.height == fb_height && r.program.dialect
                == d),
    {
        let program = match link_program(glsl_version) {
            Some(p) => p,
            None => {
                return Err(InitError::ShaderLink);
            },
        };
        let mesh = triangle_vertices();
        Ok(
            Renderer {
                mesh,
                program,
                frame: Frame { width: fb_width, height: fb_height },
                clear: clear_value(),
            },
        )
    }
}

/// The top-level object: the platform window (standing here for what the
/// library reads of it) together with the renderer bound to its context.
#[derive(Debug)]
pub struct Window {
    /// Requested window width in pixels; under display scaling the
    /// framebuffer, and with it the render target, can be larger.
    pub width: u32,
    /// Requested window height in pixels.
    pub height: u32,
    /// The renderer bound to the window's context.
    pub renderer: Renderer,
    /// Whether the window is flagged for close; the loop exits when this
    /// is observed at the top of an iteration.
    pub should_close: bool,
}

/// The fixed per-frame command sequence: clear, draw the one batch, end
/// the frame, present.
pub open spec fn spec_frame_commands(r: Renderer) -> Seq<RenderCommand> {
    seq![
        RenderCommand::Clear(r.clear, r.frame),
        RenderCommand::DrawBatch(r.frame),
        RenderCommand::EndFrame,
        RenderCommand::SwapBuffers,
    ]
}

/// One loop iteration as a transition on the window state: the drained
/// events fold into the close flag, and nothing else changes.
pub open spec fn spec_step(w: Window, events: Seq<WindowEvent>) -> Window {
    Window {
        width: w.width,
        height: w.height,
        renderer: w.renderer,
        should_close: w.should_close || any_requests_close(events),
    }
}

/// The window state after a whole run: one transition per poll cycle, in
/// order, each fed that cycle's drained events.
pub open spec fn spec_run(w: Window, batches: Seq<Seq<WindowEvent>>) -> Window
    decreases batches.len(),
{
    if batches.len() == 0 {
        w
    } else {
        spec_run(spec_step(w, batches[0]), batches.drop_first())
    }
}

impl Window {
    /// The window's invariant: its renderer's resources are the ones
    /// built at startup.
    pub open spec fn wf(self) -> bool {
        self.renderer.wf()
    }

    /// Builds the top-level object from the requested size and the
    /// outcome of the shell's platform calls. Each bootstrap failure maps
    /// to its fatal error; on a live context the renderer is built, with
    /// the target sized to the reported framebuffer (not to the requested
    /// size), and the close flag starts clear. Fails on a live context
    /// exactly when no shader dialect fits it.
    pub fn new(width: u32, height: u32, boot: BootOutcome) -> (res: Result<Window, InitError>)
        ensures
            match boot {
                BootOutcome::InitFailed => res == Err::<Window, InitError>(
                    InitError::WindowSystemInit,
                ),
                BootOutcome::CreateFailed => res == Err::<Window, InitError>(
                    InitError::WindowCreation,
                ),
                BootOutcome::Created(ctx) => match spec_select_dialect(ctx.glsl_version) {
                    None => res == Err::<Window, InitError>(InitError::ShaderLink),
                    Some(d) => res matches Ok(w) && w.wf() && w.width == width && w.height
                        == height && w.renderer.frame.width == ctx.fb_width
                        && w.renderer.frame.height == ctx.fb_height && w.renderer.program.dialect
                        == d && !w.should_close,
                },
            },
    {
        match boot {
            BootOutcome::InitFailed => Err(InitError::WindowSystemInit),
            BootOutcome::CreateFailed => Err(InitError::WindowCreation),
            BootOutcome::Created(ctx) => {
                match Renderer::new(ctx.fb_width, ctx.fb_height, ctx.glsl_version) {
                    Ok(renderer) => Ok(Window { width, height, renderer, should_close: false }),
                    Err(e) => Err(e),
                }
            },
        }
    }

    /// One loop iteration: folds the drained events into the close flag
    /// and emits the fixed clear/draw/end/present command sequence. The
    /// renderer and the requested size come through unchanged; drawing
    /// mutates nothing.
    pub fn frame_step(&mut self, events: &Vec<WindowEvent>) -> (cmds: Vec<RenderCommand>)
        ensures
            *final(self) == spec_step(*old(self), events@),
            final(self).renderer == old(self).renderer,
            cmds@ == spec_frame_commands(old(self).renderer),
    {
        let flag = handle_events(events, self.should_close);
        self.should_close = flag;
        let mut cmds: Vec<RenderCommand> = Vec::new();
        cmds.push(RenderCommand::Clear(self.renderer.clear, self.renderer.frame));
        cmds.push(RenderCommand::DrawBatch(self.renderer.frame));
        cmds.push(RenderCommand::EndFrame);
        cmds.push(RenderCommand::SwapBuffers);
        proof {
            assert(cmds@ =~= spec_frame_commands(old(self).renderer));
        }
        cmds
    }
}

/// Running any number of poll cycles never changes the mesh, the program,
/// the target or the clear descriptor — drawing mutates nothing — and the
/// close flag ends set exactly when it started set or some cycle drained
/// an event that requests the close (so once set, it stays set).
pub proof fn lemma_run_preserves_resources(w: Window, batches: Seq<Seq<WindowEvent>>)
    ensures
        spec_run(w, batches).renderer == w.renderer,
        spec_run(w, batches).width == w.width,
        spec_run(w, batches).height == w.height,
        spec_run(w, batches).should_close == (w.should_close || exists|i: int|
            0 <= i < batches.len() && any_requests_close(batches[i])),
    decreases batches.len(),
{
    if batches.len() == 0 {
    } else {
        let stepped = spec_step(w, batches[0]);
        let rest = batches.drop_first();
        lemma_run_preserves_resources(stepped, rest);
        assert(forall|i: int| 0 <= i < rest.len() ==> rest[i] == batches[i + 1]);
        if exists|i: int| 0 <= i < batches.len() && any_requests_close(batches[i]) {
            let i = choose|i: int| 0 <= i < batches.len() && any_requests_close(batches[i]);
            if i > 0 {
                assert(any_requests_close(rest[i - 1]));
            }
            assert(spec_run(w, batches).should_close);
        } else {
            assert(!any_requests_close(batches[0]));
            assert(forall|j: int| 0 <= j < rest.len() ==> !any_requests_close(rest[j]));
            assert(spec_run(w, batches).should_close == w.should_close);
        }
    }
}

} // verus!

