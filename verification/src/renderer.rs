//! The scene renderer: the state of the drawing layer and its two faces,
//! the drawing calls of the application and the events of the backend.
//!
//! Drawing is immediate: the commands that were drawn are handed out, all
//! of them and exactly once, when the next frame is recorded, and the
//! application draws its scene anew for the frame after that. A frame that
//! is skipped or fails records nothing and leaves the commands pending, so
//! that the next redraw tries again with the same commands.

use vstd::prelude::*;
use crate::color::Color;
use crate::command::{meshes, on_top, DrawCommand, DrawCommandBuffer, Mesh};
use crate::frame::{Decision, FatalError, FrameController, FrameEvent, FrameState, SkipReason};
use crate::ndc::{Extent, Point};
use crate::surface::{ConfigureAction, SurfaceConfig, SurfaceSize};
use crate::tessellate::{
    circle, circle_mesh, line, line_mesh, rectangle, rectangle_mesh, triangle, triangle_mesh,
    DrawError, MAX_SEGMENTS, MIN_SEGMENTS,
};

verus! {

/// The one pass of a frame: clear, then draw each command in order.
#[derive(Debug, PartialEq, Eq)]
pub struct PassPlan {
    /// The colour that the pass clears the image to before anything is
    /// drawn.
    pub clear: Color,
    /// The commands to draw, the first at the bottom and the last on top.
    /// Each takes its own vertex and index buffer and one indexed draw call
    /// over all of its indices.
    pub commands: Vec<DrawCommand>,
}

impl PassPlan {
    /// The pass clears to `clear` and draws exactly the meshes `pending`,
    /// in their order, each of which one indexed draw call can draw.
    pub open spec fn carries(self, clear: Color, pending: Seq<Mesh>) -> bool {
        &&& self.clear == clear
        &&& meshes(self.commands@) == pending
        &&& forall|i: int|
            0 <= i < self.commands@.len() ==> drawable(#[trigger] self.commands@[i]@)
    }
}

/// What the backend has to do next.
#[derive(Debug, PartialEq, Eq)]
pub enum FrameAction {
    /// Acquire the next presentable image from the surface, and report
    /// [`FrameEvent::ImageAcquired`] or [`FrameEvent::AcquireFailed`].
    Acquire,
    /// Open one recording context, record this pass into the acquired
    /// image, and report [`FrameEvent::PassRecorded`].
    Record(PassPlan),
    /// Close the pass, submit the recorded work to the queue, and report
    /// [`FrameEvent::WorkSubmitted`].
    Submit,
    /// Present the acquired image, and report
    /// [`FrameEvent::ImagePresented`].
    Present,
    /// The frame is on screen. Nothing is left to do.
    Finished,
    /// The frame was dropped: nothing was recorded and the commands are
    /// still pending. Where `reconfigure` is set, apply the configuration to
    /// the surface again before the next frame.
    Skip { reason: SkipReason, reconfigure: bool },
    /// The session cannot go on.
    Fatal(FatalError),
    /// The event did not belong to the state the frame is in. Nothing has
    /// changed.
    Ignored,
}

impl FrameAction {
    /// The decision that the action carries out.
    pub open spec fn decision(self) -> Decision {
        match self {
            FrameAction::Acquire => Decision::Acquire,
            FrameAction::Record(_) => Decision::Record,
            FrameAction::Submit => Decision::Submit,
            FrameAction::Present => Decision::Present,
            FrameAction::Finished => Decision::Finish,
            FrameAction::Skip { reason, reconfigure } => Decision::Skip { reason, reconfigure },
            FrameAction::Fatal(error) => Decision::Fail(error),
            FrameAction::Ignored => Decision::Ignore,
        }
    }

    /// Whether the action has the backend work on the surface: acquire an
    /// image, record into it, or configure the surface again.
    pub open spec fn touches_surface(self) -> bool {
        match self {
            FrameAction::Acquire => true,
            FrameAction::Record(_) => true,
            FrameAction::Skip { reason, reconfigure } => reconfigure,
            _ => false,
        }
    }
}

/// What the backend has to do after the window changed its size.
#[derive(Clone, Copy, Debug, PartialEq, Eq)]
pub enum ResizeAction {
    /// Apply this configuration to the presentation surface, then ask the
    /// window for a redraw.
    Reconfigure(SurfaceConfig),
    /// The surface has no area now. Leave it as it is: no frame is drawn
    /// until a size with area arrives.
    Suspend,
    /// A frame is in flight. The size was not taken: report it again when
    /// the frame has ended.
    Busy,
}

/// A mesh that one indexed draw call can draw: it is well-formed and has
/// at least one triangle.
pub open spec fn drawable(mesh: Mesh) -> bool {
    mesh.well_formed() && mesh.indices.len() > 0 && mesh.vertices.len() > 0
}

/// The state of the drawing layer: the configuration of the surface, the
/// background colour, the commands of the frame that is being put together,
/// and where the frame in flight stands.
#[derive(Debug, PartialEq, Eq)]
pub struct GpuRenderer {
    config: SurfaceConfig,
    background: Color,
    commands: DrawCommandBuffer,
    frame: FrameController,
}

impl GpuRenderer {
    #[verifier::type_invariant]
    closed spec fn coherent(&self) -> bool {
        &&& forall|i: int| 0 <= i < self.commands@.len() ==> drawable(#[trigger] self.commands@[i])
        &&& self.frame.state != FrameState::Idle ==> self.config.size().presentable()
    }

    /// The configuration of the surface.
    pub closed spec fn surface(&self) -> SurfaceConfig {
        self.config
    }

    /// The most recently observed size of the surface.
    pub open spec fn size(&self) -> SurfaceSize {
        self.surface().size()
    }

    /// The colour that the next pass clears to.
    pub closed spec fn clear_color(&self) -> Color {
        self.background
    }

    /// The commands of the frame that is being put together, in the order
    /// in which they were drawn.
    pub closed spec fn pending(&self) -> Seq<Mesh> {
        self.commands@
    }

    /// Where the frame in flight stands.
    pub closed spec fn controller(&self) -> FrameController {
        self.frame
    }

    /// Everything but the pending commands is the same in both.
    pub open spec fn same_settings(&self, other: &GpuRenderer) -> bool {
        &&& self.surface() == other.surface()
        &&& self.clear_color() == other.clear_color()
        &&& self.controller() == other.controller()
    }

    /// The commands that are left of `pending` after `decision`: only a
    /// frame that is recorded takes its commands with it. A frame that is
    /// skipped leaves them for the next redraw, and so does one that fails.
    pub open spec fn pending_after(decision: Decision, pending: Seq<Mesh>) -> Seq<Mesh> {
        if decision == Decision::Record {
            Seq::empty()
        } else {
            pending
        }
    }

    /// One call of [`GpuRenderer::advance_frame`] with `event` may lead from
    /// `before` to `self` and answer `action`.
    ///
    /// The size of the surface and the background colour stay. The
    /// lifecycle moves as [`FrameController::next`] says. Only a pass that is
    /// to be recorded takes the pending commands: it carries the background
    /// colour and all of them, in the order in which they were drawn. The
    /// backend is sent to the surface only while the surface has area.
    pub open spec fn advanced(
        &self,
        before: &GpuRenderer,
        event: FrameEvent,
        action: FrameAction,
    ) -> bool {
        &&& self.surface() == before.surface()
        &&& self.clear_color() == before.clear_color()
        &&& (self.controller(), action.decision()) == before.controller().next(
            event,
            before.size().presentable(),
        )
        &&& self.pending() == Self::pending_after(action.decision(), before.pending())
        &&& action.touches_surface() ==> before.size().presentable()
        &&& action matches FrameAction::Record(pass) ==> pass.carries(
            before.clear_color(),
            before.pending(),
        )
    }

    /// One call of [`GpuRenderer::resize`] with `size` may lead from
    /// `before` to `self` and answer `action`. Between two frames the size is
    /// taken; while a frame is in flight nothing changes.
    pub open spec fn resized(
        &self,
        before: &GpuRenderer,
        size: SurfaceSize,
        action: ResizeAction,
    ) -> bool {
        &&& self.clear_color() == before.clear_color()
        &&& self.pending() == before.pending()
        &&& self.controller() == before.controller()
        &&& if before.controller().state == FrameState::Idle {
            &&& self.surface() == before.surface().with_size(size)
            &&& action == if size.presentable() {
                ResizeAction::Reconfigure(self.surface())
            } else {
                ResizeAction::Suspend
            }
        } else {
            &&& self.surface() == before.surface()
            &&& action == ResizeAction::Busy
        }
    }

    /// A drawing call that gave `mesh` led from `before` to `self`: the
    /// mesh was appended and nothing else has changed.
    pub open spec fn drew(&self, before: &GpuRenderer, mesh: Mesh) -> bool {
        &&& self.same_settings(before)
        &&& self.pending() == before.pending().push(mesh)
    }

    /// A drawing call that gave nothing led from `before` to `self`:
    /// nothing has changed.
    pub open spec fn drew_nothing(&self, before: &GpuRenderer) -> bool {
        &&& self.same_settings(before)
        &&& self.pending() == before.pending()
    }

    /// The renderer for a surface that was created with `config`: white
    /// background, nothing drawn yet, no frame in flight.
    pub fn new(config: SurfaceConfig) -> (r: GpuRenderer)
        ensures
            r.surface() == config,
            r.clear_color() == Color::opaque(
                crate::color::CHANNEL_ONE,
                crate::color::CHANNEL_ONE,
                crate::color::CHANNEL_ONE,
            ),
            r.pending() == Seq::<Mesh>::empty(),
            r.controller() == FrameController::idle(),
    {
        GpuRenderer {
            config,
            background: Color::white(),
            commands: DrawCommandBuffer::new(),
            frame: FrameController::new(),
        }
    }

    /// The most recently observed size of the surface.
    pub fn surface_size(&self) -> (s: SurfaceSize)
        ensures
            s == self.size(),
    {
        self.config.current_size()
    }

    /// The configuration of the surface.
    pub fn surface_config(&self) -> (c: SurfaceConfig)
        ensures
            c == self.surface(),
    {
        self.config
    }

    /// What the presentation surface is to be configured with, at creation
    /// and whenever a skipped frame asks for it: the current configuration,
    /// or nothing while the surface has no area.
    pub fn configure_action(&self) -> (action: ConfigureAction)
        ensures
            action == self.surface().action(),
    {
        self.config.current_action()
    }

    /// The colour that the next pass clears to.
    pub fn background(&self) -> (c: Color)
        ensures
            c == self.clear_color(),
    {
        self.background
    }

    /// Where the frame in flight stands.
    pub fn state(&self) -> (s: FrameState)
        ensures
            s == self.controller().state,
    {
        self.frame.state
    }

    /// The number of commands drawn since the last frame took them.
    pub fn pending_commands(&self) -> (n: usize)
        ensures
            n == self.pending().len(),
    {
        self.commands.len()
    }

    /// Sets the colour that every pass from now on clears to.
    pub fn set_background(&mut self, color: Color)
        ensures
            final(self).clear_color() == color,
            final(self).surface() == old(self).surface(),
            final(self).pending() == old(self).pending(),
            final(self).controller() == old(self).controller(),
    {
        proof {
            use_type_invariant(&*self);
        }
        self.background = color;
    }

    /// Appends a command that is known to be drawable.
    fn submit(&mut self, command: DrawCommand)
        requires
            drawable(command@),
        ensures
            final(self).drew(old(self), command@),
    {
        proof {
            use_type_invariant(&*self);
        }
        let mut commands = DrawCommandBuffer::new();
        core::mem::swap(&mut commands, &mut self.commands);
        commands.push(command);
        self.commands = commands;
    }

    /// Draws a line from `start` to `end`, `width` pixels thick.
    ///
    /// Nothing is drawn on a surface without area, and nothing for a line
    /// that starts where it ends.
    pub fn draw_line(&mut self, start: Point, end: Point, width: i32, color: Color) -> (r: Result<
        (),
        DrawError,
    >)
        ensures
            !old(self).size().presentable() <==> r == Err::<(), DrawError>(
                DrawError::SurfaceNotPresentable,
            ),
            old(self).size().presentable() && start == end <==> r == Err::<(), DrawError>(
                DrawError::ZeroLengthLine,
            ),
            old(self).size().presentable() && start != end <==> r is Ok,
            r is Ok ==> final(self).drew(
                old(self),
                line_mesh(start, end, width as int, color, old(self).size()),
            ),
            r is Err ==> final(self).drew_nothing(old(self)),
    {
        let surface = self.config.current_size();
        if !surface.is_presentable() {
            return Err(DrawError::SurfaceNotPresentable);
        }
        let command = line(start, end, width, color, surface);
        if command.is_empty() {
            return Err(DrawError::ZeroLengthLine);
        }
        self.submit(command);
        Ok(())
    }

    /// Draws the triangle at `pos` with its apex `size` pixels below `pos`
    /// and its base `size` pixels above.
    ///
    /// Nothing is drawn on a surface without area.
    pub fn draw_triangle(&mut self, pos: Point, size: i32, color: Color) -> (r: Result<
        (),
        DrawError,
    >)
        ensures
            !old(self).size().presentable() <==> r == Err::<(), DrawError>(
                DrawError::SurfaceNotPresentable,
            ),
            old(self).size().presentable() <==> r is Ok,
            r is Ok ==> final(self).drew(
                old(self),
                triangle_mesh(pos, size as int, color, old(self).size()),
            ),
            r is Err ==> final(self).drew_nothing(old(self)),
    {
        let surface = self.config.current_size();
        if !surface.is_presentable() {
            return Err(DrawError::SurfaceNotPresentable);
        }
        let command = triangle(pos, size, color, surface);
        self.submit(command);
        Ok(())
    }

    /// Draws the axis-aligned box with its centre at `pos` and the full
    /// extents `size`.
    ///
    /// Nothing is drawn on a surface without area.
    pub fn draw_rectangle(&mut self, pos: Point, size: Extent, color: Color) -> (r: Result<
        (),
        DrawError,
    >)
        ensures
            !old(self).size().presentable() <==> r == Err::<(), DrawError>(
                DrawError::SurfaceNotPresentable,
            ),
            old(self).size().presentable() <==> r is Ok,
            r is Ok ==> final(self).drew(
                old(self),
                rectangle_mesh(pos, size, color, old(self).size()),
            ),
            r is Err ==> final(self).drew_nothing(old(self)),
    {
        let surface = self.config.current_size();
        if !surface.is_presentable() {
            return Err(DrawError::SurfaceNotPresentable);
        }
        let command = rectangle(pos, size, color, surface);
        self.submit(command);
        Ok(())
    }

    /// Draws the circle around `pos` as a fan of `segments` triangles.
    ///
    /// Nothing is drawn on a surface without area, and nothing for a number
    /// of segments below [`MIN_SEGMENTS`] or above [`MAX_SEGMENTS`].
    pub fn draw_circle(&mut self, pos: Point, radius: i32, color: Color, segments: u16) -> (r:
        Result<(), DrawError>)
        ensures
            !old(self).size().presentable() <==> r == Err::<(), DrawError>(
                DrawError::SurfaceNotPresentable,
            ),
            old(self).size().presentable() && segments < MIN_SEGMENTS <==> r == Err::<
                (),
                DrawError,
            >(DrawError::TooFewSegments),
            old(self).size().presentable() && segments > MAX_SEGMENTS <==> r == Err::<
                (),
                DrawError,
            >(DrawError::TooManySegments),
            old(self).size().presentable() && MIN_SEGMENTS <= segments <= MAX_SEGMENTS <==> r
                is Ok,
            r is Ok ==> final(self).drew(
                old(self),
                circle_mesh(pos, radius as int, color, segments as int, old(self).size()),
            ),
            r is Err ==> final(self).drew_nothing(old(self)),
    {
        let surface = self.config.current_size();
        if !surface.is_presentable() {
            return Err(DrawError::SurfaceNotPresentable);
        }
        match circle(pos, radius, color, segments, surface) {
            Ok(command) => {
                self.submit(command);
                Ok(())
            },
            Err(error) => Err(error),
        }
    }

    /// Takes in the new size of the window.
    ///
    /// Between two frames the size becomes the size of the surface, and the
    /// answer says whether the surface is to be configured with it or has no
    /// area. While a frame is in flight the size is not taken.
    pub fn resize(&mut self, size: SurfaceSize) -> (action: ResizeAction)
        ensures
            final(self).resized(old(self), size, action),
    {
        broadcast use SurfaceConfig::with_size_keeps_the_rest;

        proof {
            use_type_invariant(&*self);
        }
        if !self.frame.is_idle() {
            return ResizeAction::Busy;
        }
        let mut config = self.config;
        let configure = config.configure(size);
        self.config = config;
        match configure {
            ConfigureAction::Apply(applied) => ResizeAction::Reconfigure(applied),
            ConfigureAction::Suspend => ResizeAction::Suspend,
        }
    }

    /// Takes in what the backend reports and says what it has to do next.
    ///
    /// The lifecycle moves as [`FrameController::next`] says. When the pass
    /// is to be recorded, the action carries the background colour and all
    /// pending commands, in the order in which they were drawn, and none is
    /// left pending. On every other answer, a skipped or failed frame
    /// included, the pending commands stay as they were. The size of the
    /// surface and the background colour never change. The backend is sent to
    /// the surface only while the surface has area.
    pub fn advance_frame(&mut self, event: FrameEvent) -> (action: FrameAction)
        ensures
            final(self).advanced(old(self), event, action),
    {
        proof {
            use_type_invariant(&*self);
        }
        let presentable = self.config.is_presentable();
        let mut frame = self.frame;
        let decision = frame.advance(event, presentable);
        self.frame = frame;
        match decision {
            Decision::Acquire => FrameAction::Acquire,
            Decision::Record => {
                let mut commands = DrawCommandBuffer::new();
                core::mem::swap(&mut commands, &mut self.commands);
                let commands = commands.drain();
                assert forall|i: int| 0 <= i < commands@.len() implies drawable(
                    #[trigger] commands@[i]@,
                ) by {
                    assert(meshes(commands@)[i] == commands@[i]@);
                }
                FrameAction::Record(PassPlan { clear: self.background, commands })
            },
            Decision::Submit => FrameAction::Submit,
            Decision::Present => FrameAction::Present,
            Decision::Finish => FrameAction::Finished,
            Decision::Skip { reason, reconfigure } => FrameAction::Skip { reason, reconfigure },
            Decision::Fail(error) => FrameAction::Fatal(error),
            Decision::Ignore => FrameAction::Ignored,
        }
    }

    /// A frame that was skipped is tried again at the next redraw: when no
    /// image could be acquired and the frame was skipped, the surface, the
    /// background and the pending commands are as they were, no frame is in
    /// flight, and the next redraw whose image arrives records the very pass
    /// that the skipped frame would have recorded.
    pub proof fn skipped_frame_is_tried_again(
        acquiring: GpuRenderer,
        failure: FrameEvent,
        skipped: GpuRenderer,
        skip: FrameAction,
        again: GpuRenderer,
        acquire: FrameAction,
        recording: GpuRenderer,
        record: FrameAction,
    )
        requires
            acquiring.controller().state == FrameState::Acquiring,
            acquiring.size().presentable(),
            failure is AcquireFailed,
            skipped.advanced(&acquiring, failure, skip),
            skip is Skip,
            again.advanced(&skipped, FrameEvent::RedrawRequested, acquire),
            recording.advanced(&again, FrameEvent::ImageAcquired, record),
        ensures
            skipped.surface() == acquiring.surface(),
            skipped.clear_color() == acquiring.clear_color(),
            skipped.pending() == acquiring.pending(),
            skipped.controller().state == FrameState::Idle,
            acquire == FrameAction::Acquire,
            record matches FrameAction::Record(pass) && pass.carries(
                acquiring.clear_color(),
                acquiring.pending(),
            ),
            recording.pending() == Seq::<Mesh>::empty(),
    {
    }

    /// Resizing twice in a row to the same size leaves the reported size,
    /// and everything else, as the first call left it, and both calls give
    /// the same answer. Neither call can fail.
    pub proof fn resize_is_idempotent(
        before: GpuRenderer,
        size: SurfaceSize,
        once: GpuRenderer,
        first: ResizeAction,
        twice: GpuRenderer,
        second: ResizeAction,
    )
        requires
            once.resized(&before, size, first),
            twice.resized(&once, size, second),
        ensures
            twice.size() == once.size(),
            twice.surface().pixel_format() == before.surface().pixel_format(),
            twice.surface().mode() == before.surface().mode(),
            twice.same_settings(&once),
            twice.pending() == once.pending(),
            second == first,
    {
        broadcast use SurfaceConfig::with_size_keeps_the_rest;

        if before.controller().state == FrameState::Idle {
            assert(once.surface().with_size(size) == once.surface());
        }
    }

    /// What is drawn later is recorded later: when `first` and then
    /// `second` were drawn, the pass that takes the pending commands draws
    /// everything that was pending before in its old order, then `first`, then
    /// `second`. Wherever both cover a place, `second` is the one that shows
    /// there.
    pub proof fn later_draws_land_on_top(
        before: GpuRenderer,
        first: Mesh,
        between: GpuRenderer,
        second: Mesh,
        after: GpuRenderer,
        pass: PassPlan,
        covers: spec_fn(Mesh) -> bool,
    )
        requires
            between.drew(&before, first),
            after.drew(&between, second),
            meshes(pass.commands@) == after.pending(),
            covers(first),
            covers(second),
        ensures
            ({
                let n = before.pending().len() as int;
                &&& pass.commands@.len() == n + 2
                &&& forall|i: int| 0 <= i < n ==> (#[trigger] pass.commands@[i])@ == before.pending()[i]
                &&& pass.commands@[n]@ == first
                &&& pass.commands@[n + 1]@ == second
                &&& on_top(meshes(pass.commands@), covers) == Some(n + 1)
            }),
    {
        let n = before.pending().len() as int;
        assert(meshes(pass.commands@).len() == n + 2);
        assert forall|i: int| 0 <= i < n + 2 implies (#[trigger] pass.commands@[i])@
            == after.pending()[i] by {
            assert(meshes(pass.commands@)[i] == pass.commands@[i]@);
        }
        assert(meshes(pass.commands@).last() == second);
    }
}

} // verus!
