//! The bridge itself: the engine's life cycle, its surface, the cached
//! display handle and the size last given to the engine.

use vstd::prelude::*;
use crate::command::Command;
use crate::error::BridgeError;
use crate::input::{forward_input, input_commands, FrameInput};
use crate::surface::{is_valid_size, valid_size, GpuObjects, OffscreenSurface};

verus! {

/// The width, in pixels, that a host without a size of its own starts with.
pub const INITIAL_WIDTH: i32 = 300;

/// The height, in pixels, that a host without a size of its own starts with.
pub const INITIAL_HEIGHT: i32 = 300;

/// The identifier under which the GUI toolkit draws a texture.
#[derive(Clone, Copy, Debug, PartialEq, Eq, Structural)]
pub enum DisplayHandle {
    /// A texture the toolkit allocated itself.
    Managed(u64),
    /// A texture the toolkit was handed.
    User(u64),
}

/// Where the engine is in its life.
#[derive(Clone, Copy, Debug, PartialEq, Eq, Structural)]
pub enum Phase {
    Uninitialized,
    Active,
    Destroyed,
}

/// A phase together with what exists only in that phase.
#[derive(Clone, Copy, Debug, PartialEq, Eq)]
pub enum Stage {
    /// The engine is not constructed yet and no GPU object exists.
    Uninitialized,
    /// The engine lives and renders into `surface`; `display` is the handle
    /// the toolkit gave for the surface's texture, once it was asked.
    Active { surface: OffscreenSurface, display: Option<DisplayHandle> },
    /// The engine is gone and the surface's objects are deleted.
    Destroyed,
}

/// The bridge as a plain value.
pub struct WidgetState {
    /// Width last given to the engine.
    pub width: i32,
    /// Height last given to the engine.
    pub height: i32,
    pub stage: Stage,
}

/// A state after an operation, and what the operation answered.
pub struct Step {
    pub next: WidgetState,
    pub outcome: Result<Seq<Command>, BridgeError>,
}

/// `got` is `want`, command for command or error for error.
pub open spec fn answers(
    got: Result<Vec<Command>, BridgeError>,
    want: Result<Seq<Command>, BridgeError>,
) -> bool {
    match (got, want) {
        (Ok(commands), Ok(wanted)) => commands@ == wanted,
        (Err(error), Err(wanted)) => error == wanted,
        _ => false,
    }
}

/// How many frames of `schedule` are dirty.
pub open spec fn dirty_count(schedule: Seq<bool>) -> nat
    decreases schedule.len(),
{
    if schedule.len() == 0 {
        0
    } else if schedule.last() {
        dirty_count(schedule.drop_last()) + 1
    } else {
        dirty_count(schedule.drop_last())
    }
}

impl WidgetState {
    pub open spec fn phase(self) -> Phase {
        match self.stage {
            Stage::Uninitialized => Phase::Uninitialized,
            Stage::Active { .. } => Phase::Active,
            Stage::Destroyed => Phase::Destroyed,
        }
    }

    pub open spec fn is_active(self) -> bool {
        self.stage is Active
    }

    /// The surface, while there is one.
    pub open spec fn surface(self) -> Option<OffscreenSurface> {
        match self.stage {
            Stage::Active { surface, .. } => Some(surface),
            _ => None,
        }
    }

    /// The cached display handle, while there is one.
    pub open spec fn display(self) -> Option<DisplayHandle> {
        match self.stage {
            Stage::Active { display, .. } => display,
            _ => None,
        }
    }

    /// What holds of every state the bridge can reach: before construction
    /// the requested size is one a surface can have, and a live engine has a
    /// well-formed surface.
    pub open spec fn wf(self) -> bool {
        match self.stage {
            Stage::Uninitialized => valid_size(self.width, self.height),
            Stage::Active { surface, .. } => surface.wf(),
            Stage::Destroyed => true,
        }
    }

    /// What `VtkWidget::new` answers. The size is judged before the loader
    /// slot.
    pub open spec fn new_spec(width: i32, height: i32, loader_bound: bool) -> Result<
        WidgetState,
        BridgeError,
    > {
        if !valid_size(width, height) {
            Err(BridgeError::InvalidSize)
        } else if loader_bound {
            Err(BridgeError::LoaderAlreadyBound)
        } else {
            Ok((WidgetState { width, height, stage: Stage::Uninitialized }))
        }
    }

    /// The calls that construct the engine and allocate its surface.
    pub open spec fn startup_spec(self) -> Result<Seq<Command>, BridgeError> {
        if self.stage is Uninitialized {
            Ok(
                seq![
                    Command::BindLoader,
                    Command::EngineNew { width: self.width, height: self.height },
                    Command::CreateSurface { width: self.width, height: self.height },
                ],
            )
        } else {
            Err(BridgeError::NotUninitialized)
        }
    }

    /// The move from uninitialized to active, on what the GPU allocated.
    pub open spec fn activate_spec(self, objects: GpuObjects, status: u32) -> Result<
        WidgetState,
        BridgeError,
    > {
        if !(self.stage is Uninitialized) {
            Err(BridgeError::NotUninitialized)
        } else {
            match OffscreenSurface::create_spec(self.width, self.height, objects, status) {
                Ok(surface) => Ok(
                    (WidgetState { stage: Stage::Active { surface, display: None }, ..self }),
                ),
                Err(error) => Err(error),
            }
        }
    }

    /// One frame's repaint: the surface's paint commands if the engine is
    /// dirty, nothing if it is not.
    pub open spec fn paint_spec(self, dirty: bool) -> Result<Seq<Command>, BridgeError> {
        match self.stage {
            Stage::Active { surface, .. } => Ok(
                if dirty {
                    surface.paint_commands()
                } else {
                    Seq::empty()
                },
            ),
            _ => Err(BridgeError::NotActive),
        }
    }

    /// All commands of a run of frames with the given dirty flags, frame
    /// after frame. Only defined for a live engine.
    pub open spec fn frames_spec(self, schedule: Seq<bool>) -> Seq<Command>
        recommends
            self.is_active(),
        decreases schedule.len(),
    {
        if schedule.len() == 0 {
            Seq::empty()
        } else {
            self.frames_spec(schedule.drop_last()) + self.paint_spec(schedule.last()).unwrap()
        }
    }

    /// The handle in force once `handle` was offered: the cached one if
    /// there is one, else `handle`.
    pub open spec fn register_spec(self, handle: DisplayHandle) -> Result<
        (WidgetState, DisplayHandle),
        BridgeError,
    > {
        match self.stage {
            Stage::Active { surface, display: Some(cached) } => Ok((self, cached)),
            Stage::Active { surface, display: None } => Ok(
                (
                    WidgetState {
                        stage: Stage::Active { surface, display: Some(handle) },
                        ..self
                    },
                    handle,
                ),
            ),
            _ => Err(BridgeError::NotActive),
        }
    }

    /// Whether a drawn size differs from the one the engine has.
    pub open spec fn size_changed(self, width: i32, height: i32) -> bool {
        width != self.width || height != self.height
    }

    /// The state once the engine has the size `width` by `height`.
    pub open spec fn sized(self, width: i32, height: i32) -> WidgetState {
        WidgetState { width, height, ..self }
    }

    /// The size update for a drawn size: one call if the size changed, none
    /// if it did not.
    pub open spec fn size_commands(self, width: i32, height: i32) -> Seq<Command> {
        if self.size_changed(width, height) {
            seq![Command::SetSize { width, height }]
        } else {
            Seq::empty()
        }
    }

    pub open spec fn resize_spec(self, width: i32, height: i32) -> Step {
        if self.is_active() {
            Step {
                next: self.sized(width, height),
                outcome: Ok(self.size_commands(width, height)),
            }
        } else {
            Step { next: self, outcome: Err(BridgeError::NotActive) }
        }
    }

    /// One frame of presentation: the size update first, then the input.
    pub open spec fn show_spec(self, input: FrameInput) -> Step {
        if self.is_active() {
            Step {
                next: self.sized(input.width, input.height),
                outcome: Ok(
                    self.size_commands(input.width, input.height) + input_commands(input),
                ),
            }
        } else {
            Step { next: self, outcome: Err(BridgeError::NotActive) }
        }
    }

    /// The surface no longer has the size the engine renders for, and that
    /// size is one a surface can have.
    pub open spec fn surface_is_stale(self) -> bool {
        match self.stage {
            Stage::Active { surface, .. } => valid_size(self.width, self.height) && (surface.width
                != self.width || surface.height != self.height),
            _ => false,
        }
    }

    /// The allocation that brings a stale surface back to the engine's
    /// size; nothing for a surface that is not stale.
    pub open spec fn refresh_spec(self) -> Result<Seq<Command>, BridgeError> {
        if !self.is_active() {
            Err(BridgeError::NotActive)
        } else if self.surface_is_stale() {
            Ok(seq![Command::CreateSurface { width: self.width, height: self.height }])
        } else {
            Ok(Seq::empty())
        }
    }

    /// The exchange of the surface for one of the engine's size, made of
    /// freshly allocated objects: the old objects are deleted, and the
    /// display handle, which named the old texture, is forgotten.
    pub open spec fn replace_surface_spec(self, objects: GpuObjects, status: u32) -> Step {
        match self.stage {
            Stage::Active { surface, .. } => match OffscreenSurface::create_spec(
                self.width,
                self.height,
                objects,
                status,
            ) {
                Ok(fresh) => Step {
                    next: WidgetState {
                        stage: Stage::Active { surface: fresh, display: None },
                        ..self
                    },
                    outcome: Ok(surface.release_commands()),
                },
                Err(error) => Step { next: self, outcome: Err(error) },
            },
            _ => Step { next: self, outcome: Err(BridgeError::NotActive) },
        }
    }

    /// The move from active to destroyed: the surface's objects are deleted,
    /// then the engine is torn down.
    pub open spec fn destroy_spec(self) -> Step {
        match self.stage {
            Stage::Active { surface, .. } => Step {
                next: WidgetState { stage: Stage::Destroyed, ..self },
                outcome: Ok(surface.release_commands() + seq![Command::EngineDestroy]),
            },
            Stage::Destroyed => Step { next: self, outcome: Err(BridgeError::AlreadyDestroyed) },
            Stage::Uninitialized => Step { next: self, outcome: Err(BridgeError::NotActive) },
        }
    }
}

/// The bridge between one render engine and the GUI panel that shows it.
#[derive(Debug)]
pub struct VtkWidget {
    width: i32,
    height: i32,
    stage: Stage,
}

impl View for VtkWidget {
    type V = WidgetState;

    closed spec fn view(&self) -> WidgetState {
        WidgetState { width: self.width, height: self.height, stage: self.stage }
    }
}

impl VtkWidget {
    /// Starts a bridge for a surface of `width` by `height` pixels.
    /// `loader_bound` says whether the process-wide loader slot is already
    /// taken. A size that is not positive is refused before anything reaches
    /// the GPU, and a taken slot is refused because it can serve one engine
    /// only.
    pub fn new(width: i32, height: i32, loader_bound: bool) -> (made: Result<
        VtkWidget,
        BridgeError,
    >)
        ensures
            match WidgetState::new_spec(width, height, loader_bound) {
                Ok(state) => made matches Ok(widget) && widget@ == state && widget@.wf(),
                Err(error) => made matches Err(refusal) && refusal == error,
            },
    {
        if !is_valid_size(width, height) {
            Err(BridgeError::InvalidSize)
        } else if loader_bound {
            Err(BridgeError::LoaderAlreadyBound)
        } else {
            Ok(VtkWidget { width, height, stage: Stage::Uninitialized })
        }
    }

    /// The calls that construct the engine and allocate its surface, for the
    /// host to carry out before `activate`.
    pub fn startup_commands(&self) -> (commands: Result<Vec<Command>, BridgeError>)
        ensures
            answers(commands, self@.startup_spec()),
    {
        match self.stage {
            Stage::Uninitialized => {
                let mut commands: Vec<Command> = Vec::new();
                commands.push(Command::BindLoader);
                commands.push(Command::EngineNew { width: self.width, height: self.height });
                commands.push(Command::CreateSurface { width: self.width, height: self.height });
                assert(commands@ =~= self@.startup_spec().unwrap());
                Ok(commands)
            },
            _ => Err(BridgeError::NotUninitialized),
        }
    }

    /// Takes the objects the GPU allocated and the framebuffer status it
    /// reported, and makes the bridge active if the surface is complete.
    /// A refusal leaves the bridge as it was.
    pub fn activate(&mut self, objects: GpuObjects, status: u32) -> (done: Result<
        (),
        BridgeError,
    >)
        ensures
            match old(self)@.activate_spec(objects, status) {
                Ok(state) => done is Ok && final(self)@ == state,
                Err(error) => done == Err::<(), BridgeError>(error) && final(self)@ == old(self)@,
            },
    {
        match self.stage {
            Stage::Uninitialized => {
                match OffscreenSurface::create(self.width, self.height, objects, status) {
                    Ok(surface) => {
                        self.stage = Stage::Active { surface, display: None };
                        Ok(())
                    },
                    Err(error) => Err(error),
                }
            },
            _ => Err(BridgeError::NotUninitialized),
        }
    }

    /// The repaint of one frame. `dirty` is the engine's own report that a
    /// repaint would change pixels.
    pub fn paint_if_dirty(&self, dirty: bool) -> (commands: Result<Vec<Command>, BridgeError>)
        ensures
            answers(commands, self@.paint_spec(dirty)),
    {
        match self.stage {
            Stage::Active { surface, .. } => {
                if dirty {
                    Ok(surface.paint())
                } else {
                    Ok(Vec::new())
                }
            },
            _ => Err(BridgeError::NotActive),
        }
    }

    /// An unconditional repaint, for an engine that reports no dirty flag.
    pub fn paint(&self) -> (commands: Result<Vec<Command>, BridgeError>)
        ensures
            answers(commands, self@.paint_spec(true)),
    {
        self.paint_if_dirty(true)
    }

    /// The display handle cached for the surface's texture, if the toolkit
    /// was asked for one already.
    pub fn texture_id(&self) -> (handle: Option<DisplayHandle>)
        ensures
            handle == self@.display(),
    {
        match self.stage {
            Stage::Active { display, .. } => display,
            _ => None,
        }
    }

    /// Caches `handle` as the display handle of the surface's texture and
    /// answers the handle to draw with. Once a handle is cached it stays:
    /// a later call changes nothing and answers the cached one.
    pub fn register_display_handle(&mut self, handle: DisplayHandle) -> (kept: Result<
        DisplayHandle,
        BridgeError,
    >)
        ensures
            match old(self)@.register_spec(handle) {
                Ok((state, cached)) => {
                    &&& kept == Ok::<DisplayHandle, BridgeError>(cached)
                    &&& final(self)@ == state
                },
                Err(error) => {
                    &&& kept == Err::<DisplayHandle, BridgeError>(error)
                    &&& final(self)@ == old(self)@
                },
            },
    {
        match self.stage {
            Stage::Active { surface, display } => {
                match display {
                    Some(cached) => Ok(cached),
                    None => {
                        self.stage = Stage::Active { surface, display: Some(handle) };
                        Ok(handle)
                    },
                }
            },
            _ => Err(BridgeError::NotActive),
        }
    }

    /// Gives the engine the size the widget was drawn with, if it differs
    /// from the size the engine has.
    pub fn resize(&mut self, width: i32, height: i32) -> (commands: Result<
        Vec<Command>,
        BridgeError,
    >)
        ensures
            answers(commands, old(self)@.resize_spec(width, height).outcome),
            final(self)@ == old(self)@.resize_spec(width, height).next,
    {
        match self.stage {
            Stage::Active { .. } => {
                let mut commands: Vec<Command> = Vec::new();
                if width != self.width || height != self.height {
                    commands.push(Command::SetSize { width, height });
                    self.width = width;
                    self.height = height;
                }
                assert(commands@ =~= old(self)@.size_commands(width, height));
                Ok(commands)
            },
            _ => Err(BridgeError::NotActive),
        }
    }

    /// One frame of presentation, from what the GUI reported of the drawn
    /// widget: the size update if the drawn size changed, then the frame's
    /// input.
    pub fn show(&mut self, input: &FrameInput) -> (commands: Result<Vec<Command>, BridgeError>)
        ensures
            answers(commands, old(self)@.show_spec(*input).outcome),
            final(self)@ == old(self)@.show_spec(*input).next,
    {
        match self.resize(input.width, input.height) {
            Ok(mut commands) => {
                let mut forwarded = forward_input(input);
                commands.append(&mut forwarded);
                Ok(commands)
            },
            Err(error) => Err(error),
        }
    }

    /// Whether the surface has fallen behind the size the engine renders
    /// for and can be allocated anew at that size.
    pub fn surface_is_stale(&self) -> (stale: bool)
        ensures
            stale == self@.surface_is_stale(),
    {
        match self.stage {
            Stage::Active { surface, .. } => is_valid_size(self.width, self.height) && (
            surface.width != self.width || surface.height != self.height),
            _ => false,
        }
    }

    /// The allocation the host makes before `replace_surface`, if the
    /// surface is stale.
    pub fn refresh_commands(&self) -> (commands: Result<Vec<Command>, BridgeError>)
        ensures
            answers(commands, self@.refresh_spec()),
    {
        match self.stage {
            Stage::Active { .. } => {
                let mut commands: Vec<Command> = Vec::new();
                if self.surface_is_stale() {
                    commands.push(
                        Command::CreateSurface { width: self.width, height: self.height },
                    );
                }
                assert(commands@ =~= self@.refresh_spec().unwrap());
                Ok(commands)
            },
            _ => Err(BridgeError::NotActive),
        }
    }

    /// Exchanges the surface for one of the engine's current size, made of
    /// the objects the GPU allocated for it, and answers the deletions of
    /// the old objects. The cached display handle named the old texture and
    /// is dropped: the new texture has to be registered again. A refusal
    /// leaves the bridge as it was.
    pub fn replace_surface(&mut self, objects: GpuObjects, status: u32) -> (commands: Result<
        Vec<Command>,
        BridgeError,
    >)
        ensures
            answers(commands, old(self)@.replace_surface_spec(objects, status).outcome),
            final(self)@ == old(self)@.replace_surface_spec(objects, status).next,
    {
        match self.stage {
            Stage::Active { surface, .. } => {
                match OffscreenSurface::create(self.width, self.height, objects, status) {
                    Ok(fresh) => {
                        self.stage = Stage::Active { surface: fresh, display: None };
                        Ok(surface.release())
                    },
                    Err(error) => Err(error),
                }
            },
            _ => Err(BridgeError::NotActive),
        }
    }

    /// Ends the engine's life: the surface's three objects are deleted and
    /// the engine is torn down. Works once; afterwards it is refused and
    /// nothing is deleted again.
    pub fn destroy(&mut self) -> (commands: Result<Vec<Command>, BridgeError>)
        ensures
            answers(commands, old(self)@.destroy_spec().outcome),
            final(self)@ == old(self)@.destroy_spec().next,
    {
        match self.stage {
            Stage::Active { surface, .. } => {
                let mut commands = surface.release();
                commands.push(Command::EngineDestroy);
                assert(commands@ =~= surface.release_commands() + seq![Command::EngineDestroy]);
                self.stage = Stage::Destroyed;
                Ok(commands)
            },
            Stage::Destroyed => Err(BridgeError::AlreadyDestroyed),
            Stage::Uninitialized => Err(BridgeError::NotActive),
        }
    }

    /// Width last given to the engine.
    pub fn width(&self) -> (width: i32)
        ensures
            width == self@.width,
    {
        self.width
    }

    /// Height last given to the engine.
    pub fn height(&self) -> (height: i32)
        ensures
            height == self@.height,
    {
        self.height
    }

    /// Where the engine is in its life.
    pub fn phase(&self) -> (phase: Phase)
        ensures
            phase == self@.phase(),
    {
        match self.stage {
            Stage::Uninitialized => Phase::Uninitialized,
            Stage::Active { .. } => Phase::Active,
            Stage::Destroyed => Phase::Destroyed,
        }
    }

    /// The surface the engine renders into, while the engine lives.
    pub fn surface(&self) -> (surface: Option<OffscreenSurface>)
        ensures
            surface == self@.surface(),
    {
        match self.stage {
            Stage::Active { surface, .. } => Some(surface),
            _ => None,
        }
    }
}

} // verus!
