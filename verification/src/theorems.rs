//! What holds of the bridge over whole runs: its invariant, and the laws of
//! painting, registering, resizing and destroying.

use vstd::prelude::*;
use crate::command::{
    lemma_paint_count_concat, lemma_set_size_count_concat, paint_count, set_size_count, Command,
};
use crate::error::BridgeError;
use crate::input::{button_command, input_commands, move_commands, wheel_commands, FrameInput};
use crate::surface::{valid_size, GpuObjects, OffscreenSurface, FRAMEBUFFER_COMPLETE};
use crate::widget::{dirty_count, DisplayHandle, Phase, WidgetState};

verus! {

proof fn lemma_paint_count_single(command: Command)
    ensures
        paint_count(seq![command]) == if command == Command::Paint {
            1nat
        } else {
            0nat
        },
{
    let single = seq![command];
    assert(single.drop_last() =~= Seq::<Command>::empty());
    assert(paint_count(single.drop_last()) == 0);
    assert(single.last() == command);
}

proof fn lemma_set_size_count_short(commands: Seq<Command>)
    requires
        commands.len() <= 1,
    ensures
        set_size_count(commands) == if commands.len() == 1 && commands[0] is SetSize {
            1nat
        } else {
            0nat
        },
{
    if commands.len() == 1 {
        assert(commands.drop_last() =~= Seq::<Command>::empty());
        assert(set_size_count(commands.drop_last()) == 0);
    }
}

/// A surface's repaint holds exactly one paint.
pub proof fn lemma_surface_paints_once(surface: OffscreenSurface)
    ensures
        paint_count(surface.paint_commands()) == 1,
{
    let bind = Command::BindFramebuffer { framebuffer: surface.framebuffer };
    assert(surface.paint_commands() =~= seq![bind] + seq![Command::Paint] + seq![
        Command::UnbindFramebuffer,
    ]);
    lemma_paint_count_single(bind);
    lemma_paint_count_single(Command::Paint);
    lemma_paint_count_single(Command::UnbindFramebuffer);
    lemma_paint_count_concat(seq![bind], seq![Command::Paint]);
    lemma_paint_count_concat(seq![bind] + seq![Command::Paint], seq![Command::UnbindFramebuffer]);
}

/// A size that is not positive is refused at once, before any command to
/// the engine or the GPU exists, and whatever else is offered with it. A
/// positive size with a free loader slot is accepted, the startup commands
/// carry exactly that size, and complete objects then make the bridge
/// active with a surface of that size.
pub proof fn lemma_creation_judges_size_first(
    width: i32,
    height: i32,
    loader_bound: bool,
    objects: GpuObjects,
    status: u32,
)
    ensures
        !valid_size(width, height) ==> {
            &&& WidgetState::new_spec(width, height, loader_bound) == Err::<
                WidgetState,
                BridgeError,
            >(BridgeError::InvalidSize)
            &&& OffscreenSurface::create_spec(width, height, objects, status) == Err::<
                OffscreenSurface,
                BridgeError,
            >(BridgeError::InvalidSize)
        },
        valid_size(width, height) && !loader_bound ==> {
            &&& WidgetState::new_spec(width, height, loader_bound) matches Ok(state)
            &&& state.wf()
            &&& state.startup_spec() matches Ok(commands)
            &&& commands[1] == (Command::EngineNew { width, height })
            &&& commands[2] == (Command::CreateSurface { width, height })
            &&& (objects.all_named() && status == FRAMEBUFFER_COMPLETE ==> {
                &&& state.activate_spec(objects, status) matches Ok(active)
                &&& active.surface() matches Some(surface)
                &&& surface.wf()
                &&& surface.width == width
                &&& surface.height == height
                &&& active.display() is None
            })
        },
{
}

/// Every operation keeps a well-formed bridge well-formed.
pub proof fn lemma_operations_keep_wf(
    state: WidgetState,
    objects: GpuObjects,
    status: u32,
    handle: DisplayHandle,
    width: i32,
    height: i32,
    input: FrameInput,
)
    requires
        state.wf(),
    ensures
        state.activate_spec(objects, status) matches Ok(next) ==> next.wf(),
        state.register_spec(handle) matches Ok((next, _)) ==> next.wf(),
        state.resize_spec(width, height).next.wf(),
        state.show_spec(input).next.wf(),
        state.replace_surface_spec(objects, status).next.wf(),
        state.destroy_spec().next.wf(),
{
}

/// The life cycle only moves forward: construction makes an uninitialized
/// bridge active, destruction makes an active one destroyed, and no other
/// operation changes the phase.
pub proof fn lemma_phase_moves_forward(
    state: WidgetState,
    objects: GpuObjects,
    status: u32,
    handle: DisplayHandle,
    width: i32,
    height: i32,
    input: FrameInput,
)
    ensures
        state.activate_spec(objects, status) matches Ok(next) ==> state.phase()
            == Phase::Uninitialized && next.phase() == Phase::Active,
        state.register_spec(handle) matches Ok((next, _)) ==> next.phase() == state.phase(),
        state.resize_spec(width, height).next.phase() == state.phase(),
        state.show_spec(input).next.phase() == state.phase(),
        state.replace_surface_spec(objects, status).next.phase() == state.phase(),
        state.destroy_spec().outcome is Ok ==> state.phase() == Phase::Active
            && state.destroy_spec().next.phase() == Phase::Destroyed,
        state.destroy_spec().outcome is Err ==> state.destroy_spec().next == state,
{
}

/// Registering a display handle a second time changes nothing and answers
/// the handle of the first time.
pub proof fn lemma_register_is_idempotent(
    state: WidgetState,
    first: DisplayHandle,
    second: DisplayHandle,
)
    requires
        state.is_active(),
    ensures
        state.register_spec(first) matches Ok((registered, kept)) && {
            &&& registered.display() == Some(kept)
            &&& (state.display() is None ==> kept == first)
            &&& registered.surface() == state.surface()
            &&& registered.register_spec(second) == Ok::<(WidgetState, DisplayHandle), BridgeError>(
                (registered, kept),
            )
        },
{
}

/// A frame paints once if the engine is dirty and not at all if it is not.
pub proof fn lemma_frame_paints_iff_dirty(state: WidgetState, dirty: bool)
    requires
        state.is_active(),
    ensures
        state.paint_spec(dirty) matches Ok(commands) && paint_count(commands) == if dirty {
            1nat
        } else {
            0nat
        },
{
    if dirty {
        lemma_surface_paints_once(state.surface().unwrap());
    }
}

/// Over any run of frames, the paints issued are as many as the frames in
/// which the engine was dirty.
pub proof fn lemma_paints_match_dirty_frames(state: WidgetState, schedule: Seq<bool>)
    requires
        state.is_active(),
    ensures
        paint_count(state.frames_spec(schedule)) == dirty_count(schedule),
    decreases schedule.len(),
{
    if schedule.len() > 0 {
        lemma_paints_match_dirty_frames(state, schedule.drop_last());
        lemma_frame_paints_iff_dirty(state, schedule.last());
        lemma_paint_count_concat(
            state.frames_spec(schedule.drop_last()),
            state.paint_spec(schedule.last()).unwrap(),
        );
    }
}

/// Forwarded input never holds a size update.
pub proof fn lemma_input_sets_no_size(input: FrameInput)
    ensures
        set_size_count(input_commands(input)) == 0,
{
    if input.hovered {
        let moves = move_commands(input.pointer, input.origin);
        let wheel = wheel_commands(input.scroll);
        let buttons = seq![button_command(input.buttons)];
        lemma_set_size_count_short(moves);
        lemma_set_size_count_short(wheel);
        lemma_set_size_count_short(buttons);
        lemma_set_size_count_concat(moves, wheel);
        lemma_set_size_count_concat(moves + wheel, buttons);
    } else {
        lemma_set_size_count_short(input_commands(input));
    }
}

/// A drawn size that differs from the engine's gives exactly one size
/// update, with the new size, and the new size is what the bridge then
/// holds; the same size gives none and changes nothing. This holds of
/// `resize` and of a whole `show` frame alike.
pub proof fn lemma_resize_updates_once(state: WidgetState, input: FrameInput)
    requires
        state.is_active(),
    ensures
        state.resize_spec(input.width, input.height).outcome matches Ok(commands) && {
            &&& state.size_changed(input.width, input.height) ==> commands =~= seq![
                Command::SetSize { width: input.width, height: input.height },
            ]
            &&& !state.size_changed(input.width, input.height) ==> commands.len() == 0
        },
        state.show_spec(input).outcome matches Ok(commands) && set_size_count(commands)
            == if state.size_changed(input.width, input.height) {
            1nat
        } else {
            0nat
        },
        state.show_spec(input).next == state.resize_spec(input.width, input.height).next,
        state.show_spec(input).next.width == input.width,
        state.show_spec(input).next.height == input.height,
        state.show_spec(input).next.stage == state.stage,
        !state.size_changed(input.width, input.height) ==> state.show_spec(input).next == state,
        !state.show_spec(input).next.size_changed(input.width, input.height),
{
    let sizes = state.size_commands(input.width, input.height);
    lemma_set_size_count_short(sizes);
    lemma_input_sets_no_size(input);
    lemma_set_size_count_concat(sizes, input_commands(input));
}

/// A size update alone leaves the surface as it was allocated. Once the
/// surface is replaced it has the size the engine renders for, it is no
/// longer stale, the old objects are the ones deleted, and the display
/// handle has to be registered anew.
pub proof fn lemma_replaced_surface_matches_engine(
    state: WidgetState,
    width: i32,
    height: i32,
    objects: GpuObjects,
    status: u32,
    handle: DisplayHandle,
)
    requires
        state.is_active(),
        objects.all_named(),
        status == FRAMEBUFFER_COMPLETE,
    ensures
        ({
            let resized = state.resize_spec(width, height).next;
            let replaced = resized.replace_surface_spec(objects, status);
            &&& resized.surface() == state.surface()
            &&& resized.display() == state.display()
            &&& valid_size(width, height) ==> {
                &&& replaced.outcome matches Ok(commands)
                &&& commands == state.surface().unwrap().release_commands()
                &&& replaced.next.surface() matches Some(fresh)
                &&& fresh.width == width
                &&& fresh.height == height
                &&& fresh.wf()
                &&& !replaced.next.surface_is_stale()
                &&& replaced.next.display() is None
                &&& replaced.next.register_spec(handle) matches Ok((_, kept))
                &&& kept == handle
            }
            &&& !valid_size(width, height) ==> {
                &&& !resized.surface_is_stale()
                &&& replaced.outcome == Err::<Seq<Command>, BridgeError>(BridgeError::InvalidSize)
                &&& replaced.next == resized
            }
        }),
{
}

/// Destroying works once. It deletes the surface's three objects and tears
/// the engine down; a second call is refused and leaves the bridge as it is,
/// and so is every other operation from then on.
pub proof fn lemma_destroy_works_once(
    state: WidgetState,
    dirty: bool,
    handle: DisplayHandle,
    input: FrameInput,
)
    requires
        state.is_active(),
    ensures
        state.destroy_spec().outcome matches Ok(commands) && commands
            =~= state.surface().unwrap().release_commands() + seq![Command::EngineDestroy],
        ({
            let gone = state.destroy_spec().next;
            &&& gone.phase() == Phase::Destroyed
            &&& gone.surface() is None
            &&& gone.display() is None
            &&& gone.destroy_spec().outcome == Err::<Seq<Command>, BridgeError>(
                BridgeError::AlreadyDestroyed,
            )
            &&& gone.destroy_spec().next == gone
            &&& gone.paint_spec(dirty) is Err
            &&& gone.register_spec(handle) is Err
            &&& gone.show_spec(input).outcome is Err
            &&& gone.show_spec(input).next == gone
            &&& gone.refresh_spec() is Err
            &&& gone.startup_spec() is Err
        }),
{
}

} // verus!
