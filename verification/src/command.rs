//! The effects the bridge asks its host to perform.

use vstd::prelude::*;

verus! {

/// One call the host makes on behalf of the bridge, either into the render
/// engine or into the GPU. Commands are carried out in the order given.
#[derive(Clone, Copy, Debug, PartialEq, Eq, Structural)]
pub enum Command {
    /// Store the symbol resolver in the process-wide loader slot.
    BindLoader,
    /// Construct the engine with the loader callback and its first size.
    EngineNew { width: i32, height: i32 },
    /// Allocate a framebuffer, an RGBA8 colour texture with linear filtering
    /// and a depth renderbuffer of this size, and attach both to the
    /// framebuffer.
    CreateSurface { width: i32, height: i32 },
    /// Make this framebuffer the current render target.
    BindFramebuffer { framebuffer: u32 },
    /// Let the engine render into the bound framebuffer.
    Paint,
    /// Restore the default render target.
    UnbindFramebuffer,
    /// Tell the engine the pixel size it renders for.
    SetSize { width: i32, height: i32 },
    /// Tell the engine where the pointer is, relative to the widget.
    MouseMove { x: i32, y: i32 },
    /// Tell the engine how far the wheel turned.
    MouseWheel { delta: i32 },
    /// Tell the engine which of the three buttons are held, all at once.
    UpdateMouseDown { primary: bool, secondary: bool, middle: bool },
    /// Tell the engine that the button with this index went down.
    MousePress { button: i32 },
    /// Tell the engine that the button with this index came up.
    MouseRelease { button: i32 },
    /// Delete a framebuffer object.
    DeleteFramebuffer { framebuffer: u32 },
    /// Delete a texture object.
    DeleteTexture { texture: u32 },
    /// Delete a renderbuffer object.
    DeleteRenderbuffer { renderbuffer: u32 },
    /// Tear the engine down.
    EngineDestroy,
}

/// How many of `commands` are [`Command::Paint`].
pub open spec fn paint_count(commands: Seq<Command>) -> nat
    decreases commands.len(),
{
    if commands.len() == 0 {
        0
    } else {
        let rest = paint_count(commands.drop_last());
        if commands.last() == Command::Paint {
            rest + 1
        } else {
            rest
        }
    }
}

/// How many of `commands` are a [`Command::SetSize`].
pub open spec fn set_size_count(commands: Seq<Command>) -> nat
    decreases commands.len(),
{
    if commands.len() == 0 {
        0
    } else {
        let rest = set_size_count(commands.drop_last());
        if commands.last() is SetSize {
            rest + 1
        } else {
            rest
        }
    }
}

/// Counting paints distributes over concatenation.
pub proof fn lemma_paint_count_concat(a: Seq<Command>, b: Seq<Command>)
    ensures
        paint_count(a + b) == paint_count(a) + paint_count(b),
    decreases b.len(),
{
    if b.len() == 0 {
        assert(a + b =~= a);
    } else {
        assert((a + b).drop_last() =~= a + b.drop_last());
        assert((a + b).last() == b.last());
        lemma_paint_count_concat(a, b.drop_last());
    }
}

/// Counting size updates distributes over concatenation.
pub proof fn lemma_set_size_count_concat(a: Seq<Command>, b: Seq<Command>)
    ensures
        set_size_count(a + b) == set_size_count(a) + set_size_count(b),
    decreases b.len(),
{
    if b.len() == 0 {
        assert(a + b =~= a);
    } else {
        assert((a + b).drop_last() =~= a + b.drop_last());
        assert((a + b).last() == b.last());
        lemma_set_size_count_concat(a, b.drop_last());
    }
}

} // verus!
