//! The off-screen render target: one framebuffer, its colour texture and its
//! depth renderbuffer, created together and released together.

use vstd::prelude::*;
use crate::command::Command;
use crate::error::BridgeError;

verus! {

/// The status code with which the GPU reports a framebuffer as complete.
pub const FRAMEBUFFER_COMPLETE: u32 = 0x8CD5;

/// The names of the three objects the GPU allocated for one surface.
#[derive(Clone, Copy, Debug, PartialEq, Eq, Structural)]
pub struct GpuObjects {
    pub framebuffer: u32,
    pub texture: u32,
    pub depth_renderbuffer: u32,
}

/// A complete off-screen render target of a fixed pixel size.
#[derive(Clone, Copy, Debug, PartialEq, Eq, Structural)]
pub struct OffscreenSurface {
    pub framebuffer: u32,
    pub texture: u32,
    pub depth_renderbuffer: u32,
    pub width: i32,
    pub height: i32,
}

/// A size a surface can be allocated with: both sides positive.
pub open spec fn valid_size(width: i32, height: i32) -> bool {
    width > 0 && height > 0
}

/// Whether `width` by `height` is a size a surface can be allocated with.
pub fn is_valid_size(width: i32, height: i32) -> (valid: bool)
    ensures
        valid == valid_size(width, height),
{
    width > 0 && height > 0
}

impl GpuObjects {
    /// None of the three names is the reserved name zero.
    pub open spec fn all_named(self) -> bool {
        self.framebuffer != 0 && self.texture != 0 && self.depth_renderbuffer != 0
    }
}

impl OffscreenSurface {
    /// Every surface that `create` hands out has three real object names and
    /// a positive size.
    pub open spec fn wf(self) -> bool {
        &&& self.framebuffer != 0
        &&& self.texture != 0
        &&& self.depth_renderbuffer != 0
        &&& valid_size(self.width, self.height)
    }

    /// What `create` answers. The size is judged first, then the object
    /// names, then the framebuffer status.
    pub open spec fn create_spec(
        width: i32,
        height: i32,
        objects: GpuObjects,
        status: u32,
    ) -> Result<OffscreenSurface, BridgeError> {
        if !valid_size(width, height) {
            Err(BridgeError::InvalidSize)
        } else if !objects.all_named() {
            Err(BridgeError::NullObject)
        } else if status != FRAMEBUFFER_COMPLETE {
            Err(BridgeError::FramebufferIncomplete)
        } else {
            Ok(
                (OffscreenSurface {
                    framebuffer: objects.framebuffer,
                    texture: objects.texture,
                    depth_renderbuffer: objects.depth_renderbuffer,
                    width,
                    height,
                }),
            )
        }
    }

    /// The commands that release a surface: its three objects, framebuffer
    /// first.
    pub open spec fn release_commands(self) -> Seq<Command> {
        seq![
            Command::DeleteFramebuffer { framebuffer: self.framebuffer },
            Command::DeleteTexture { texture: self.texture },
            Command::DeleteRenderbuffer { renderbuffer: self.depth_renderbuffer },
        ]
    }

    /// The commands of one repaint: bind the surface, paint, unbind.
    pub open spec fn paint_commands(self) -> Seq<Command> {
        seq![
            Command::BindFramebuffer { framebuffer: self.framebuffer },
            Command::Paint,
            Command::UnbindFramebuffer,
        ]
    }

    /// Accepts what the GPU allocated for a `width` by `height` surface,
    /// together with the framebuffer status it reported once texture and
    /// renderbuffer were attached.
    pub fn create(width: i32, height: i32, objects: GpuObjects, status: u32) -> (made: Result<
        OffscreenSurface,
        BridgeError,
    >)
        ensures
            made == Self::create_spec(width, height, objects, status),
            made matches Ok(surface) ==> surface.wf(),
    {
        if !is_valid_size(width, height) {
            Err(BridgeError::InvalidSize)
        } else if objects.framebuffer == 0 || objects.texture == 0 || objects.depth_renderbuffer
            == 0 {
            Err(BridgeError::NullObject)
        } else if status != FRAMEBUFFER_COMPLETE {
            Err(BridgeError::FramebufferIncomplete)
        } else {
            Ok(
                OffscreenSurface {
                    framebuffer: objects.framebuffer,
                    texture: objects.texture,
                    depth_renderbuffer: objects.depth_renderbuffer,
                    width,
                    height,
                },
            )
        }
    }

    /// Lists the deletions that release this surface.
    pub fn release(&self) -> (commands: Vec<Command>)
        ensures
            commands@ == self.release_commands(),
    {
        let mut commands: Vec<Command> = Vec::new();
        commands.push(Command::DeleteFramebuffer { framebuffer: self.framebuffer });
        commands.push(Command::DeleteTexture { texture: self.texture });
        commands.push(Command::DeleteRenderbuffer { renderbuffer: self.depth_renderbuffer });
        assert(commands@ =~= self.release_commands());
        commands
    }

    /// Lists the commands that repaint this surface once.
    pub fn paint(&self) -> (commands: Vec<Command>)
        ensures
            commands@ == self.paint_commands(),
    {
        let mut commands: Vec<Command> = Vec::new();
        commands.push(Command::BindFramebuffer { framebuffer: self.framebuffer });
        commands.push(Command::Paint);
        commands.push(Command::UnbindFramebuffer);
        assert(commands@ =~= self.paint_commands());
        commands
    }
}

} // verus!
