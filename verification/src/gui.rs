//! What the user interface remembers between frames: the channel it sends
//! commands through, and the one texture preview it keeps loaded.

use crate::commands::Command;
use crate::device::{Filter, Handle};
use crate::texture::{SamplerId, TextureId};
use vstd::prelude::*;

verus! {

/// `std::sync::mpsc::Sender`, carried through as an opaque value.
#[verifier::external_type_specification]
#[verifier::external_body]
#[verifier::reject_recursive_types(T)]
pub struct ExSender<T>(std::sync::mpsc::Sender<T>);

/// Calls `std::sync::mpsc::Sender::send` and says whether the command was
/// taken. That depends on whether the receiver still lives, so nothing is
/// claimed of the result.
#[verifier::external_body]
fn send_command(sender: &std::sync::mpsc::Sender<Command>, command: Command) -> (sent: bool) {
    sender.send(command).is_ok()
}

/// The preview of a texture that the user interface keeps loaded.
#[derive(Debug, Copy, Clone, PartialEq, Eq, Structural)]
pub struct GuiTexture {
    /// The slot of the texture the preview shows.
    pub loaded_tex: Option<TextureId>,
    /// The handle of the loaded preview in the user interface.
    pub texture: Option<Handle>,
}

/// What to do to show the preview of a texture.
#[derive(Debug, Copy, Clone, PartialEq, Eq, Structural)]
pub enum Preview {
    /// Another texture has the preview in this frame: show nothing.
    Hidden,
    /// The loaded preview shows this texture: show it.
    Show(Handle),
    /// Load the preview with this filter, report it, and show it.
    Load(Filter),
}

/// The filter a preview is loaded with: none for a texture that is read
/// through the sampler that does not filter, linear otherwise.
pub open spec fn preview_filter(sampler: SamplerId) -> Filter {
    if sampler == 0 {
        Filter::Nearest
    } else {
        Filter::Linear
    }
}

impl GuiTexture {
    /// The preview after the user interface has turned to the texture in
    /// slot `id`: a preview of another texture is dropped.
    pub open spec fn turned_to(self, id: TextureId) -> GuiTexture {
        if self.loaded_tex == Some(id) {
            self
        } else {
            GuiTexture { loaded_tex: Some(id), texture: None }
        }
    }

    /// What to do to show the texture in slot `id`, read through `sampler`.
    pub open spec fn preview(self, id: TextureId, sampler: SamplerId) -> Preview {
        match self.turned_to(id).texture {
            Some(handle) => Preview::Show(handle),
            None => Preview::Load(preview_filter(sampler)),
        }
    }

    /// Turns to the texture in slot `id`, read through `sampler`, and says
    /// what to do to show it. The preview is loaded only once for as long as
    /// the user interface stays with the same texture.
    pub fn ui(&mut self, id: TextureId, sampler: SamplerId) -> (preview: Preview)
        ensures
            *final(self) == old(self).turned_to(id),
            preview == old(self).preview(id, sampler),
    {
        let current = match self.loaded_tex {
            Some(loaded) => loaded == id,
            None => false,
        };
        if !current {
            self.loaded_tex = Some(id);
            self.texture = None;
        }
        match self.texture {
            Some(handle) => Preview::Show(handle),
            None => Preview::Load(
                if sampler == 0 {
                    Filter::Nearest
                } else {
                    Filter::Linear
                },
            ),
        }
    }
}

/// The state of the user interface.
pub struct Gui {
    cmd_sender: std::sync::mpsc::Sender<Command>,
    image: GuiTexture,
    image_lock: bool,
}

impl Gui {
    /// The channel end the user interface sends commands through.
    pub closed spec fn sender(self) -> std::sync::mpsc::Sender<Command> {
        self.cmd_sender
    }

    /// The preview that is kept loaded.
    pub closed spec fn image(self) -> GuiTexture {
        self.image
    }

    /// Whether a texture has the preview in this frame.
    pub closed spec fn image_lock(self) -> bool {
        self.image_lock
    }

    /// A user interface that sends its commands through `cmd_sender`, without
    /// a preview.
    pub fn new(cmd_sender: std::sync::mpsc::Sender<Command>) -> (gui: Self)
        ensures
            gui.sender() == cmd_sender,
            gui.image() == (GuiTexture { loaded_tex: None, texture: None }),
            !gui.image_lock(),
    {
        Self { cmd_sender, image: GuiTexture { loaded_tex: None, texture: None }, image_lock: false }
    }

    /// Sends a command to the application. Returns whether the application
    /// still takes commands.
    pub fn send(&self, command: Command) -> (sent: bool) {
        send_command(&self.cmd_sender, command)
    }

    /// Starts the list of textures of a frame: no texture has the preview
    /// yet.
    pub fn begin_textures(&mut self)
        ensures
            !final(self).image_lock(),
            final(self).image() == old(self).image(),
            final(self).sender() == old(self).sender(),
    {
        self.image_lock = false;
    }

    /// Says what to do to show the preview of the texture in slot `id`,
    /// read through `sampler`, whose entry in the list is open. Only the
    /// first open entry of a frame gets the preview.
    pub fn open_texture(&mut self, id: TextureId, sampler: SamplerId) -> (preview: Preview)
        ensures
            final(self).image_lock(),
            final(self).sender() == old(self).sender(),
            old(self).image_lock() ==> preview == Preview::Hidden && final(self).image()
                == old(self).image(),
            !old(self).image_lock() ==> preview == old(self).image().preview(id, sampler)
                && final(self).image() == old(self).image().turned_to(id),
    {
        if !self.image_lock {
            self.image_lock = true;
            self.image.ui(id, sampler)
        } else {
            Preview::Hidden
        }
    }

    /// Remembers the handle of the preview that has been loaded for the
    /// texture the user interface has turned to.
    pub fn preview_loaded(&mut self, handle: Handle)
        ensures
            final(self).image() == (GuiTexture { texture: Some(handle), ..old(self).image() }),
            final(self).image_lock() == old(self).image_lock(),
            final(self).sender() == old(self).sender(),
    {
        self.image.texture = Some(handle);
    }
}

} // verus!
