//! Process-wide status flags.

use vstd::prelude::*;

verus! {

/// Flags shared by every component. `render_image` is a dirty flag: it is set
/// when an image redraw is owed and cleared once the image has been drawn.
#[derive(Clone, Copy, Debug, PartialEq, Eq, Structural)]
pub struct Status {
    pub popup_opened: bool,
    /// Set while the image of the hovered item still has to be drawn.
    pub render_image: bool,
}

impl Status {
    /// The flags a fresh process starts with: no popup, one image render owed.
    pub open spec fn initial() -> Status {
        Status { popup_opened: false, render_image: true }
    }

    /// Puts both flags back to their initial values.
    pub fn reset(&mut self)
        ensures
            *final(self) == Status::initial(),
    {
        *self = Status::default();
    }
}

/// The status is kept in the framework's typed store under its own type.
impl typemap::Key for Status {
    type Value = Status;
}

impl Default for Status {
    fn default() -> (status: Status)
        ensures
            status == Status::initial(),
    {
        Status { popup_opened: false, render_image: true }
    }
}

} // verus!
