//! What the notification handler makes of the engine's notifications.

use crate::text::same_text;
use vstd::prelude::*;

verus! {

/// A notification, by what the handler does with it.
#[derive(Clone, Copy, Debug, PartialEq, Eq, Structural)]
pub enum Notice {
    /// Lines of the view have changed.
    Update,
    /// The view is to show this position.
    ScrollTo,
    /// A style is defined.
    DefStyle,
    /// A method that the handler does not know. It is ignored, so that an
    /// engine that says more than this client understands does no harm.
    Unknown,
}

/// The notice that a method name stands for.
pub open spec fn notice_of(method: Seq<char>) -> Notice {
    if method == "update"@ {
        Notice::Update
    } else if method == "scroll_to"@ {
        Notice::ScrollTo
    } else if method == "def_style"@ {
        Notice::DefStyle
    } else {
        Notice::Unknown
    }
}

impl Notice {
    /// Whether the screen is painted anew after the notice: where the
    /// text or the position that is shown has changed.
    pub open spec fn repaints(self) -> bool {
        self is Update || self is ScrollTo
    }

    /// Whether the screen is painted anew after the notice.
    pub fn needs_repaint(&self) -> (repaint: bool)
        ensures
            repaint == self.repaints(),
    {
        match self {
            Notice::Update => true,
            Notice::ScrollTo => true,
            _ => false,
        }
    }
}

/// Reads the method name of a notification. Every name is accepted.
pub fn classify(method: &str) -> (notice: Notice)
    ensures
        notice == notice_of(method@),
{
    if same_text(method, "update") {
        Notice::Update
    } else if same_text(method, "scroll_to") {
        Notice::ScrollTo
    } else if same_text(method, "def_style") {
        Notice::DefStyle
    } else {
        Notice::Unknown
    }
}

} // verus!
