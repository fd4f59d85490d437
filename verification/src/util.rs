//! Plain values shared by the editor and the command line: coordinates, the
//! two modes, status codes, decoded keys, render directives, and the
//! position-setting capability.

use vstd::prelude::*;

verus! {

/// A column and a row, both counted from 1. The same shape serves buffer
/// space (a place in the document) and screen space (a place on the terminal).
#[derive(Debug, Copy, Clone, PartialEq, Eq, Structural)]
pub struct Coordinates {
    pub x: u16,
    pub y: u16,
}

/// What the command line reports after Enter.
#[derive(Debug, Copy, Clone, PartialEq, Eq, PartialOrd, Structural)]
pub enum StatusCodes {
    Exit,
    NoOp,
    Insert,
}

/// The two mutually exclusive states of the editor.
#[derive(Debug, Copy, Clone, PartialEq, Eq, Structural)]
pub enum EditorMode {
    Insert,
    Command,
}

/// A decoded key. Whatever the terminal sends beyond these is `Other`.
#[derive(Debug, Copy, Clone, PartialEq, Eq, Structural)]
pub enum Key {
    Char(char),
    Enter,
    Backspace,
    Escape,
    ArrowLeft,
    ArrowRight,
    ArrowUp,
    ArrowDown,
    Home,
    Other,
}

/// What has to be painted after an operation. Rows and line indices are those
/// of the editor that issued the directive.
#[derive(Debug, Copy, Clone, PartialEq, Eq, Structural)]
pub enum RenderDirective {
    /// Repaint one line of the document, given by its 1-based buffer row.
    RedrawLine(u16),
    /// Repaint the window: the lines whose 0-based indices lie in
    /// `[start, end)`, as far as the document has them.
    RedrawViewport(u16, u16),
    /// Only the status line changed.
    RedrawStatus,
    /// Put the visible cursor at this screen column and row.
    PlaceCursor(u16, u16),
}

/// The capability to have a buffer position and a screen position set.
///
/// The setters are direct: each changes one coordinate and nothing else, and
/// it is the caller who keeps the two spaces in step.
pub trait Position {
    /// Everything the value holds besides its two positions.
    type Rest;

    spec fn buffer_position(&self) -> Coordinates;

    spec fn screen_position(&self) -> Coordinates;

    spec fn rest(&self) -> Self::Rest;

    fn set_buffer_x(&mut self, x: u16)
        ensures
            final(self).buffer_position() == (Coordinates { x, y: old(self).buffer_position().y }),
            final(self).screen_position() == old(self).screen_position(),
            final(self).rest() == old(self).rest(),
    ;

    fn set_buffer_y(&mut self, y: u16)
        ensures
            final(self).buffer_position() == (Coordinates { x: old(self).buffer_position().x, y }),
            final(self).screen_position() == old(self).screen_position(),
            final(self).rest() == old(self).rest(),
    ;

    fn set_screen_x(&mut self, x: u16)
        ensures
            final(self).screen_position() == (Coordinates { x, y: old(self).screen_position().y }),
            final(self).buffer_position() == old(self).buffer_position(),
            final(self).rest() == old(self).rest(),
    ;

    fn set_screen_y(&mut self, y: u16)
        ensures
            final(self).screen_position() == (Coordinates { x: old(self).screen_position().x, y }),
            final(self).buffer_position() == old(self).buffer_position(),
            final(self).rest() == old(self).rest(),
    ;
}

/// Sets the buffer position of `s` to column `x`, row `y`.
pub fn set_buffer_pos<T>(s: &mut T, x: u16, y: u16)
    where
        T: Position,
    ensures
        final(s).buffer_position() == (Coordinates { x, y }),
        final(s).screen_position() == old(s).screen_position(),
        final(s).rest() == old(s).rest(),
{
    s.set_buffer_x(x);
    s.set_buffer_y(y);
}

/// Sets the screen position of `s` to column `x`, row `y`.
pub fn set_screen_pos<T>(s: &mut T, x: u16, y: u16)
    where
        T: Position,
    ensures
        final(s).screen_position() == (Coordinates { x, y }),
        final(s).buffer_position() == old(s).buffer_position(),
        final(s).rest() == old(s).rest(),
{
    s.set_screen_x(x);
    s.set_screen_y(y);
}

} // verus!
