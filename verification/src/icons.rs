//! The icons of the buttons, as characters of the icon font.

use vstd::prelude::*;

verus! {

#[derive(Debug, Clone, Copy, PartialEq, Eq, Hash, Structural)]
pub enum IconType {
    Edit,
    Delete,
}

impl IconType {
    /// The character of the icon font that draws the icon.
    pub open spec fn glyph(self) -> char {
        match self {
            IconType::Edit => '\u{E801}',
            IconType::Delete => '\u{E800}',
        }
    }

    pub fn get_char(&self) -> (glyph: char)
        ensures
            glyph == self.glyph(),
    {
        match self {
            IconType::Edit => '\u{E801}',
            IconType::Delete => '\u{E800}',
        }
    }
}

} // verus!
