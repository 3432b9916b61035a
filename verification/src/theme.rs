//! The colours of the window, as plain values that any toolkit can take.

use vstd::prelude::*;

verus! {

/// A colour as its red, green and blue parts.
#[derive(Debug, Clone, Copy, PartialEq, Eq, Structural)]
pub struct Rgb {
    pub r: u8,
    pub g: u8,
    pub b: u8,
}

impl Rgb {
    /// The colour as one number, two hexadecimal digits per part.
    pub open spec fn hex(self) -> nat {
        (self.r * 0x1_0000 + self.g * 0x100 + self.b) as nat
    }
}

/// The one theme of the application: white surfaces, black text and a teal
/// accent.
#[derive(Debug, Clone, Copy, Default)]
pub struct CustomTheme;

impl CustomTheme {
    /// The colour of the window, of containers and of input fields.
    pub fn background_color(&self) -> (color: Rgb)
        ensures
            color.hex() == 0xFFFFFF,
    {
        Rgb { r: 0xFF, g: 0xFF, b: 0xFF }
    }

    /// The colour of ordinary text and of icons in input fields.
    pub fn text_color(&self) -> (color: Rgb)
        ensures
            color.hex() == 0x000000,
    {
        Rgb { r: 0, g: 0, b: 0 }
    }

    /// The colour of buttons, borders and check marks.
    pub fn accent_color(&self) -> (color: Rgb)
        ensures
            color.hex() == 0x008080,
    {
        Rgb { r: 0x00, g: 0x80, b: 0x80 }
    }

    /// The colour of a button under the pointer.
    pub fn hovered_color(&self) -> (color: Rgb)
        ensures
            color.hex() == 0x009999,
    {
        Rgb { r: 0x00, g: 0x99, b: 0x99 }
    }

    /// The colour of the hint in an empty input field.
    pub fn placeholder_color(&self) -> (color: Rgb)
        ensures
            color.hex() == 0x808080,
    {
        Rgb { r: 0x80, g: 0x80, b: 0x80 }
    }

    /// The colour of the text typed into an input field.
    pub fn value_color(&self) -> (color: Rgb)
        ensures
            color.hex() == 0x000000,
    {
        self.text_color()
    }

    /// The colour behind selected text in an input field.
    pub fn selection_color(&self) -> (color: Rgb)
        ensures
            color.hex() == 0x008080,
    {
        self.accent_color()
    }

    /// The colour of the text in an input field that is switched off.
    pub fn disabled_color(&self) -> (color: Rgb)
        ensures
            color.hex() == 0x808080,
    {
        self.placeholder_color()
    }
}

} // verus!
