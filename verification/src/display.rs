use vstd::prelude::*;

use crate::machine::blank_panel;

verus! {

/// Width of the screen in pixels.
pub const SCREEN_WIDTH: usize = 64;

/// Height of the screen in pixels.
pub const SCREEN_HEIGHT: usize = 32;

/// The monochrome screen, row by row: pixel `(x, y)` is `panel[y * 64 + x]`.
pub struct Display {
    pub panel: [bool; 2048],
    pub width: usize,
    pub height: usize,
}

impl Display {
    /// The dimensions agree with the panel.
    pub open spec fn wf(&self) -> bool {
        self.width == SCREEN_WIDTH && self.height == SCREEN_HEIGHT
    }

    /// Whether the dimensions agree with the panel.
    pub fn has_screen_size(&self) -> (ok: bool)
        ensures
            ok == self.wf(),
    {
        self.width == SCREEN_WIDTH && self.height == SCREEN_HEIGHT
    }

    /// A screen with every pixel off.
    pub fn on() -> (display: Self)
        ensures
            display.wf(),
            display.panel@ == blank_panel(),
    {
        let display = Display { panel: [false; 2048], width: SCREEN_WIDTH, height: SCREEN_HEIGHT };
        assert(display.panel@ =~= blank_panel());
        display
    }

    /// Turns every pixel off; the dimensions stay.
    pub fn clear(&mut self)
        ensures
            final(self).width == old(self).width,
            final(self).height == old(self).height,
            final(self).panel@ == blank_panel(),
    {
        self.panel = [false; 2048];
        assert(self.panel@ =~= blank_panel());
    }

    /// Whether the pixel in column `x`, row `y` is on.
    pub fn pixel(&self, x: usize, y: usize) -> (lit: bool)
        requires
            x < 64,
            y < 32,
        ensures
            lit == self.panel[y * 64 + x],
    {
        self.panel[y * 64 + x]
    }
}

} // verus!
