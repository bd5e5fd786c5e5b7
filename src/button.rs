use vstd::prelude::*;

use crate::geometry::Rect;

verus! {

/// Space between a button's edge and its label, on each side.
pub const BUTTON_PADDING: u32 = 5;

/// A clickable label. Its rectangle takes the size of the label as last drawn, so it
/// has no area before the first draw.
#[derive(Clone, Copy, Debug)]
pub struct Button {
    pub rect: Rect,
    pub text: &'static str,
}

impl Button {
    pub fn new(x: i32, y: i32, text: &'static str) -> (b: Button)
        ensures
            b.rect == (Rect { x, y, width: 0, height: 0 }),
            b.text == text,
    {
        Button { rect: Rect::new(x, y, 0, 0), text }
    }

    /// Whether a click at (x, y) lands on the button: the caller runs the button's action
    /// exactly when this is `true`, once per click.
    pub fn check_for_click(&self, x: i32, y: i32) -> (clicked: bool)
        ensures
            clicked == self.rect.contains(x as int, y as int),
    {
        self.rect.contains_point(x, y)
    }

    /// Sizes the button around a label drawn `label_width` by `label_height` pixels.
    pub fn fit_label(&mut self, label_width: u32, label_height: u32)
        requires
            label_width <= u32::MAX - 2 * BUTTON_PADDING,
            label_height <= u32::MAX - 2 * BUTTON_PADDING,
        ensures
            final(self).rect == (Rect {
                x: old(self).rect.x,
                y: old(self).rect.y,
                width: (label_width + 2 * BUTTON_PADDING) as u32,
                height: (label_height + 2 * BUTTON_PADDING) as u32,
            }),
            final(self).text == old(self).text,
    {
        self.rect.width = label_width + 2 * BUTTON_PADDING;
        self.rect.height = label_height + 2 * BUTTON_PADDING;
    }

    /// Where the label is drawn: inset by the padding, with the button's own size.
    pub fn label_rect(&self) -> (r: Rect)
        requires
            self.rect.x <= i32::MAX - BUTTON_PADDING,
            self.rect.y <= i32::MAX - BUTTON_PADDING,
        ensures
            r == (Rect {
                x: (self.rect.x + BUTTON_PADDING) as i32,
                y: (self.rect.y + BUTTON_PADDING) as i32,
                width: self.rect.width,
                height: self.rect.height,
            }),
    {
        Rect::new(
            self.rect.x + BUTTON_PADDING as i32,
            self.rect.y + BUTTON_PADDING as i32,
            self.rect.width,
            self.rect.height,
        )
    }
}

} // verus!
