use vstd::prelude::*;

verus! {

/// Whether the mouse cursor shows; when it does not, the window holds it.
#[derive(Clone, Copy, Debug, PartialEq, Eq)]
pub struct CursorVisible(pub bool);

impl CursorVisible {
    /// A press of the cursor key shows a hidden cursor or hides a shown one.
    /// Returns whether the window is to hold the cursor.
    pub fn update(&mut self, key_pressed: bool) -> (grab: bool)
        ensures
            final(self).0 == (old(self).0 != key_pressed),
            grab == !final(self).0,
    {
        if key_pressed {
            self.0 = !self.0;
        }
        !self.0
    }
}

} // verus!
