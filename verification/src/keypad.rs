use vstd::prelude::*;

verus! {

/// What the hexadecimal keypad reports for one frame.
#[derive(Clone, Copy, Debug)]
pub struct Keypad {
    /// `down[k]` holds while key `k` (0 to F) is held down.
    pub down: [bool; 16],
    /// The key pressed during this frame, if any.
    pub pressed: Option<u8>,
}

impl Keypad {
    /// No key held and none pressed.
    pub fn idle() -> (keypad: Self)
        ensures
            forall|k: int| 0 <= k < 16 ==> !#[trigger] keypad.down[k],
            keypad.pressed is None,
    {
        Keypad { down: [false; 16], pressed: None }
    }

    /// Whether key `key` (0 to F) is held down.
    pub fn is_down(&self, key: u8) -> (held: bool)
        requires
            key < 16,
        ensures
            held == self.down[key as int],
    {
        self.down[key as usize]
    }
}

} // verus!
