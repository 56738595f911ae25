use vstd::prelude::*;

verus! {

/// The interpreter dialect to emulate; they differ in the `BNNN` jump.
#[derive(Clone, Copy, Debug, PartialEq, Eq, Structural)]
pub enum Variant {
    CHIP8,
    CHIP48,
}

/// Number of variants offered in the menu.
pub const VARIANT_COUNT: usize = 2;

impl Variant {
    /// The name shown in the menu.
    pub fn to_str(&self) -> (name: &'static str)
        ensures
            *self == Variant::CHIP8 ==> name@ == "CHIP-8"@,
            *self == Variant::CHIP48 ==> name@ == "CHIP-48"@,
    {
        match self {
            Variant::CHIP8 => "CHIP-8",
            Variant::CHIP48 => "CHIP-48",
        }
    }

    /// The variant at a menu position: the first entry is `CHIP8`, every
    /// other position selects `CHIP48`.
    pub fn to_var(index: usize) -> (variant: Self)
        ensures
            index == 0 ==> variant == Variant::CHIP8,
            index != 0 ==> variant == Variant::CHIP48,
    {
        match index {
            0 => Variant::CHIP8,
            _ => Variant::CHIP48,
        }
    }
}

} // verus!
