use vstd::prelude::*;

use crate::variant::VARIANT_COUNT;

verus! {

/// Which screen the emulator shows.
#[derive(Clone, Copy, Debug, PartialEq, Eq, Structural)]
pub enum EmulatorState {
    /// The menu that picks a variant and a ROM.
    Start,
    /// The emulator is closing.
    Quit,
    /// A ROM is running.
    Active,
}

/// The keys that move between screens.
#[derive(Clone, Copy, Debug, PartialEq, Eq, Structural)]
pub enum MenuKey {
    Escape,
    Backspace,
    Other,
}

/// Switches to `state`.
pub fn change_emulator_state(emulator_state: &mut EmulatorState, state: EmulatorState)
    ensures
        *final(emulator_state) == state,
{
    *emulator_state = state;
}

/// Escape quits; Backspace leaves the state as it is; any other key, or
/// none, sets `default_state`.
pub fn quit_emulator(
    emulator_state: &mut EmulatorState,
    key: Option<MenuKey>,
    default_state: EmulatorState,
)
    ensures
        key == Some(MenuKey::Escape) ==> *final(emulator_state) == EmulatorState::Quit,
        key == Some(MenuKey::Backspace) ==> *final(emulator_state) == *old(emulator_state),
        key != Some(MenuKey::Escape) && key != Some(MenuKey::Backspace) ==> *final(emulator_state)
            == default_state,
{
    match key {
        Some(MenuKey::Escape) => change_emulator_state(emulator_state, EmulatorState::Quit),
        Some(MenuKey::Backspace) => {},
        _ => change_emulator_state(emulator_state, default_state),
    }
}

/// Backspace goes back to the menu; Escape leaves the state as it is; any
/// other key, or none, sets `default_state`.
pub fn back_to_main(
    emulator_state: &mut EmulatorState,
    key: Option<MenuKey>,
    default_state: EmulatorState,
)
    ensures
        key == Some(MenuKey::Backspace) ==> *final(emulator_state) == EmulatorState::Start,
        key == Some(MenuKey::Escape) ==> *final(emulator_state) == *old(emulator_state),
        key != Some(MenuKey::Escape) && key != Some(MenuKey::Backspace) ==> *final(emulator_state)
            == default_state,
{
    match key {
        Some(MenuKey::Backspace) => change_emulator_state(emulator_state, EmulatorState::Start),
        Some(MenuKey::Escape) => {},
        _ => change_emulator_state(emulator_state, default_state),
    }
}

/// Moves the menu cursor: down one entry when `down` was pressed, then up
/// one entry when `up` was pressed, wrapping around the list of variants.
/// Stepping down computes `cursor + 1`, and stepping up from a cursor that
/// did not step down computes `cursor + VARIANT_COUNT`; both must fit.
pub fn move_cursor(cursor: usize, down: bool, up: bool) -> (moved: usize)
    requires
        down ==> cursor < usize::MAX,
        up && !down ==> cursor + VARIANT_COUNT <= usize::MAX,
    ensures
        ({
            let after_down = if down {
                (cursor + 1) % (VARIANT_COUNT as int)
            } else {
                cursor as int
            };
            moved == (if up {
                (after_down + VARIANT_COUNT - 1) % (VARIANT_COUNT as int)
            } else {
                after_down
            })
        }),
        down && up && cursor < VARIANT_COUNT ==> moved == cursor,
        (down || up) ==> moved < VARIANT_COUNT,
{
    let mut cursor = cursor;
    if down {
        cursor += 1;
        cursor = cursor % VARIANT_COUNT;
    }
    if up {
        cursor = (cursor + VARIANT_COUNT - 1) % VARIANT_COUNT;
    }
    cursor
}

} // verus!
