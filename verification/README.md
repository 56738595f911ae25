# chip8

A CHIP-8 / CHIP-48 interpreter whose core is verified with Verus.

- `src/` is the verified library: memory, the call stack, the screen, the
  control unit with every instruction, the virtual machine's frame loop and
  timers, ROM loading checks and the menu's state machine. `src/machine.rs`
  holds the mathematical model that the contracts speak of, and
  `src/laws.rs` the properties proved of it.
- `app/` is the macroquad program around it: window, keyboard, drawing,
  the buzzer (synthesized with hound), the file dialog and frame pacing.
- `tests/` exercises the library on concrete programs.
