use vstd::prelude::*;

use crate::keypad::Keypad;
use crate::laws::lemma_bcd_digits;
use crate::fontset::FONTSET;
use crate::machine::{
    Machine, well_sized, nibbles_of, execute_spec, cycle_spec, cycle_safe, store_bcd, store_registers,
    run, draw_cols, draw_rows,
};
use crate::vm::boot_memory;
use crate::variant::Variant;

verus! {

// What each instruction does, stated field by field in terms of the machine
// before it and the opcode's digits. `op` is the instruction in `m.ir`;
// `X = (op / 256) % 16`, `Y = (op / 16) % 16`, `NN = op % 256` and
// `NNN = op % 4096`.

/// The machine after executing the instruction `op` held in `m.ir`.
pub open spec fn after(m: Machine, op: u16, variant: Variant, keys: Keypad, r: u8) -> Machine {
    execute_spec(m, nibbles_of(op), variant, keys, r)
}

/// Digit `X` of an opcode.
pub open spec fn digit_x(op: u16) -> int {
    (op as int / 256) % 16
}

/// Digit `Y` of an opcode.
pub open spec fn digit_y(op: u16) -> int {
    (op as int / 16) % 16
}

/// The program counter after a conditional skip.
pub open spec fn pc_after_skip(m: Machine, skip: bool) -> u16 {
    if skip {
        (m.pc + 2) as u16
    } else {
        m.pc
    }
}

/// Law: `00E0` turns every pixel off and changes nothing else.
pub proof fn law_clear_screen(m: Machine, op: u16, variant: Variant, keys: Keypad, r: u8)
    requires
        well_sized(m),
        m.ir == Some(op),
        op == 0x00E0,
    ensures
        ({
            let m1 = after(m, op, variant, keys, r);
            &&& m1 == (Machine { panel: m1.panel, ..m })
            &&& m1.panel.len() == 2048
            &&& forall|i: int| 0 <= i < 2048 ==> !#[trigger] m1.panel[i]
        }),
{
    assert(nibbles_of(op) == seq![0u8, 0u8, 0xEu8, 0u8]);
}

/// Law: `00EE` continues at the address on top of the stack and drops it.
pub proof fn law_return(m: Machine, op: u16, variant: Variant, keys: Keypad, r: u8)
    requires
        well_sized(m),
        m.ir == Some(op),
        op == 0x00EE,
        m.sp matches Some(i) && i < 16,
    ensures
        ({
            let i = m.sp.unwrap();
            after(m, op, variant, keys, r) == (Machine {
                pc: m.stack[i as int],
                sp: if i > 0 {
                    Some((i - 1) as usize)
                } else {
                    None
                },
                ..m
            })
        }),
{
    assert(nibbles_of(op) == seq![0u8, 0u8, 0xEu8, 0xEu8]);
}

/// Law: the other `0NNN` instructions (machine-code routines) do nothing.
pub proof fn law_machine_code_ignored(m: Machine, op: u16, variant: Variant, keys: Keypad, r: u8)
    requires
        m.ir == Some(op),
        op < 0x1000,
        op != 0x00E0,
        op != 0x00EE,
    ensures
        after(m, op, variant, keys, r) == m,
{
}

/// Law: `1NNN` jumps to `NNN` and changes nothing else.
pub proof fn law_jump(m: Machine, op: u16, variant: Variant, keys: Keypad, r: u8)
    requires
        m.ir == Some(op),
        op / 4096 == 1,
    ensures
        after(m, op, variant, keys, r) == (Machine { pc: op % 4096, ..m }),
{
}

/// Law: `2NNN` jumps to `NNN`, pushing the address of the next
/// instruction into the slot above the top of the stack.
pub proof fn law_call(m: Machine, op: u16, variant: Variant, keys: Keypad, r: u8)
    requires
        m.ir == Some(op),
        op / 4096 == 2,
    ensures
        ({
            let slot: int = match m.sp {
                Some(i) => i + 1,
                None => 0,
            };
            after(m, op, variant, keys, r) == (Machine {
                pc: op % 4096,
                sp: Some(slot as usize),
                stack: m.stack.update(slot, m.pc),
                ..m
            })
        }),
{
}

/// Law: `3XNN` skips the next instruction exactly when `VX == NN`.
pub proof fn law_skip_if_equal_immediate(m: Machine, op: u16, variant: Variant, keys: Keypad, r: u8)
    requires
        m.ir == Some(op),
        op / 4096 == 3,
    ensures
        after(m, op, variant, keys, r) == (Machine {
            pc: pc_after_skip(m, m.regs[digit_x(op)] == op % 256),
            ..m
        }),
{
}

/// Law: `4XNN` skips the next instruction exactly when `VX != NN`.
pub proof fn law_skip_if_not_equal_immediate(m: Machine, op: u16, variant: Variant, keys: Keypad, r: u8)
    requires
        m.ir == Some(op),
        op / 4096 == 4,
    ensures
        after(m, op, variant, keys, r) == (Machine {
            pc: pc_after_skip(m, m.regs[digit_x(op)] != op % 256),
            ..m
        }),
{
}

/// Law: `5XY0` skips the next instruction exactly when `VX == VY`.
pub proof fn law_skip_if_registers_equal(m: Machine, op: u16, variant: Variant, keys: Keypad, r: u8)
    requires
        m.ir == Some(op),
        op / 4096 == 5,
        op % 16 == 0,
    ensures
        after(m, op, variant, keys, r) == (Machine {
            pc: pc_after_skip(m, m.regs[digit_x(op)] == m.regs[digit_y(op)]),
            ..m
        }),
{
}

/// Law: `9XY0` skips the next instruction exactly when `VX != VY`.
pub proof fn law_skip_if_registers_differ(m: Machine, op: u16, variant: Variant, keys: Keypad, r: u8)
    requires
        m.ir == Some(op),
        op / 4096 == 9,
        op % 16 == 0,
    ensures
        after(m, op, variant, keys, r) == (Machine {
            pc: pc_after_skip(m, m.regs[digit_x(op)] != m.regs[digit_y(op)]),
            ..m
        }),
{
}

/// Law: `5XYN` and `9XYN` with `N` other than 0 do nothing.
pub proof fn law_undefined_comparisons_ignored(m: Machine, op: u16, variant: Variant, keys: Keypad, r: u8)
    requires
        m.ir == Some(op),
        op / 4096 == 5 || op / 4096 == 9,
        op % 16 != 0,
    ensures
        after(m, op, variant, keys, r) == m,
{
}

/// Law: `6XNN` sets `VX` to `NN` and changes nothing else.
pub proof fn law_load_immediate(m: Machine, op: u16, variant: Variant, keys: Keypad, r: u8)
    requires
        m.ir == Some(op),
        op / 4096 == 6,
    ensures
        after(m, op, variant, keys, r) == (Machine {
            regs: m.regs.update(digit_x(op), (op % 256) as u8),
            ..m
        }),
{
}

/// Law: `7XNN` adds `NN` to `VX` modulo 256, leaving `VF` and everything
/// else alone.
pub proof fn law_add_immediate(m: Machine, op: u16, variant: Variant, keys: Keypad, r: u8)
    requires
        m.ir == Some(op),
        op / 4096 == 7,
    ensures
        ({
            let x = digit_x(op);
            after(m, op, variant, keys, r) == (Machine {
                regs: m.regs.update(x, ((m.regs[x] + op % 256) % 256) as u8),
                ..m
            })
        }),
{
}

/// Law: `8XY0` to `8XY3` set `VX` to `VY`, `VX | VY`, `VX & VY` and
/// `VX ^ VY`, changing nothing else.
pub proof fn law_register_logic(m: Machine, op: u16, variant: Variant, keys: Keypad, r: u8)
    requires
        m.ir == Some(op),
        op / 4096 == 8,
        op % 16 <= 3,
    ensures
        ({
            let x = digit_x(op);
            let vx = m.regs[x];
            let vy = m.regs[digit_y(op)];
            let v = if op % 16 == 0 {
                vy
            } else if op % 16 == 1 {
                vx | vy
            } else if op % 16 == 2 {
                vx & vy
            } else {
                vx ^ vy
            };
            after(m, op, variant, keys, r) == (Machine { regs: m.regs.update(x, v), ..m })
        }),
{
}

/// The registers other than `VX` and `VF` are as before, and so is
/// everything outside the registers.
pub open spec fn only_vx_and_vf_change(m: Machine, m1: Machine, x: int) -> bool {
    &&& m1 == (Machine { regs: m1.regs, ..m })
    &&& m1.regs.len() == 16
    &&& forall|k: int| 0 <= k < 16 && k != x && k != 15 ==> #[trigger] m1.regs[k] == m.regs[k]
}

/// Law: `8XY4` adds with carry: `VF` is 0 or 1 and, when `X` is not `F`,
/// `VF * 256 + VX` after is `VX + VY` before. When `X` is `F` the flag is
/// what remains.
pub proof fn law_add_with_carry(m: Machine, op: u16, variant: Variant, keys: Keypad, r: u8)
    requires
        well_sized(m),
        m.ir == Some(op),
        op / 4096 == 8,
        op % 16 == 4,
    ensures
        ({
            let x = digit_x(op);
            let sum = m.regs[x] + m.regs[digit_y(op)];
            let m1 = after(m, op, variant, keys, r);
            &&& only_vx_and_vf_change(m, m1, x)
            &&& m1.regs[15] == (if sum > 255 { 1u8 } else { 0u8 })
            &&& x != 15 ==> m1.regs[15] * 256 + m1.regs[x] == sum
        }),
{
    let m1 = after(m, op, variant, keys, r);
    assert(nibbles_of(op)[0] == 8 && nibbles_of(op)[3] == 4);
    assert(m1.regs == m.regs.update(digit_x(op), ((m.regs[digit_x(op)] + m.regs[digit_y(op)]) % 256) as u8).update(
        15,
        if m.regs[digit_x(op)] + m.regs[digit_y(op)] > 255 { 1u8 } else { 0u8 },
    ));
    let x = digit_x(op);
    let sum = m.regs[x] + m.regs[digit_y(op)];
    assert(0 <= sum < 512);
    assert(sum % 256 == if sum > 255 { sum - 256 } else { sum });
}

/// Law: `8XY5` subtracts `VY` from `VX` with borrow: `VF` is 1 exactly when
/// `VX >= VY` and, when `X` is not `F`, `VX` after is `VX - VY + 256 * (1 - VF)`.
pub proof fn law_subtract_with_borrow(m: Machine, op: u16, variant: Variant, keys: Keypad, r: u8)
    requires
        well_sized(m),
        m.ir == Some(op),
        op / 4096 == 8,
        op % 16 == 5,
    ensures
        ({
            let x = digit_x(op);
            let vx = m.regs[x];
            let vy = m.regs[digit_y(op)];
            let m1 = after(m, op, variant, keys, r);
            &&& only_vx_and_vf_change(m, m1, x)
            &&& m1.regs[15] == (if vx >= vy { 1u8 } else { 0u8 })
            &&& x != 15 ==> m1.regs[x] == vx - vy + 256 * (1 - m1.regs[15])
        }),
{
    let m1 = after(m, op, variant, keys, r);
    assert(nibbles_of(op)[0] == 8 && nibbles_of(op)[3] == 5);
    assert(m1.regs == m.regs.update(digit_x(op), ((m.regs[digit_x(op)] - m.regs[digit_y(op)]) % 256) as u8).update(
        15,
        if m.regs[digit_x(op)] >= m.regs[digit_y(op)] { 1u8 } else { 0u8 },
    ));
    let x = digit_x(op);
    let diff = m.regs[x] - m.regs[digit_y(op)];
    assert(-256 < diff < 256);
    assert(diff % 256 == if diff >= 0 { diff } else { diff + 256 });
}

/// Law: `8XY7` sets `VX` to `VY - VX` with borrow: `VF` is 1 exactly when
/// `VY >= VX` and, when `X` is not `F`, `VX` after is `VY - VX + 256 * (1 - VF)`.
pub proof fn law_reverse_subtract_with_borrow(m: Machine, op: u16, variant: Variant, keys: Keypad, r: u8)
    requires
        well_sized(m),
        m.ir == Some(op),
        op / 4096 == 8,
        op % 16 == 7,
    ensures
        ({
            let x = digit_x(op);
            let vx = m.regs[x];
            let vy = m.regs[digit_y(op)];
            let m1 = after(m, op, variant, keys, r);
            &&& only_vx_and_vf_change(m, m1, x)
            &&& m1.regs[15] == (if vy >= vx { 1u8 } else { 0u8 })
            &&& x != 15 ==> m1.regs[x] == vy - vx + 256 * (1 - m1.regs[15])
        }),
{
    let m1 = after(m, op, variant, keys, r);
    assert(nibbles_of(op)[0] == 8 && nibbles_of(op)[3] == 7);
    assert(m1.regs == m.regs.update(digit_x(op), ((m.regs[digit_y(op)] - m.regs[digit_x(op)]) % 256) as u8).update(
        15,
        if m.regs[digit_y(op)] >= m.regs[digit_x(op)] { 1u8 } else { 0u8 },
    ));
    let x = digit_x(op);
    let diff = m.regs[digit_y(op)] - m.regs[x];
    assert(-256 < diff < 256);
    assert(diff % 256 == if diff >= 0 { diff } else { diff + 256 });
}

/// Law: `8XY6` shifts `VY` right into `VX` and `VF` catches the bit shifted
/// out: `VF` is 0 or 1 and, when `X` is not `F`, `2 * VX + VF` after is `VY`
/// before. When `X` is `F`, `VF` is the bit shifted out.
pub proof fn law_shift_right(m: Machine, op: u16, variant: Variant, keys: Keypad, r: u8)
    requires
        well_sized(m),
        m.ir == Some(op),
        op / 4096 == 8,
        op % 16 == 6,
    ensures
        ({
            let x = digit_x(op);
            let vy = m.regs[digit_y(op)];
            let m1 = after(m, op, variant, keys, r);
            &&& only_vx_and_vf_change(m, m1, x)
            &&& m1.regs[15] <= 1
            &&& x != 15 ==> 2 * m1.regs[x] + m1.regs[15] == vy
            &&& x == 15 ==> m1.regs[15] == vy % 2
        }),
{
    let vy = m.regs[digit_y(op)];
    let m1 = after(m, op, variant, keys, r);
    assert(nibbles_of(op)[0] == 8 && nibbles_of(op)[3] == 6);
    assert(m1.regs == m.regs.update(digit_x(op), vy / 2).update(15, vy % 2));
}

/// Law: `8XYE` shifts `VY` left into `VX` and `VF` catches the bit shifted
/// out: `VF` is 0 or 1 and, when `X` is not `F`, `VF * 256 + VX` after is
/// `2 * VY` before. When `X` is `F`, `VF` is the bit shifted out.
pub proof fn law_shift_left(m: Machine, op: u16, variant: Variant, keys: Keypad, r: u8)
    requires
        well_sized(m),
        m.ir == Some(op),
        op / 4096 == 8,
        op % 16 == 0xE,
    ensures
        ({
            let x = digit_x(op);
            let vy = m.regs[digit_y(op)];
            let m1 = after(m, op, variant, keys, r);
            &&& only_vx_and_vf_change(m, m1, x)
            &&& m1.regs[15] <= 1
            &&& x != 15 ==> m1.regs[15] * 256 + m1.regs[x] == 2 * vy
            &&& x == 15 ==> m1.regs[15] == (if vy >= 128 { 1u8 } else { 0u8 })
        }),
{
    let vy = m.regs[digit_y(op)];
    let m1 = after(m, op, variant, keys, r);
    assert(nibbles_of(op)[0] == 8 && nibbles_of(op)[3] == 0xE);
    assert(m1.regs == m.regs.update(digit_x(op), ((vy * 2) % 256) as u8).update(15, vy / 128));
    assert((vy * 2) % 256 == if vy >= 128 { vy * 2 - 256 } else { vy * 2 });
}

/// Law: `ANNN` sets `I` to `NNN` and changes nothing else.
pub proof fn law_set_index(m: Machine, op: u16, variant: Variant, keys: Keypad, r: u8)
    requires
        m.ir == Some(op),
        op / 4096 == 0xA,
    ensures
        after(m, op, variant, keys, r) == (Machine { index: (op % 4096) as usize, ..m }),
{
}

/// Law: `BNNN` on CHIP-8 jumps to `V0 + NNN`; `BXNN` on CHIP-48 jumps to
/// `VX + NN`. Nothing else changes.
pub proof fn law_jump_with_offset(m: Machine, op: u16, variant: Variant, keys: Keypad, r: u8)
    requires
        m.ir == Some(op),
        op / 4096 == 0xB,
    ensures
        variant == Variant::CHIP8 ==> after(m, op, variant, keys, r) == (Machine {
            pc: (m.regs[0] + op % 4096) as u16,
            ..m
        }),
        variant == Variant::CHIP48 ==> after(m, op, variant, keys, r) == (Machine {
            pc: (m.regs[digit_x(op)] + op % 256) as u16,
            ..m
        }),
{
}

/// Law: `CXNN` sets `VX` to a random byte masked by `NN`: `VX` has no bit
/// outside `NN`, and it is the drawn byte `r` on the bits of `NN`.
pub proof fn law_random_masked(m: Machine, op: u16, variant: Variant, keys: Keypad, r: u8)
    requires
        well_sized(m),
        m.ir == Some(op),
        op / 4096 == 0xC,
    ensures
        ({
            let x = digit_x(op);
            let nn = (op % 256) as u8;
            let m1 = after(m, op, variant, keys, r);
            &&& m1 == (Machine { regs: m.regs.update(x, m1.regs[x]), ..m })
            &&& m1.regs[x] & nn == m1.regs[x]
            &&& m1.regs[x] == r & nn
        }),
{
    let x = digit_x(op);
    let nn = (op % 256) as u8;
    let m1 = after(m, op, variant, keys, r);
    assert(nibbles_of(op)[0] == 0xC);
    assert(m1 == (Machine { regs: m.regs.update(x, r & nn), ..m }));
    assert(m1.regs[x] == r & nn);
    lemma_mask_twice(r, nn);
}

proof fn lemma_mask_twice(a: u8, b: u8)
    ensures
        (a & b) & b == a & b,
{
    assert((a & b) & b == a & b) by (bit_vector);
}

/// Law: `EX9E` skips the next instruction exactly when key `VX` (its low
/// digit) is held down, and `EXA1` exactly when it is not.
pub proof fn law_skip_on_key(m: Machine, op: u16, variant: Variant, keys: Keypad, r: u8)
    requires
        m.ir == Some(op),
        op / 4096 == 0xE,
        op % 256 == 0x9E || op % 256 == 0xA1,
    ensures
        ({
            let held = keys.down[(m.regs[digit_x(op)] % 16) as int];
            let skip = if op % 256 == 0x9E {
                held
            } else {
                !held
            };
            after(m, op, variant, keys, r) == (Machine { pc: pc_after_skip(m, skip), ..m })
        }),
{
}

/// Law: `FX07` copies the delay timer into `VX`, whatever the sound timer
/// holds; `FX15` sets the delay timer and `FX18` the sound timer to `VX`.
pub proof fn law_timers(m: Machine, op: u16, variant: Variant, keys: Keypad, r: u8)
    requires
        m.ir == Some(op),
        op / 4096 == 0xF,
        op % 256 == 0x07 || op % 256 == 0x15 || op % 256 == 0x18,
    ensures
        ({
            let x = digit_x(op);
            let m1 = after(m, op, variant, keys, r);
            &&& op % 256 == 0x07 ==> m1 == (Machine { regs: m.regs.update(x, m.delay), ..m })
            &&& op % 256 == 0x15 ==> m1 == (Machine { delay: m.regs[x], ..m })
            &&& op % 256 == 0x18 ==> m1 == (Machine { sound: m.regs[x], ..m })
        }),
{
}

/// Law: `FX0A` waits for a key: with a key pressed it stores it in `VX`;
/// without one it steps the program counter back onto itself.
pub proof fn law_wait_for_key(m: Machine, op: u16, variant: Variant, keys: Keypad, r: u8)
    requires
        m.ir == Some(op),
        op / 4096 == 0xF,
        op % 256 == 0x0A,
    ensures
        ({
            let m1 = after(m, op, variant, keys, r);
            match keys.pressed {
                Some(k) => m1 == (Machine { regs: m.regs.update(digit_x(op), k), ..m }),
                None => m1 == (Machine { pc: (m.pc - 2) as u16, ..m }),
            }
        }),
{
}

/// Law: `FX1E` adds `VX` to `I`; `FX29` points `I` at the five-byte glyph of
/// the low digit of `VX`. Nothing else changes.
pub proof fn law_index_arithmetic(m: Machine, op: u16, variant: Variant, keys: Keypad, r: u8)
    requires
        m.ir == Some(op),
        op / 4096 == 0xF,
        op % 256 == 0x1E || op % 256 == 0x29,
    ensures
        ({
            let vx = m.regs[digit_x(op)];
            let m1 = after(m, op, variant, keys, r);
            &&& op % 256 == 0x1E ==> m1 == (Machine { index: (m.index + vx) as usize, ..m })
            &&& op % 256 == 0x29 ==> m1 == (Machine { index: (5 * (vx % 16)) as usize, ..m })
        }),
{
}

/// Law: `FX33` writes the hundreds, tens and ones digits of `VX` to `I`,
/// `I + 1` and `I + 2`: each is below 10 and together they spell `VX`;
/// the rest of memory and of the machine is as before.
pub proof fn law_decimal_digits(m: Machine, op: u16, variant: Variant, keys: Keypad, r: u8)
    requires
        well_sized(m),
        m.ir == Some(op),
        op / 4096 == 0xF,
        op % 256 == 0x33,
        m.index + 2 < 4096,
    ensures
        ({
            let i = m.index as int;
            let m1 = after(m, op, variant, keys, r);
            &&& m1 == (Machine { memory: m1.memory, ..m })
            &&& m1.memory.len() == 4096
            &&& m1.memory[i] < 10 && m1.memory[i + 1] < 10 && m1.memory[i + 2] < 10
            &&& m1.memory[i] * 100 + m1.memory[i + 1] * 10 + m1.memory[i + 2] == m.regs[digit_x(op)]
            &&& forall|k: int| 0 <= k < 4096 && (k < i || k > i + 2) ==> #[trigger] m1.memory[k] == m.memory[k]
        }),
{
    let i = m.index as int;
    let m1 = after(m, op, variant, keys, r);
    assert(nibbles_of(op)[0] == 0xF && nibbles_of(op)[2] == 3 && nibbles_of(op)[3] == 3);
    assert(m1 == (Machine { memory: store_bcd(m.memory, i, m.regs[digit_x(op)]), ..m }));
    lemma_bcd_digits(m.memory, i, m.regs[digit_x(op)]);
}

/// Law: `FX55` copies `V0..=VX` to memory at `I` and advances `I` past them;
/// the rest of memory and of the machine is as before.
pub proof fn law_store_registers(m: Machine, op: u16, variant: Variant, keys: Keypad, r: u8)
    requires
        well_sized(m),
        m.ir == Some(op),
        op / 4096 == 0xF,
        op % 256 == 0x55,
        m.index + digit_x(op) < 4096,
    ensures
        ({
            let i = m.index as int;
            let x = digit_x(op);
            let m1 = after(m, op, variant, keys, r);
            &&& m1 == (Machine { memory: m1.memory, index: (m.index + x + 1) as usize, ..m })
            &&& m1.memory.len() == 4096
            &&& forall|k: int| 0 <= k <= x ==> #[trigger] m1.memory[i + k] == m.regs[k]
            &&& forall|k: int| 0 <= k < 4096 && (k < i || k > i + x) ==> #[trigger] m1.memory[k] == m.memory[k]
        }),
{
    let i = m.index as int;
    let x = digit_x(op);
    let m1 = after(m, op, variant, keys, r);
    assert(nibbles_of(op)[0] == 0xF && nibbles_of(op)[2] == 5 && nibbles_of(op)[3] == 5);
    assert(m1.memory == store_registers(m.memory, i, x, m.regs));
    assert forall|k: int| 0 <= k <= x implies #[trigger] m1.memory[i + k] == m.regs[k] by {
        assert(m1.memory[i + k] == m.regs[(i + k) - i]);
    }
}

/// Law: `FX65` copies memory at `I` into `V0..=VX` and advances `I` past
/// them; the registers above `VX` and the rest of the machine are as before.
pub proof fn law_load_registers(m: Machine, op: u16, variant: Variant, keys: Keypad, r: u8)
    requires
        well_sized(m),
        m.ir == Some(op),
        op / 4096 == 0xF,
        op % 256 == 0x65,
    ensures
        ({
            let i = m.index as int;
            let x = digit_x(op);
            let m1 = after(m, op, variant, keys, r);
            &&& m1 == (Machine { regs: m1.regs, index: (m.index + x + 1) as usize, ..m })
            &&& m1.regs.len() == 16
            &&& forall|k: int| 0 <= k <= x ==> #[trigger] m1.regs[k] == m.memory[i + k]
            &&& forall|k: int| x < k < 16 ==> #[trigger] m1.regs[k] == m.regs[k]
        }),
{
}

/// Law: every cycle fetches the big-endian word at the program counter into
/// the instruction register; no instruction changes it afterwards.
pub proof fn law_cycle_fetches_word(m: Machine, variant: Variant, keys: Keypad, r: u8)
    requires
        well_sized(m),
    ensures
        cycle_spec(m, variant, keys, r).ir == Some(
            (m.memory[m.pc as int] as int * 256 + m.memory[m.pc + 1] as int) as u16,
        ),
{
    reveal(cycle_spec);
}

/// The big-endian instruction word at the program counter.
pub open spec fn word_at_pc(m: Machine) -> u16 {
    (m.memory[m.pc as int] as int * 256 + m.memory[m.pc + 1] as int) as u16
}

/// Law: a cycle is the instruction at the program counter executed on the
/// machine whose instruction register holds it and whose program counter
/// already points past it.
pub proof fn law_cycle_is_fetch_then_execute(m: Machine, variant: Variant, keys: Keypad, r: u8)
    requires
        well_sized(m),
        m.pc + 2 <= 0xFFFF,
    ensures
        cycle_spec(m, variant, keys, r) == after(
            Machine { ir: Some(word_at_pc(m)), pc: (m.pc + 2) as u16, ..m },
            word_at_pc(m),
            variant,
            keys,
            r,
        ),
{
    reveal(cycle_spec);
}

/// Law: a cycle can always run when the instruction lies in memory and
/// touches neither memory, the stack nor `I` beyond its own operands: jumps,
/// skips on registers, register arithmetic, `ANNN`, `BNNN`, `CXNN`, and
/// `FX07`, `FX15`, `FX18`, `FX29`, `FX0A`.
pub proof fn law_simple_cycles_can_run(m: Machine, keys: Keypad)
    requires
        well_sized(m),
        m.pc + 1 < 4096,
        ({
            let w = word_at_pc(m);
            let a = w / 4096;
            ||| a == 1
            ||| 3 <= a <= 0xC
            ||| (a == 0xF && (w % 256 == 0x07 || w % 256 == 0x15 || w % 256 == 0x18 || w % 256 == 0x29
                || w % 256 == 0x0A))
        }),
    ensures
        cycle_safe(m, keys),
{
    reveal(cycle_safe);
}

/// Law: a cycle cannot run when the instruction word does not lie in
/// memory, when it returns with an empty stack, or when it calls with the
/// stack full.
pub proof fn law_faulting_cycles(m: Machine, keys: Keypad)
    requires
        well_sized(m),
    ensures
        m.pc + 1 >= 4096 ==> !cycle_safe(m, keys),
        m.pc + 1 < 4096 && word_at_pc(m) == 0x00EE && m.sp is None ==> !cycle_safe(m, keys),
        m.pc + 1 < 4096 && word_at_pc(m) / 4096 == 2 && m.sp == Some(15usize) ==> !cycle_safe(m, keys),
{
    reveal(cycle_safe);
    if m.pc + 1 < 4096 && word_at_pc(m) == 0x00EE {
        assert(nibbles_of(0x00EEu16) == seq![0u8, 0u8, 0xEu8, 0xEu8]);
    }
}

/// Law: after boot, memory holds the font at address 0, zeros up to 0x200,
/// and every byte of the ROM at 0x200 plus its offset.
pub proof fn law_boot_memory_layout(rom: Seq<u8>)
    requires
        rom.len() == 3584,
    ensures
        boot_memory(rom).len() == 4096,
        forall|i: int| 0 <= i < 80 ==> #[trigger] boot_memory(rom)[i] == FONTSET@[i],
        forall|i: int| 80 <= i < 512 ==> #[trigger] boot_memory(rom)[i] == 0u8,
        forall|k: int| 0 <= k < 3584 ==> #[trigger] boot_memory(rom)[512 + k] == rom[k],
{
}

/// Law: running two sequences of cycles one after the other is running
/// their concatenation; running none leaves the machine as it is.
pub proof fn law_run_concatenates(m: Machine, variant: Variant, keys: Keypad, rs1: Seq<u8>, rs2: Seq<u8>)
    ensures
        run(m, variant, keys, Seq::empty()) == m,
        run(m, variant, keys, rs1 + rs2) == run(run(m, variant, keys, rs1), variant, keys, rs2),
    decreases rs2.len(),
{
    if rs2.len() == 0 {
        assert(rs1 + rs2 =~= rs1);
    } else {
        law_run_concatenates(m, variant, keys, rs1, rs2.drop_last());
        assert((rs1 + rs2).drop_last() =~= rs1 + rs2.drop_last());
        assert((rs1 + rs2).last() == rs2.last());
    }
}

/// Law: running one cycle with byte `r` is that cycle.
pub proof fn law_run_single(m: Machine, variant: Variant, keys: Keypad, r: u8)
    ensures
        run(m, variant, keys, seq![r]) == cycle_spec(m, variant, keys, r),
{
    assert(seq![r].drop_last() =~= Seq::<u8>::empty());
    assert(run(m, variant, keys, seq![r].drop_last()) == m);
}

proof fn lemma_draw_cols_frame(panel: Seq<bool>, regs: Seq<u8>, byte: u8, x: int, py: int, col: int)
    requires
        panel.len() == 2048,
        regs.len() == 16,
        0 <= x < 16,
        0 <= py < 32,
        regs[15] <= 1,
    ensures
        ({
            let drawn = draw_cols(panel, regs, byte, x, py, col);
            &&& drawn.0.len() == 2048
            &&& drawn.1.len() == 16
            &&& drawn.1[15] <= 1
            &&& forall|k: int| 0 <= k < 15 ==> #[trigger] drawn.1[k] == regs[k]
        }),
    decreases 8 - col,
{
    if 0 <= col < 8 {
        let px = regs[x] as int % 64 + col;
        if px < 64 {
            let at = py * 64 + px;
            assert(0 <= at < 2048);
            let lit = panel[at];
            if crate::machine::sprite_bit(byte, col) {
                lemma_draw_cols_frame(
                    panel.update(at, !lit),
                    if lit {
                        regs.update(15, 1u8)
                    } else {
                        regs
                    },
                    byte,
                    x,
                    py,
                    col + 1,
                );
            } else {
                lemma_draw_cols_frame(panel, regs, byte, x, py, col + 1);
            }
        }
    }
}

proof fn lemma_draw_rows_frame(
    panel: Seq<bool>,
    regs: Seq<u8>,
    memory: Seq<u8>,
    index: int,
    x: int,
    y: int,
    n: int,
    row: int,
)
    requires
        panel.len() == 2048,
        regs.len() == 16,
        0 <= x < 16,
        0 <= y < 16,
        0 <= row,
        regs[15] <= 1,
    ensures
        ({
            let drawn = draw_rows(panel, regs, memory, index, x, y, n, row);
            &&& drawn.0.len() == 2048
            &&& drawn.1.len() == 16
            &&& drawn.1[15] <= 1
            &&& forall|k: int| 0 <= k < 15 ==> #[trigger] drawn.1[k] == regs[k]
        }),
    decreases n - row,
{
    if row < n {
        let py = regs[y] as int % 32 + row;
        if py < 32 {
            let byte = memory[index + row];
            lemma_draw_cols_frame(panel, regs, byte, x, py, 0);
            let d = draw_cols(panel, regs, byte, x, py, 0);
            lemma_draw_rows_frame(d.0, d.1, memory, index, x, y, n, row + 1);
        }
    }
}

/// Law: `DXYN`, whatever `X` and `Y` are, changes only the screen and `VF`,
/// and leaves `VF` at 0 or 1.
pub proof fn law_draw_changes_only_screen_and_flag(m: Machine, op: u16, variant: Variant, keys: Keypad, r: u8)
    requires
        well_sized(m),
        m.ir == Some(op),
        op / 4096 == 0xD,
    ensures
        ({
            let m1 = after(m, op, variant, keys, r);
            &&& m1 == (Machine { panel: m1.panel, regs: m1.regs, ..m })
            &&& m1.panel.len() == 2048
            &&& m1.regs.len() == 16
            &&& m1.regs[15] <= 1
            &&& forall|k: int| 0 <= k < 15 ==> #[trigger] m1.regs[k] == m.regs[k]
        }),
{
    assert(nibbles_of(op)[0] == 0xD);
    lemma_draw_rows_frame(
        m.panel,
        m.regs.update(15, 0u8),
        m.memory,
        m.index as int,
        digit_x(op),
        digit_y(op),
        (op % 16) as int,
        0,
    );
}

} // verus!
