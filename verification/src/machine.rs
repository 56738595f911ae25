use vstd::prelude::*;

use crate::keypad::Keypad;
use crate::variant::Variant;

verus! {

/// The abstract state of the whole machine that one instruction can read
/// or change.
#[verifier::ext_equal]
pub struct Machine {
    /// The last fetched instruction.
    pub ir: Option<u16>,
    /// Address of the next instruction.
    pub pc: u16,
    /// Slot of the top of the call stack, `None` when the stack is empty.
    pub sp: Option<usize>,
    /// The 4096 bytes of memory.
    pub memory: Seq<u8>,
    /// The 16 return addresses of the call stack.
    pub stack: Seq<u16>,
    /// The 64 x 32 screen, row by row: pixel `(x, y)` is at `y * 64 + x`.
    pub panel: Seq<bool>,
    /// The index register `I`.
    pub index: usize,
    /// The registers `V0` to `VF`.
    pub regs: Seq<u8>,
    pub delay: u8,
    pub sound: u8,
}

/// The memory, stack, screen and registers have their fixed sizes.
pub open spec fn well_sized(m: Machine) -> bool {
    &&& m.memory.len() == 4096
    &&& m.stack.len() == 16
    &&& m.panel.len() == 2048
    &&& m.regs.len() == 16
}

/// The four hexadecimal digits of an opcode, most significant first.
pub open spec fn nibbles_of(op: u16) -> Seq<u8> {
    seq![(op / 4096) as u8, ((op / 256) % 16) as u8, ((op / 16) % 16) as u8, (op % 16) as u8]
}

/// The 12-bit address operand `NNN`.
pub open spec fn nnn_of(op: u16) -> u16 {
    op % 4096
}

/// The byte operand `NN`.
pub open spec fn nn_of(op: u16) -> u8 {
    (op % 256) as u8
}

/// The 4-bit operand `N`.
pub open spec fn n_of(op: u16) -> u8 {
    (op % 16) as u8
}

/// The big-endian instruction word stored at `pc`.
pub open spec fn word_at(memory: Seq<u8>, pc: int) -> u16 {
    (memory[pc] as int * 256 + memory[pc + 1] as int) as u16
}

pub open spec fn with_pc(m: Machine, pc: u16) -> Machine {
    Machine { pc, ..m }
}

pub open spec fn with_reg(m: Machine, i: int, v: u8) -> Machine {
    Machine { regs: m.regs.update(i, v), ..m }
}

/// Skips the next instruction when `cond` holds.
pub open spec fn skip_if(m: Machine, cond: bool) -> Machine {
    if cond {
        with_pc(m, (m.pc + 2) as u16)
    } else {
        m
    }
}

/// Reads the next instruction into `ir` and advances `pc` past it.
pub open spec fn fetch_spec(m: Machine) -> Machine {
    Machine { ir: Some(word_at(m.memory, m.pc as int)), pc: (m.pc + 2) as u16, ..m }
}

/// The stack slot that a call writes.
pub open spec fn call_slot(sp: Option<usize>) -> int {
    match sp {
        Some(i) => i + 1,
        None => 0,
    }
}

/// `2NNN`: pushes the return address and jumps to `target`.
pub open spec fn call_spec(m: Machine, target: u16) -> Machine {
    let slot = call_slot(m.sp);
    Machine { pc: target, sp: Some(slot as usize), stack: m.stack.update(slot, m.pc), ..m }
}

/// `00EE`: pops the return address into `pc`.
pub open spec fn return_spec(m: Machine) -> Machine {
    let i = m.sp.unwrap();
    Machine {
        pc: m.stack[i as int],
        sp: if i == 0 {
            None
        } else {
            Some((i - 1) as usize)
        },
        ..m
    }
}

/// Whether the sprite byte `byte` lights column `col` (0 is the leftmost).
pub open spec fn sprite_bit(byte: u8, col: int) -> bool {
    ((byte >> ((7 - col) as u8)) & 1u8) == 1u8
}

/// Draws columns `col..8` of a sprite row on screen row `py`, starting at
/// column `VX mod 64`, clipped at the right edge. Each lit sprite bit
/// flips its pixel; turning a pixel off sets `VF` to 1.
pub open spec fn draw_cols(
    panel: Seq<bool>,
    regs: Seq<u8>,
    byte: u8,
    x: int,
    py: int,
    col: int,
) -> (Seq<bool>, Seq<u8>)
    decreases 8 - col,
{
    if col < 0 || col >= 8 {
        (panel, regs)
    } else {
        let px = regs[x] as int % 64 + col;
        if px >= 64 {
            (panel, regs)
        } else if sprite_bit(byte, col) {
            let at = py * 64 + px;
            let lit = panel[at];
            draw_cols(
                panel.update(at, !lit),
                if lit {
                    regs.update(15, 1u8)
                } else {
                    regs
                },
                byte,
                x,
                py,
                col + 1,
            )
        } else {
            draw_cols(panel, regs, byte, x, py, col + 1)
        }
    }
}

/// Draws sprite rows `row..n`, read from memory at `index + row`, on
/// screen rows starting at `VY mod 32`, clipped at the bottom edge.
pub open spec fn draw_rows(
    panel: Seq<bool>,
    regs: Seq<u8>,
    memory: Seq<u8>,
    index: int,
    x: int,
    y: int,
    n: int,
    row: int,
) -> (Seq<bool>, Seq<u8>)
    decreases n - row,
{
    if row < 0 || row >= n {
        (panel, regs)
    } else {
        let py = regs[y] as int % 32 + row;
        if py >= 32 {
            (panel, regs)
        } else {
            let drawn = draw_cols(panel, regs, memory[index + row], x, py, 0);
            draw_rows(drawn.0, drawn.1, memory, index, x, y, n, row + 1)
        }
    }
}

/// `DXYN`: clears `VF`, then draws an `n`-row sprite from memory at `I`.
pub open spec fn draw_spec(m: Machine, x: int, y: int, n: int) -> Machine {
    let drawn = draw_rows(m.panel, m.regs.update(15, 0u8), m.memory, m.index as int, x, y, n, 0);
    Machine { panel: drawn.0, regs: drawn.1, ..m }
}

/// The last sprite row that `DXYN` reads from memory, when `n > 0`: the
/// drawing stops after the first row below the screen.
pub open spec fn last_sprite_row(regs: Seq<u8>, y: int, n: int) -> int {
    if y == 15 || n - 1 <= 32 - regs[y] as int % 32 {
        n - 1
    } else {
        32 - regs[y] as int % 32
    }
}

/// The screen with every pixel off.
pub open spec fn blank_panel() -> Seq<bool> {
    Seq::new(2048, |i: int| false)
}

/// `FX33`: the decimal digits of `v` stored at `i`, `i + 1` and `i + 2`.
pub open spec fn store_bcd(memory: Seq<u8>, i: int, v: u8) -> Seq<u8> {
    memory.update(i, v / 100).update(i + 1, (v / 10) % 10).update(i + 2, v % 10)
}

/// `FX55`: registers `V0` to `VX` stored at `i..=i + x`.
pub open spec fn store_registers(memory: Seq<u8>, i: int, x: int, regs: Seq<u8>) -> Seq<u8> {
    Seq::new(
        memory.len(),
        |k: int|
            if i <= k <= i + x {
                regs[k - i]
            } else {
                memory[k]
            },
    )
}

/// `FX65`: registers `V0` to `VX` loaded from `i..=i + x`.
pub open spec fn load_registers(regs: Seq<u8>, memory: Seq<u8>, i: int, x: int) -> Seq<u8> {
    Seq::new(
        regs.len(),
        |k: int|
            if k <= x {
                memory[i + k]
            } else {
                regs[k]
            },
    )
}

/// The effect of the decoded instruction `nb` (with operands taken from
/// `m.ir`) on the machine. `keys` is what the keypad reports and `r` is the
/// random byte that `CXNN` draws.
pub open spec fn execute_spec(m: Machine, nb: Seq<u8>, variant: Variant, keys: Keypad, r: u8) -> Machine {
    let op = m.ir.unwrap();
    let a = nb[0];
    let b = nb[1];
    let c = nb[2];
    let d = nb[3];
    let x = b as int;
    let y = c as int;
    let vx = m.regs[x];
    let vy = m.regs[y];
    let nnn = nnn_of(op);
    let nn = nn_of(op);
    if a == 0 && b == 0 && c == 0xE && d == 0 {
        Machine { panel: blank_panel(), ..m }
    } else if a == 0 && b == 0 && c == 0xE && d == 0xE {
        return_spec(m)
    } else if a == 0 {
        m
    } else if a == 1 {
        with_pc(m, nnn)
    } else if a == 2 {
        call_spec(m, nnn)
    } else if a == 3 {
        skip_if(m, vx == nn)
    } else if a == 4 {
        skip_if(m, vx != nn)
    } else if a == 5 && d == 0 {
        skip_if(m, vx == vy)
    } else if a == 6 {
        with_reg(m, x, nn)
    } else if a == 7 {
        with_reg(m, x, ((vx + nn) % 256) as u8)
    } else if a == 8 && d == 0 {
        with_reg(m, x, vy)
    } else if a == 8 && d == 1 {
        with_reg(m, x, vx | vy)
    } else if a == 8 && d == 2 {
        with_reg(m, x, vx & vy)
    } else if a == 8 && d == 3 {
        with_reg(m, x, vx ^ vy)
    } else if a == 8 && d == 4 {
        with_reg(
            with_reg(m, x, ((vx + vy) % 256) as u8),
            15,
            if vx + vy > 255 {
                1u8
            } else {
                0u8
            },
        )
    } else if a == 8 && d == 5 {
        with_reg(
            with_reg(m, x, ((vx - vy) % 256) as u8),
            15,
            if vx >= vy {
                1u8
            } else {
                0u8
            },
        )
    } else if a == 8 && d == 6 {
        with_reg(with_reg(m, x, vy / 2), 15, vy % 2)
    } else if a == 8 && d == 7 {
        with_reg(
            with_reg(m, x, ((vy - vx) % 256) as u8),
            15,
            if vy >= vx {
                1u8
            } else {
                0u8
            },
        )
    } else if a == 8 && d == 0xE {
        with_reg(with_reg(m, x, ((vy * 2) % 256) as u8), 15, vy / 128)
    } else if a == 9 && d == 0 {
        skip_if(m, vx != vy)
    } else if a == 0xA {
        Machine { index: nnn as usize, ..m }
    } else if a == 0xB {
        match variant {
            Variant::CHIP8 => with_pc(m, (m.regs[0] + nnn) as u16),
            Variant::CHIP48 => with_pc(m, (vx + nn) as u16),
        }
    } else if a == 0xC {
        with_reg(m, x, r & nn)
    } else if a == 0xD {
        draw_spec(m, x, y, n_of(op) as int)
    } else if a == 0xE && c == 9 && d == 0xE {
        skip_if(m, keys.down[(vx % 16) as int])
    } else if a == 0xE && c == 0xA && d == 1 {
        skip_if(m, !keys.down[(vx % 16) as int])
    } else if a == 0xF && c == 0 && d == 7 {
        with_reg(m, x, m.delay)
    } else if a == 0xF && c == 0 && d == 0xA {
        match keys.pressed {
            Some(k) => with_reg(m, x, k),
            None => with_pc(m, (m.pc - 2) as u16),
        }
    } else if a == 0xF && c == 1 && d == 5 {
        Machine { delay: vx, ..m }
    } else if a == 0xF && c == 1 && d == 8 {
        Machine { sound: vx, ..m }
    } else if a == 0xF && c == 1 && d == 0xE {
        Machine { index: (m.index + vx) as usize, ..m }
    } else if a == 0xF && c == 2 && d == 9 {
        Machine { index: ((vx % 16) * 5) as usize, ..m }
    } else if a == 0xF && c == 3 && d == 3 {
        Machine { memory: store_bcd(m.memory, m.index as int, vx), ..m }
    } else if a == 0xF && c == 5 && d == 5 {
        Machine {
            memory: store_registers(m.memory, m.index as int, x, m.regs),
            index: (m.index + x + 1) as usize,
            ..m
        }
    } else if a == 0xF && c == 6 && d == 5 {
        Machine {
            regs: load_registers(m.regs, m.memory, m.index as int, x),
            index: (m.index + x + 1) as usize,
            ..m
        }
    } else {
        m
    }
}

/// The inputs on which executing `nb` neither panics nor overflows: the
/// operands it uses are in range, and every memory access, stack access and
/// address computation stays within bounds.
pub open spec fn execute_safe(m: Machine, nb: Seq<u8>, keys: Keypad) -> bool {
    let op = m.ir.unwrap();
    let a = nb[0];
    let b = nb[1];
    let c = nb[2];
    let d = nb[3];
    let x = b as int;
    let vx = m.regs[x];
    let vy = m.regs[c as int];
    let nn = nn_of(op);
    let n = n_of(op) as int;
    let skips = (a == 3 && vx == nn) || (a == 4 && vx != nn) || (a == 5 && d == 0 && vx == vy)
        || (a == 9 && d == 0 && vx != vy) || (a == 0xE && c == 9 && d == 0xE && keys.down[(vx % 16) as int])
        || (a == 0xE && c == 0xA && d == 1 && !keys.down[(vx % 16) as int]);
    &&& m.ir is Some
    &&& nb.len() == 4
    &&& a < 16 && b < 16 && c < 16 && d < 16
    &&& (a == 0 && b == 0 && c == 0xE && d == 0xE) ==> (m.sp matches Some(i) && i < 16)
    &&& (a == 2) ==> call_slot(m.sp) < 16
    &&& skips ==> m.pc + 2 <= 0xFFFF
    &&& (a == 0xD && n > 0) ==> m.index + last_sprite_row(m.regs.update(15, 0u8), c as int, n) < 4096
    &&& (a == 0xF && c == 0 && d == 0xA) ==> m.pc >= 2
    &&& (a == 0xF && c == 1 && d == 0xE) ==> m.index + vx <= usize::MAX
    &&& (a == 0xF && c == 3 && d == 3) ==> m.index + 2 < 4096
    &&& (a == 0xF && (c == 5 || c == 6) && d == 5) ==> m.index + x < 4096
}

/// One fetch-decode-execute cycle.
#[verifier::opaque]
pub open spec fn cycle_spec(m: Machine, variant: Variant, keys: Keypad, r: u8) -> Machine {
    let f = fetch_spec(m);
    execute_spec(f, nibbles_of(f.ir.unwrap()), variant, keys, r)
}

/// The cycle can run: the instruction lies in memory and executing it is safe.
#[verifier::opaque]
pub open spec fn cycle_safe(m: Machine, keys: Keypad) -> bool {
    let f = fetch_spec(m);
    &&& m.pc + 1 < 4096
    &&& execute_safe(f, nibbles_of(f.ir.unwrap()), keys)
}

/// The machine after one cycle for each random byte in `rs`.
pub open spec fn run(m: Machine, variant: Variant, keys: Keypad, rs: Seq<u8>) -> Machine
    decreases rs.len(),
{
    if rs.len() == 0 {
        m
    } else {
        cycle_spec(run(m, variant, keys, rs.drop_last()), variant, keys, rs.last())
    }
}

/// Every cycle of `run(m, variant, keys, rs)` started from a state in which it can run.
pub open spec fn run_safe(m: Machine, variant: Variant, keys: Keypad, rs: Seq<u8>) -> bool {
    forall|i: int| 0 <= i < rs.len() ==> cycle_safe(#[trigger] run(m, variant, keys, rs.take(i)), keys)
}

} // verus!
