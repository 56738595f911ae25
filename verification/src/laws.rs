use vstd::prelude::*;

use crate::keypad::Keypad;
use crate::machine::{
    Machine, well_sized, sprite_bit, draw_cols, draw_rows, draw_spec, nibbles_of, nnn_of, nn_of, n_of,
    word_at, call_slot, execute_spec, cycle_spec, cycle_safe, store_bcd, store_registers,
    load_registers,
};
use crate::variant::Variant;

verus! {

/// Whether the `n`-row sprite stored at `index`, placed with its top-left
/// corner at `(ox, oy)`, lights the screen pixel `(px, py)`.
pub open spec fn sprite_covers(
    memory: Seq<u8>,
    index: int,
    ox: int,
    oy: int,
    n: int,
    px: int,
    py: int,
) -> bool {
    &&& 0 <= py - oy < n
    &&& 0 <= px - ox < 8
    &&& sprite_bit(memory[index + (py - oy)], px - ox)
}

/// The screen with the sprite exclusive-or'ed onto it.
pub open spec fn xor_sprite(panel: Seq<bool>, memory: Seq<u8>, index: int, ox: int, oy: int, n: int) -> Seq<bool> {
    Seq::new(
        panel.len(),
        |i: int| panel[i] != sprite_covers(memory, index, ox, oy, n, i % 64, i / 64),
    )
}

/// Whether the sprite covers some pixel that is lit.
pub open spec fn sprite_collides(panel: Seq<bool>, memory: Seq<u8>, index: int, ox: int, oy: int, n: int) -> bool {
    exists|i: int|
        0 <= i < 2048 && #[trigger] panel[i] && sprite_covers(memory, index, ox, oy, n, i % 64, i / 64)
}

/// Pixels of screen row `py` that columns `col..8` of the sprite row `byte`
/// cover when it starts at column `ox`.
spec fn row_covers(byte: u8, ox: int, py: int, col: int, i: int) -> bool {
    &&& i / 64 == py
    &&& col <= i % 64 - ox < 8
    &&& sprite_bit(byte, i % 64 - ox)
}

proof fn lemma_pixel_coordinates(py: int, px: int)
    requires
        0 <= py < 32,
        0 <= px < 64,
    ensures
        (py * 64 + px) / 64 == py,
        (py * 64 + px) % 64 == px,
        0 <= py * 64 + px < 2048,
{
    vstd::arithmetic::div_mod::lemma_fundamental_div_mod_converse(py * 64 + px, 64, py, px);
}

/// Drawing columns `col..8` of one sprite row flips exactly the pixels they
/// cover, and sets `VF` when one of those was lit.
proof fn lemma_draw_cols(panel: Seq<bool>, regs: Seq<u8>, byte: u8, x: int, py: int, col: int)
    requires
        panel.len() == 2048,
        regs.len() == 16,
        0 <= x < 15,
        0 <= py < 32,
        0 <= col <= 8,
    ensures
        ({
            let ox = regs[x] as int % 64;
            let drawn = draw_cols(panel, regs, byte, x, py, col);
            &&& drawn.0 =~= Seq::new(2048, |i: int| panel[i] != row_covers(byte, ox, py, col, i))
            &&& drawn.1 =~= regs.update(
                15,
                if exists|i: int| 0 <= i < 2048 && #[trigger] panel[i] && row_covers(byte, ox, py, col, i) {
                    1u8
                } else {
                    regs[15]
                },
            )
        }),
    decreases 8 - col,
{
    let ox = regs[x] as int % 64;
    let drawn = draw_cols(panel, regs, byte, x, py, col);
    let px = ox + col;
    if col >= 8 || px >= 64 {
        assert forall|i: int| 0 <= i < 2048 implies !row_covers(byte, ox, py, col, i) by {
            assert(0 <= i % 64 < 64);
        }
        assert(drawn.0 =~= Seq::new(2048, |i: int| panel[i] != row_covers(byte, ox, py, col, i)));
        assert(!exists|i: int| 0 <= i < 2048 && #[trigger] panel[i] && row_covers(byte, ox, py, col, i));
        assert(drawn.1 =~= regs.update(15, regs[15]));
    } else {
        let at = py * 64 + px;
        lemma_pixel_coordinates(py, px);
        if sprite_bit(byte, col) {
            let lit = panel[at];
            let panel2 = panel.update(at, !lit);
            let regs2 = if lit {
                regs.update(15, 1u8)
            } else {
                regs
            };
            lemma_draw_cols(panel2, regs2, byte, x, py, col + 1);
            assert(regs2[x] == regs[x]);
            assert forall|i: int| 0 <= i < 2048 implies (panel2[i] != row_covers(byte, ox, py, col + 1, i))
                == (panel[i] != row_covers(byte, ox, py, col, i)) by {
                if i != at {
                    if i / 64 == py && i % 64 - ox == col {
                        vstd::arithmetic::div_mod::lemma_fundamental_div_mod(i, 64);
                    }
                }
            }
            let e = exists|i: int| 0 <= i < 2048 && #[trigger] panel[i] && row_covers(byte, ox, py, col, i);
            let e2 = exists|i: int| 0 <= i < 2048 && #[trigger] panel2[i] && row_covers(byte, ox, py, col + 1, i);
            if e2 {
                let i = choose|i: int| 0 <= i < 2048 && #[trigger] panel2[i] && row_covers(byte, ox, py, col + 1, i);
                assert(i != at);
                assert(panel[i] && row_covers(byte, ox, py, col, i));
            }
            if lit {
                assert(panel[at] && row_covers(byte, ox, py, col, at));
            }
            if e && !lit {
                let i = choose|i: int| 0 <= i < 2048 && #[trigger] panel[i] && row_covers(byte, ox, py, col, i);
                if i == at {
                } else {
                    if i % 64 - ox == col {
                        vstd::arithmetic::div_mod::lemma_fundamental_div_mod(i, 64);
                    }
                    assert(panel2[i] && row_covers(byte, ox, py, col + 1, i));
                }
            }
        } else {
            lemma_draw_cols(panel, regs, byte, x, py, col + 1);
            assert forall|i: int| 0 <= i < 2048 implies row_covers(byte, ox, py, col + 1, i)
                == row_covers(byte, ox, py, col, i) by {}
        }
    }
}

/// Pixels that sprite rows `row..n` cover.
spec fn rows_covers(memory: Seq<u8>, index: int, ox: int, oy: int, n: int, row: int, i: int) -> bool {
    &&& row <= i / 64 - oy < n
    &&& 0 <= i % 64 - ox < 8
    &&& sprite_bit(memory[index + (i / 64 - oy)], i % 64 - ox)
}

/// Drawing sprite rows `row..n` flips exactly the pixels they cover, and
/// sets `VF` when one of those was lit, provided neither coordinate is read
/// from `VF`.
proof fn lemma_draw_rows(
    panel: Seq<bool>,
    regs: Seq<u8>,
    memory: Seq<u8>,
    index: int,
    x: int,
    y: int,
    n: int,
    row: int,
)
    requires
        panel.len() == 2048,
        regs.len() == 16,
        0 <= x < 15,
        0 <= y < 15,
        0 <= row <= n,
    ensures
        ({
            let ox = regs[x] as int % 64;
            let oy = regs[y] as int % 32;
            let drawn = draw_rows(panel, regs, memory, index, x, y, n, row);
            &&& drawn.0 =~= Seq::new(
                2048,
                |i: int| panel[i] != rows_covers(memory, index, ox, oy, n, row, i),
            )
            &&& drawn.1 =~= regs.update(
                15,
                if exists|i: int|
                    0 <= i < 2048 && #[trigger] panel[i] && rows_covers(memory, index, ox, oy, n, row, i) {
                    1u8
                } else {
                    regs[15]
                },
            )
        }),
    decreases n - row,
{
    let ox = regs[x] as int % 64;
    let oy = regs[y] as int % 32;
    let drawn = draw_rows(panel, regs, memory, index, x, y, n, row);
    let py = oy + row;
    if row >= n || py >= 32 {
        assert forall|i: int| 0 <= i < 2048 implies !rows_covers(memory, index, ox, oy, n, row, i) by {
            assert(i / 64 < 32);
        }
        assert(drawn.0 =~= Seq::new(
            2048,
            |i: int| panel[i] != rows_covers(memory, index, ox, oy, n, row, i),
        ));
        assert(!exists|i: int|
            0 <= i < 2048 && #[trigger] panel[i] && rows_covers(memory, index, ox, oy, n, row, i));
        assert(drawn.1 =~= regs.update(15, regs[15]));
    } else {
        let byte = memory[index + row];
        lemma_draw_cols(panel, regs, byte, x, py, 0);
        let d1 = draw_cols(panel, regs, byte, x, py, 0);
        let p1 = d1.0;
        let r1 = d1.1;
        assert(r1[x] == regs[x] && r1[y] == regs[y]);
        lemma_draw_rows(p1, r1, memory, index, x, y, n, row + 1);
        assert forall|i: int| 0 <= i < 2048 implies rows_covers(memory, index, ox, oy, n, row, i)
            == (row_covers(byte, ox, py, 0, i) || rows_covers(memory, index, ox, oy, n, row + 1, i))
            && !(row_covers(byte, ox, py, 0, i) && rows_covers(memory, index, ox, oy, n, row + 1, i)) by {}
        let ecol = exists|i: int| 0 <= i < 2048 && #[trigger] panel[i] && row_covers(byte, ox, py, 0, i);
        let erest = exists|i: int|
            0 <= i < 2048 && #[trigger] p1[i] && rows_covers(memory, index, ox, oy, n, row + 1, i);
        let eall = exists|i: int|
            0 <= i < 2048 && #[trigger] panel[i] && rows_covers(memory, index, ox, oy, n, row, i);
        if ecol {
            let i = choose|i: int| 0 <= i < 2048 && #[trigger] panel[i] && row_covers(byte, ox, py, 0, i);
            assert(panel[i] && rows_covers(memory, index, ox, oy, n, row, i));
        }
        if erest {
            let i = choose|i: int|
                0 <= i < 2048 && #[trigger] p1[i] && rows_covers(memory, index, ox, oy, n, row + 1, i);
            assert(p1[i] == (panel[i] != row_covers(byte, ox, py, 0, i)));
            assert(panel[i] && rows_covers(memory, index, ox, oy, n, row, i));
        }
        if eall && !ecol {
            let i = choose|i: int|
                0 <= i < 2048 && #[trigger] panel[i] && rows_covers(memory, index, ox, oy, n, row, i);
            assert(p1[i] == (panel[i] != row_covers(byte, ox, py, 0, i)));
            assert(p1[i] && rows_covers(memory, index, ox, oy, n, row + 1, i));
        }
    }
}

/// Law: when neither coordinate register is `VF`, `DXYN` exclusive-ors the
/// sprite onto the screen, and `VF` ends up 1 exactly when the sprite
/// covered a lit pixel; nothing else changes.
pub proof fn lemma_draw_is_xor(m: Machine, x: int, y: int, n: int)
    requires
        well_sized(m),
        0 <= x < 15,
        0 <= y < 15,
        0 <= n,
    ensures
        ({
            let ox = m.regs[x] as int % 64;
            let oy = m.regs[y] as int % 32;
            draw_spec(m, x, y, n) == Machine {
                panel: xor_sprite(m.panel, m.memory, m.index as int, ox, oy, n),
                regs: m.regs.update(
                    15,
                    if sprite_collides(m.panel, m.memory, m.index as int, ox, oy, n) {
                        1u8
                    } else {
                        0u8
                    },
                ),
                ..m
            }
        }),
{
    let regs0 = m.regs.update(15, 0u8);
    let ox = m.regs[x] as int % 64;
    let oy = m.regs[y] as int % 32;
    lemma_draw_rows(m.panel, regs0, m.memory, m.index as int, x, y, n, 0);
    assert forall|i: int| 0 <= i < 2048 implies rows_covers(m.memory, m.index as int, ox, oy, n, 0, i)
        == sprite_covers(m.memory, m.index as int, ox, oy, n, i % 64, i / 64) by {}
    let drawn = draw_rows(m.panel, regs0, m.memory, m.index as int, x, y, n, 0);
    assert(drawn.0 =~= xor_sprite(m.panel, m.memory, m.index as int, ox, oy, n));
    let e = exists|i: int|
        0 <= i < 2048 && #[trigger] m.panel[i] && rows_covers(m.memory, m.index as int, ox, oy, n, 0, i);
    assert(e == sprite_collides(m.panel, m.memory, m.index as int, ox, oy, n));
    assert(drawn.1 =~= m.regs.update(15, if e { 1u8 } else { 0u8 }));
}

/// Law: drawing the same sprite twice at the same place leaves the screen
/// as it was (when neither coordinate register is `VF`).
pub proof fn lemma_draw_twice_restores(m: Machine, x: int, y: int, n: int)
    requires
        well_sized(m),
        0 <= x < 15,
        0 <= y < 15,
        0 <= n,
    ensures
        draw_spec(draw_spec(m, x, y, n), x, y, n).panel == m.panel,
{
    lemma_draw_is_xor(m, x, y, n);
    let m1 = draw_spec(m, x, y, n);
    assert(well_sized(m1));
    lemma_draw_is_xor(m1, x, y, n);
    assert(m1.regs[x] == m.regs[x] && m1.regs[y] == m.regs[y]);
    assert(draw_spec(m1, x, y, n).panel =~= m.panel);
}

/// Law: the four nibbles of an opcode are hexadecimal digits that spell the
/// opcode again, and the operands `NNN`, `NN` and `N` are its last three,
/// two and one digits.
pub proof fn lemma_nibbles_spell_opcode(op: u16)
    ensures
        ({
            let nb = nibbles_of(op);
            &&& nb.len() == 4
            &&& nb[0] < 16 && nb[1] < 16 && nb[2] < 16 && nb[3] < 16
            &&& nb[0] * 4096 + nb[1] * 256 + nb[2] * 16 + nb[3] == op
            &&& nnn_of(op) == nb[1] * 256 + nb[2] * 16 + nb[3]
            &&& nn_of(op) == nb[2] * 16 + nb[3]
            &&& n_of(op) == nb[3]
        }),
{
}

/// Law: a subroutine call followed by a return resumes right after the
/// call. When the instruction at `pc` is `2NNN` and the subroutine at `NNN`
/// starts with `00EE`, two cycles bring the program counter to `pc + 2`
/// with the stack pointer, registers and memory as before; both cycles can
/// run.
pub proof fn lemma_call_then_return(m: Machine, variant: Variant, keys: Keypad, r1: u8, r2: u8)
    requires
        well_sized(m),
        m.pc + 1 < 4096,
        word_at(m.memory, m.pc as int) / 4096 == 2,
        nnn_of(word_at(m.memory, m.pc as int)) + 1 < 4096,
        m.memory[nnn_of(word_at(m.memory, m.pc as int)) as int] == 0x00,
        m.memory[nnn_of(word_at(m.memory, m.pc as int)) + 1] == 0xEE,
        call_slot(m.sp) < 16,
    ensures
        ({
            let m1 = cycle_spec(m, variant, keys, r1);
            let m2 = cycle_spec(m1, variant, keys, r2);
            &&& cycle_safe(m, keys)
            &&& cycle_safe(m1, keys)
            &&& m1.pc == nnn_of(word_at(m.memory, m.pc as int))
            &&& m2.pc == m.pc + 2
            &&& m2.sp == m.sp
            &&& m2.regs == m.regs
            &&& m2.index == m.index
            &&& m2.memory == m.memory
            &&& m2.panel == m.panel
        }),
{
    reveal(cycle_spec);
    reveal(cycle_safe);
    let op = word_at(m.memory, m.pc as int);
    lemma_nibbles_spell_opcode(op);
    let m1 = cycle_spec(m, variant, keys, r1);
    assert(word_at(m1.memory, m1.pc as int) == 0xEEu16);
    assert(nibbles_of(0xEEu16) == seq![0u8, 0u8, 0xEu8, 0xEu8]);
}

/// Law: storing `V0..=VX` with `FX55` and loading them back with `FX65`
/// from the same address gives the stored values back, whatever the
/// registers held in between; the registers above `VX` are left alone.
pub proof fn lemma_store_then_load(
    m: Machine,
    store: u16,
    load: u16,
    regs: Seq<u8>,
    variant: Variant,
    keys: Keypad,
    r1: u8,
    r2: u8,
)
    requires
        well_sized(m),
        regs.len() == 16,
        m.ir == Some(store),
        nibbles_of(store) == seq![0xFu8, nibbles_of(store)[1], 5u8, 5u8],
        nibbles_of(load) == seq![0xFu8, nibbles_of(store)[1], 6u8, 5u8],
        m.index + nibbles_of(store)[1] < 4096,
    ensures
        ({
            let x = nibbles_of(store)[1] as int;
            let m1 = execute_spec(m, nibbles_of(store), variant, keys, r1);
            let m2 = execute_spec(
                Machine { ir: Some(load), index: m.index, regs, ..m1 },
                nibbles_of(load),
                variant,
                keys,
                r2,
            );
            &&& forall|k: int| 0 <= k <= x ==> #[trigger] m2.regs[k] == m.regs[k]
            &&& forall|k: int| x < k < 16 ==> #[trigger] m2.regs[k] == regs[k]
            &&& m2.memory == m1.memory
        }),
{
}

/// Law: loading registers `V0..=VX` (the effect of `FX65`) from where they
/// were stored (the effect of `FX55`) gives the stored values back; the
/// registers above `VX` keep what they held, and memory outside the stored
/// block is untouched.
pub proof fn lemma_load_after_store(memory: Seq<u8>, i: int, x: int, saved: Seq<u8>, regs: Seq<u8>)
    requires
        memory.len() == 4096,
        saved.len() == 16,
        regs.len() == 16,
        0 <= x < 16,
        0 <= i,
        i + x < 4096,
    ensures
        ({
            let stored = store_registers(memory, i, x, saved);
            let loaded = load_registers(regs, stored, i, x);
            &&& loaded.len() == 16
            &&& forall|k: int| 0 <= k <= x ==> #[trigger] loaded[k] == saved[k]
            &&& forall|k: int| x < k < 16 ==> #[trigger] loaded[k] == regs[k]
            &&& forall|k: int| 0 <= k < 4096 && (k < i || k > i + x) ==> #[trigger] stored[k] == memory[k]
        }),
{
}

/// Law: `FX33` stores the three decimal digits of `VX`, most significant
/// first: each is below 10 and together they spell `VX`.
pub proof fn lemma_bcd_digits(memory: Seq<u8>, i: int, v: u8)
    requires
        0 <= i,
        i + 2 < memory.len(),
    ensures
        ({
            let stored = store_bcd(memory, i, v);
            &&& stored[i] < 10 && stored[i + 1] < 10 && stored[i + 2] < 10
            &&& stored[i] * 100 + stored[i + 1] * 10 + stored[i + 2] == v
            &&& forall|k: int| 0 <= k < memory.len() && (k < i || k > i + 2) ==> #[trigger] stored[k] == memory[k]
        }),
{
}

/// Law: `8XY4` (with `X` other than `F`) adds with carry: `VF * 256 + VX`
/// after the instruction is `VX + VY` before it.
pub proof fn lemma_add_carries(m: Machine, op: u16, variant: Variant, keys: Keypad, r: u8)
    requires
        well_sized(m),
        m.ir == Some(op),
        nibbles_of(op)[0] == 8,
        nibbles_of(op)[3] == 4,
        nibbles_of(op)[1] != 15,
    ensures
        ({
            let x = nibbles_of(op)[1] as int;
            let y = nibbles_of(op)[2] as int;
            let m1 = execute_spec(m, nibbles_of(op), variant, keys, r);
            m1.regs[15] * 256 + m1.regs[x] == m.regs[x] + m.regs[y]
        }),
{
    let nb = nibbles_of(op);
    let x = nb[1] as int;
    let y = nb[2] as int;
    let sum = m.regs[x] + m.regs[y];
    let m1 = execute_spec(m, nb, variant, keys, r);
    assert(m1.regs == m.regs.update(x, (sum % 256) as u8).update(
        15,
        if sum > 255 {
            1u8
        } else {
            0u8
        },
    ));
    assert(0 <= sum < 512);
    assert(sum % 256 == if sum > 255 { sum - 256 } else { sum });
}

/// Law: `8XY5` (with `X` other than `F`) subtracts with borrow: `VX - VY`
/// before the instruction is `VX - 256 * (1 - VF)` after it.
pub proof fn lemma_sub_borrows(m: Machine, op: u16, variant: Variant, keys: Keypad, r: u8)
    requires
        well_sized(m),
        m.ir == Some(op),
        nibbles_of(op)[0] == 8,
        nibbles_of(op)[3] == 5,
        nibbles_of(op)[1] != 15,
    ensures
        ({
            let x = nibbles_of(op)[1] as int;
            let y = nibbles_of(op)[2] as int;
            let m1 = execute_spec(m, nibbles_of(op), variant, keys, r);
            &&& m1.regs[15] <= 1
            &&& m1.regs[x] - 256 * (1 - m1.regs[15]) == m.regs[x] - m.regs[y]
        }),
{
    let nb = nibbles_of(op);
    let x = nb[1] as int;
    let y = nb[2] as int;
    let diff = m.regs[x] - m.regs[y];
    let m1 = execute_spec(m, nb, variant, keys, r);
    assert(m1.regs == m.regs.update(x, (diff % 256) as u8).update(
        15,
        if m.regs[x] >= m.regs[y] {
            1u8
        } else {
            0u8
        },
    ));
    assert(-256 < diff < 256);
    assert(diff % 256 == if diff >= 0 { diff } else { diff + 256 });
}

/// Law: only `FX33` and `FX55` write memory, and only `2NNN` writes the
/// stack; every other instruction leaves both as they were.
pub proof fn lemma_memory_and_stack_frame(m: Machine, nb: Seq<u8>, variant: Variant, keys: Keypad, r: u8)
    requires
        well_sized(m),
        nb.len() == 4,
    ensures
        ({
            let m1 = execute_spec(m, nb, variant, keys, r);
            &&& !(nb[0] == 0xF && nb[3] == 5 && nb[2] == 5) && !(nb[0] == 0xF && nb[2] == 3 && nb[3] == 3)
                ==> m1.memory == m.memory
            &&& nb[0] != 2 ==> m1.stack == m.stack
        }),
{
}

} // verus!
