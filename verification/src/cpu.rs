use vstd::prelude::*;

use crate::bus::Bus;
use crate::keypad::Keypad;
use crate::machine::{
    Machine, call_slot, nibbles_of, word_at, draw_cols, draw_rows, last_sprite_row,
    store_bcd, store_registers, load_registers, blank_panel, execute_spec, execute_safe,
    fetch_spec, cycle_spec, cycle_safe, nnn_of, nn_of, n_of,
};
use crate::random::random_u32;
use crate::variant::Variant;

verus! {

/// Where the index register starts.
pub const STARTING_MEMORY_ADDRESS: usize = 0x000;

/// Where programs are loaded and where execution starts.
pub const STARTING_ROM_ADDRESS: u16 = 0x200;

/// Address of the next instruction.
pub struct ProgramCounter {
    pub address: u16,
}

impl ProgramCounter {
    /// Points at the start of the program area.
    pub fn start() -> (pc: Self)
        ensures
            pc.address == STARTING_ROM_ADDRESS,
    {
        Self { address: STARTING_ROM_ADDRESS }
    }

    /// Moves past one two-byte instruction.
    pub fn increment(&mut self)
        requires
            old(self).address + 2 <= u16::MAX,
        ensures
            final(self).address == old(self).address + 2,
    {
        self.address += 2u16;
    }

    /// Moves back one two-byte instruction.
    pub fn decrement(&mut self)
        requires
            old(self).address >= 2,
        ensures
            final(self).address == old(self).address - 2,
    {
        self.address -= 2u16;
    }

    /// Continues at `address`.
    pub fn jump(&mut self, address: u16)
        ensures
            final(self).address == address,
    {
        self.address = address;
    }

    /// Skips `step` instructions.
    pub fn skip(&mut self, step: u16)
        requires
            old(self).address + 2 * step <= u16::MAX,
        ensures
            final(self).address == old(self).address + 2 * step,
    {
        self.address += 2 * step;
    }

    /// Continues at `address` and hands back the address to return to.
    pub fn call(&mut self, address: u16) -> (return_address: u16)
        ensures
            return_address == old(self).address,
            final(self).address == address,
    {
        let return_address = self.address;
        self.address = address;
        return_address
    }
}

/// Fetches, decodes and executes instructions.
pub struct ControlUnit {
    /// The current instruction.
    pub instruction_register: Option<u16>,
    pub program_counter: ProgramCounter,
    /// Slot of the top of the call stack, `None` when it is empty.
    pub stack_pointer: Option<usize>,
}

/// The machine as the control unit, the bus, the index register, the
/// registers and the two timers hold it.
pub open spec fn machine_of(
    cu: ControlUnit,
    bus: Bus,
    index: usize,
    regs: [u8; 16],
    delay: u8,
    sound: u8,
) -> Machine {
    Machine {
        ir: cu.instruction_register,
        pc: cu.program_counter.address,
        sp: cu.stack_pointer,
        memory: bus.ram.memory@,
        stack: bus.ram.stack@,
        panel: bus.display.panel@,
        index,
        regs: regs@,
        delay,
        sound,
    }
}

impl ControlUnit {
    /// No instruction fetched, execution at the program start, stack empty.
    pub fn start() -> (cu: Self)
        ensures
            cu.instruction_register is None,
            cu.program_counter.address == STARTING_ROM_ADDRESS,
            cu.stack_pointer is None,
    {
        Self {
            instruction_register: None,
            program_counter: ProgramCounter::start(),
            stack_pointer: None,
        }
    }

    /// Calls the subroutine at `address`: the return address goes on top of
    /// the stack.
    pub fn push(&mut self, address: u16, bus: &mut Bus)
        requires
            call_slot(old(self).stack_pointer) < 16,
        ensures
            final(self).program_counter.address == address,
            final(self).stack_pointer == Some(call_slot(old(self).stack_pointer) as usize),
            final(self).instruction_register == old(self).instruction_register,
            final(bus).ram.stack@ == old(bus).ram.stack@.update(
                call_slot(old(self).stack_pointer),
                old(self).program_counter.address,
            ),
            final(bus).ram.memory == old(bus).ram.memory,
            final(bus).display == old(bus).display,
    {
        let return_address = self.program_counter.call(address);
        let index = match self.stack_pointer {
            Some(index) => {
                let index: usize = index + 1;
                bus.ram.stack[index] = return_address;
                index
            },
            None => {
                let index: usize = 0;
                bus.ram.stack[index] = return_address;
                index
            },
        };
        self.stack_pointer = Some(index);
    }

    /// Returns from a subroutine: execution continues at the address on top
    /// of the stack, which is dropped.
    pub fn pop(&mut self, bus: &Bus)
        requires
            old(self).stack_pointer matches Some(i) && i < 16,
        ensures
            final(self).program_counter.address == bus.ram.stack[old(self).stack_pointer.unwrap() as int],
            final(self).stack_pointer == (if old(self).stack_pointer.unwrap() == 0 {
                None
            } else {
                Some((old(self).stack_pointer.unwrap() - 1) as usize)
            }),
            final(self).instruction_register == old(self).instruction_register,
    {
        let top = self.stack_pointer.unwrap();
        let return_address = bus.ram.stack[top];
        self.program_counter.jump(return_address);
        let index = match self.stack_pointer {
            Some(0) => None,
            _ => Some(top - 1),
        };
        self.stack_pointer = index;
    }

    /// Reads the big-endian instruction at the program counter and moves
    /// past it.
    pub fn fetch(&mut self, bus: &Bus)
        requires
            old(self).program_counter.address + 1 < 4096,
        ensures
            final(self).instruction_register == Some(
                word_at(bus.ram.memory@, old(self).program_counter.address as int),
            ),
            final(self).program_counter.address == old(self).program_counter.address + 2,
            final(self).stack_pointer == old(self).stack_pointer,
    {
        let pc = self.program_counter.address as usize;
        let high = bus.read(pc);
        let low = bus.read(pc + 1);
        let opcode = (high as u16) << 8 | (low as u16);
        assert(((high as u16) << 8 | (low as u16)) == (high as u16) * 256 + (low as u16))
            by (bit_vector);
        self.instruction_register = Some(opcode);
        self.program_counter.increment();
    }

    /// Splits the current instruction into its four hexadecimal digits.
    pub fn decode(&self) -> (nibbles: Option<[u8; 4]>)
        ensures
            match self.instruction_register {
                None => nibbles is None,
                Some(op) => nibbles matches Some(nb) && nb@ == nibbles_of(op),
            },
    {
        if let Some(opcode) = self.instruction_register {
            Some(self.separate_opcode(opcode))
        } else {
            None
        }
    }

    /// The four hexadecimal digits of `opcode`, most significant first.
    pub fn separate_opcode(&self, opcode: u16) -> (nibbles: [u8; 4])
        ensures
            nibbles@ == nibbles_of(opcode),
    {
        assert((opcode & 0xF000) >> 12u16 == opcode / 4096) by (bit_vector);
        assert((opcode & 0x0F00) >> 8u16 == (opcode / 256) % 16) by (bit_vector);
        assert((opcode & 0x00F0) >> 4u16 == (opcode / 16) % 16) by (bit_vector);
        assert(opcode & 0x000F == opcode % 16) by (bit_vector);
        let nibbles = [
            ((opcode & 0xF000) >> 12u16) as u8,
            ((opcode & 0x0F00) >> 8u16) as u8,
            ((opcode & 0x00F0) >> 4u16) as u8,
            (opcode & 0x000F) as u8,
        ];
        assert(nibbles@ =~= nibbles_of(opcode));
        nibbles
    }
}

impl ControlUnit {
    /// `00EE`: returns from a subroutine.
    fn op_0x00ee(&mut self, bus: &Bus)
        requires
            old(self).stack_pointer matches Some(i) && i < 16,
        ensures
            final(self).program_counter.address == bus.ram.stack[old(self).stack_pointer.unwrap() as int],
            final(self).stack_pointer == (if old(self).stack_pointer.unwrap() == 0 {
                None
            } else {
                Some((old(self).stack_pointer.unwrap() - 1) as usize)
            }),
            final(self).instruction_register == old(self).instruction_register,
    {
        self.pop(bus);
    }

    /// `00E0`: clears the screen.
    fn op_0x00e0(&self, bus: &mut Bus)
        ensures
            final(bus).display.panel@ == blank_panel(),
            final(bus).display.width == old(bus).display.width,
            final(bus).display.height == old(bus).display.height,
            final(bus).ram == old(bus).ram,
    {
        bus.display.clear();
    }

    /// `1NNN`: jumps to `nnn`.
    fn op_0x1nnn(&mut self, nnn: u16)
        ensures
            final(self).program_counter.address == nnn,
            final(self).stack_pointer == old(self).stack_pointer,
            final(self).instruction_register == old(self).instruction_register,
    {
        self.program_counter.jump(nnn);
    }

    /// `2NNN`: calls the subroutine at `nnn`.
    fn op_0x2nnn(&mut self, nnn: u16, bus: &mut Bus)
        requires
            call_slot(old(self).stack_pointer) < 16,
        ensures
            final(self).program_counter.address == nnn,
            final(self).stack_pointer == Some(call_slot(old(self).stack_pointer) as usize),
            final(self).instruction_register == old(self).instruction_register,
            final(bus).ram.stack@ == old(bus).ram.stack@.update(
                call_slot(old(self).stack_pointer),
                old(self).program_counter.address,
            ),
            final(bus).ram.memory == old(bus).ram.memory,
            final(bus).display == old(bus).display,
    {
        self.push(nnn, bus);
    }

    /// Skips the next instruction when `cond` holds.
    fn skip_when(&mut self, cond: bool)
        requires
            cond ==> old(self).program_counter.address + 2 <= u16::MAX,
        ensures
            final(self).program_counter.address == (if cond {
                (old(self).program_counter.address + 2) as u16
            } else {
                old(self).program_counter.address
            }),
            final(self).stack_pointer == old(self).stack_pointer,
            final(self).instruction_register == old(self).instruction_register,
    {
        if cond {
            self.program_counter.skip(1);
        }
    }

    /// `3XNN`: skips the next instruction when `VX == nn`.
    fn op_0x3xnn(&mut self, x: usize, nn: u8, registers: &[u8; 16])
        requires
            x < 16,
            registers[x as int] == nn ==> old(self).program_counter.address + 2 <= u16::MAX,
        ensures
            final(self).program_counter.address == (if registers[x as int] == nn {
                (old(self).program_counter.address + 2) as u16
            } else {
                old(self).program_counter.address
            }),
            final(self).stack_pointer == old(self).stack_pointer,
            final(self).instruction_register == old(self).instruction_register,
    {
        self.skip_when(registers[x] == nn);
    }

    /// `4XNN`: skips the next instruction when `VX != nn`.
    fn op_0x4xnn(&mut self, x: usize, nn: u8, registers: &[u8; 16])
        requires
            x < 16,
            registers[x as int] != nn ==> old(self).program_counter.address + 2 <= u16::MAX,
        ensures
            final(self).program_counter.address == (if registers[x as int] != nn {
                (old(self).program_counter.address + 2) as u16
            } else {
                old(self).program_counter.address
            }),
            final(self).stack_pointer == old(self).stack_pointer,
            final(self).instruction_register == old(self).instruction_register,
    {
        self.skip_when(registers[x] != nn);
    }

    /// `5XY0`: skips the next instruction when `VX == VY`.
    fn op_0x5xy0(&mut self, x: usize, y: usize, registers: &[u8; 16])
        requires
            x < 16,
            y < 16,
            registers[x as int] == registers[y as int] ==> old(self).program_counter.address + 2
                <= u16::MAX,
        ensures
            final(self).program_counter.address == (if registers[x as int] == registers[y as int] {
                (old(self).program_counter.address + 2) as u16
            } else {
                old(self).program_counter.address
            }),
            final(self).stack_pointer == old(self).stack_pointer,
            final(self).instruction_register == old(self).instruction_register,
    {
        self.skip_when(registers[x] == registers[y]);
    }

    /// `6XNN`: `VX = nn`.
    fn op_0x6xnn(&self, x: usize, nn: u8, registers: &mut [u8; 16])
        requires
            x < 16,
        ensures
            final(registers)@ == old(registers)@.update(x as int, nn),
    {
        registers[x] = nn;
    }

    /// `7XNN`: `VX += nn`, wrapping, without touching `VF`.
    fn op_0x7xnn(&self, x: usize, nn: u8, registers: &mut [u8; 16])
        requires
            x < 16,
        ensures
            final(registers)@ == old(registers)@.update(
                x as int,
                ((old(registers)[x as int] + nn) % 256) as u8,
            ),
    {
        registers[x] = registers[x].wrapping_add(nn);
    }

    /// `8XY0`: `VX = VY`.
    fn op_0x8xy0(&self, x: usize, y: usize, registers: &mut [u8; 16])
        requires
            x < 16,
            y < 16,
        ensures
            final(registers)@ == old(registers)@.update(x as int, old(registers)[y as int]),
    {
        registers[x] = registers[y];
    }

    /// `8XY1`: `VX |= VY`.
    fn op_0x8xy1(&self, x: usize, y: usize, registers: &mut [u8; 16])
        requires
            x < 16,
            y < 16,
        ensures
            final(registers)@ == old(registers)@.update(
                x as int,
                old(registers)[x as int] | old(registers)[y as int],
            ),
    {
        registers[x] = registers[x] | registers[y];
    }

    /// `8XY2`: `VX &= VY`.
    fn op_0x8xy2(&self, x: usize, y: usize, registers: &mut [u8; 16])
        requires
            x < 16,
            y < 16,
        ensures
            final(registers)@ == old(registers)@.update(
                x as int,
                old(registers)[x as int] & old(registers)[y as int],
            ),
    {
        registers[x] = registers[x] & registers[y];
    }

    /// `8XY3`: `VX ^= VY`.
    fn op_0x8xy3(&self, x: usize, y: usize, registers: &mut [u8; 16])
        requires
            x < 16,
            y < 16,
        ensures
            final(registers)@ == old(registers)@.update(
                x as int,
                old(registers)[x as int] ^ old(registers)[y as int],
            ),
    {
        registers[x] = registers[x] ^ registers[y];
    }

    /// `8XY4`: `VX += VY`, wrapping; then `VF` is the carry.
    fn op_0x8xy4(&self, x: usize, y: usize, registers: &mut [u8; 16])
        requires
            x < 16,
            y < 16,
        ensures
            ({
                let vx = old(registers)[x as int];
                let vy = old(registers)[y as int];
                final(registers)@ == old(registers)@.update(x as int, ((vx + vy) % 256) as u8).update(
                    15,
                    if vx + vy > 255 {
                        1u8
                    } else {
                        0u8
                    },
                )
            }),
    {
        let sum = registers[x] as u16 + registers[y] as u16;
        let overflowed = sum > 255;
        registers[x] = (sum % 256) as u8;
        registers[15] = if overflowed {
            1
        } else {
            0
        };
    }

    /// `8XY5`: `VX -= VY`, wrapping; then `VF` is 1 when no borrow occurred.
    fn op_0x8xy5(&self, x: usize, y: usize, registers: &mut [u8; 16])
        requires
            x < 16,
            y < 16,
        ensures
            ({
                let vx = old(registers)[x as int];
                let vy = old(registers)[y as int];
                final(registers)@ == old(registers)@.update(x as int, ((vx - vy) % 256) as u8).update(
                    15,
                    if vx >= vy {
                        1u8
                    } else {
                        0u8
                    },
                )
            }),
    {
        let vx = registers[x];
        let vy = registers[y];
        let underflowed = vx < vy;
        registers[x] = vx.wrapping_sub(vy);
        registers[15] = if underflowed {
            0
        } else {
            1
        };
    }

    /// `8XY6`: `VX = VY >> 1`; then `VF` is the bit shifted out.
    fn op_0x8xy6(&self, x: usize, y: usize, registers: &mut [u8; 16])
        requires
            x < 16,
            y < 16,
        ensures
            ({
                let vy = old(registers)[y as int];
                final(registers)@ == old(registers)@.update(x as int, vy / 2).update(15, vy % 2)
            }),
    {
        let vy = registers[y];
        let dropped_bit = vy & 1;
        assert(vy & 1 == vy % 2) by (bit_vector);
        assert(vy >> 1u8 == vy / 2) by (bit_vector);
        registers[x] = vy >> 1u8;
        registers[15] = dropped_bit;
    }

    /// `8XY7`: `VX = VY - VX`, wrapping; then `VF` is 1 when no borrow occurred.
    fn op_0x8xy7(&self, x: usize, y: usize, registers: &mut [u8; 16])
        requires
            x < 16,
            y < 16,
        ensures
            ({
                let vx = old(registers)[x as int];
                let vy = old(registers)[y as int];
                final(registers)@ == old(registers)@.update(x as int, ((vy - vx) % 256) as u8).update(
                    15,
                    if vy >= vx {
                        1u8
                    } else {
                        0u8
                    },
                )
            }),
    {
        let vx = registers[x];
        let vy = registers[y];
        let underflowed = vy < vx;
        registers[x] = vy.wrapping_sub(vx);
        registers[15] = if underflowed {
            0
        } else {
            1
        };
    }

    /// `8XYE`: `VX = VY << 1`, wrapping; then `VF` is the bit shifted out.
    fn op_0x8xye(&self, x: usize, y: usize, registers: &mut [u8; 16])
        requires
            x < 16,
            y < 16,
        ensures
            ({
                let vy = old(registers)[y as int];
                final(registers)@ == old(registers)@.update(x as int, ((vy * 2) % 256) as u8).update(
                    15,
                    vy / 128,
                )
            }),
    {
        let vy = registers[y];
        let dropped_bit = (vy >> 7u8) & 1;
        assert((vy >> 7u8) & 1 == vy / 128) by (bit_vector);
        assert(vy << 1u8 == ((vy * 2) % 256) as u8) by (bit_vector);
        registers[x] = vy << 1u8;
        registers[15] = dropped_bit;
    }

    /// `9XY0`: skips the next instruction when `VX != VY`.
    fn op_0x9xy0(&mut self, x: usize, y: usize, registers: &[u8; 16])
        requires
            x < 16,
            y < 16,
            registers[x as int] != registers[y as int] ==> old(self).program_counter.address + 2
                <= u16::MAX,
        ensures
            final(self).program_counter.address == (if registers[x as int] != registers[y as int] {
                (old(self).program_counter.address + 2) as u16
            } else {
                old(self).program_counter.address
            }),
            final(self).stack_pointer == old(self).stack_pointer,
            final(self).instruction_register == old(self).instruction_register,
    {
        self.skip_when(registers[x] != registers[y]);
    }

    /// `ANNN`: `I = nnn`.
    fn op_0xannn(&self, nnn: u16, index_register: &mut usize)
        ensures
            *final(index_register) == nnn as usize,
    {
        *index_register = nnn as usize;
    }

    /// `BNNN` on CHIP-8: jumps to `V0 + nnn`.
    fn op_0xbnnn(&mut self, nnn: u16, registers: &[u8; 16])
        requires
            nnn < 4096,
        ensures
            final(self).program_counter.address == registers[0] + nnn,
            final(self).stack_pointer == old(self).stack_pointer,
            final(self).instruction_register == old(self).instruction_register,
    {
        self.program_counter.jump(registers[0] as u16 + nnn);
    }

    /// `BXNN` on CHIP-48: jumps to `VX + nn`.
    fn op_0xbxnn(&mut self, x: usize, nn: u8, registers: &[u8; 16])
        requires
            x < 16,
        ensures
            final(self).program_counter.address == registers[x as int] + nn,
            final(self).stack_pointer == old(self).stack_pointer,
            final(self).instruction_register == old(self).instruction_register,
    {
        self.program_counter.jump(registers[x] as u16 + nn as u16);
    }

    /// `CXNN`: `VX` is a random byte masked by `nn`.
    fn op_0xcxnn(&self, x: usize, nn: u8, registers: &mut [u8; 16])
        requires
            x < 16,
        ensures
            exists|r: u8| final(registers)@ == old(registers)@.update(x as int, #[trigger] (r & nn)),
    {
        let random = random_u32();
        self.op_0xcxnn_with(x, nn, random, registers);
    }

    /// The rest of `CXNN` once the generator has produced `random`: `VX` is
    /// its low byte masked by `nn`.
    pub fn op_0xcxnn_with(&self, x: usize, nn: u8, random: u32, registers: &mut [u8; 16])
        requires
            x < 16,
        ensures
            final(registers)@ == old(registers)@.update(x as int, ((random % 256) as u8) & nn),
    {
        let random_byte = (random % 256) as u8;
        registers[x] = random_byte & nn;
    }
}

impl ControlUnit {
    /// `EX9E`: skips the next instruction when key `VX` is held down.
    fn op_0xex9e(&mut self, x: usize, registers: &[u8; 16], keypad: &Keypad)
        requires
            x < 16,
            keypad.down[(registers[x as int] % 16) as int] ==> old(self).program_counter.address + 2
                <= u16::MAX,
        ensures
            final(self).program_counter.address == (if keypad.down[(registers[x as int] % 16) as int] {
                (old(self).program_counter.address + 2) as u16
            } else {
                old(self).program_counter.address
            }),
            final(self).stack_pointer == old(self).stack_pointer,
            final(self).instruction_register == old(self).instruction_register,
    {
        let vx = registers[x];
        let key = vx & 0xF;
        assert(vx & 0xF == vx % 16) by (bit_vector);
        self.skip_when(keypad.is_down(key));
    }

    /// `EXA1`: skips the next instruction when key `VX` is not held down.
    fn op_0xexa1(&mut self, x: usize, registers: &[u8; 16], keypad: &Keypad)
        requires
            x < 16,
            !keypad.down[(registers[x as int] % 16) as int] ==> old(self).program_counter.address + 2
                <= u16::MAX,
        ensures
            final(self).program_counter.address == (if !keypad.down[(registers[x as int] % 16) as int] {
                (old(self).program_counter.address + 2) as u16
            } else {
                old(self).program_counter.address
            }),
            final(self).stack_pointer == old(self).stack_pointer,
            final(self).instruction_register == old(self).instruction_register,
    {
        let vx = registers[x];
        let key = vx & 0xF;
        assert(vx & 0xF == vx % 16) by (bit_vector);
        self.skip_when(!keypad.is_down(key));
    }

    /// `FX0A`: waits for a key press: stores the pressed key in `VX`, or,
    /// when none was pressed, steps back so that the instruction runs again.
    fn op_0xfx0a(&mut self, x: usize, registers: &mut [u8; 16], keypad: &Keypad)
        requires
            x < 16,
            keypad.pressed is None ==> old(self).program_counter.address >= 2,
        ensures
            match keypad.pressed {
                Some(key) => final(registers)@ == old(registers)@.update(x as int, key)
                    && final(self).program_counter == old(self).program_counter,
                None => final(registers)@ == old(registers)@
                    && final(self).program_counter.address == old(self).program_counter.address - 2,
            },
            final(self).stack_pointer == old(self).stack_pointer,
            final(self).instruction_register == old(self).instruction_register,
    {
        if let Some(key) = keypad.pressed {
            registers[x] = key;
        } else {
            self.program_counter.decrement();
        }
    }

    /// `FX07`: `VX` = delay timer.
    fn op_0xfx07(&self, x: usize, delay_timer: &u8, registers: &mut [u8; 16])
        requires
            x < 16,
        ensures
            final(registers)@ == old(registers)@.update(x as int, *delay_timer),
    {
        registers[x] = *delay_timer;
    }

    /// `FX15`: delay timer = `VX`.
    fn op_0xfx15(&self, x: usize, delay_timer: &mut u8, registers: &[u8; 16])
        requires
            x < 16,
        ensures
            *final(delay_timer) == registers[x as int],
    {
        *delay_timer = registers[x];
    }

    /// `FX18`: sound timer = `VX`.
    fn op_0xfx18(&self, x: usize, sound_timer: &mut u8, registers: &[u8; 16])
        requires
            x < 16,
        ensures
            *final(sound_timer) == registers[x as int],
    {
        *sound_timer = registers[x];
    }

    /// `FX1E`: `I += VX`.
    fn op_0xfx1e(&self, x: usize, index_register: &mut usize, registers: &[u8; 16])
        requires
            x < 16,
            *old(index_register) + registers[x as int] <= usize::MAX,
        ensures
            *final(index_register) == *old(index_register) + registers[x as int],
    {
        *index_register += registers[x] as usize;
    }

    /// `FX29`: `I` = address of the font glyph for the low digit of `VX`.
    fn op_0xfx29(&self, x: usize, index_register: &mut usize, registers: &[u8; 16])
        requires
            x < 16,
        ensures
            *final(index_register) == (registers[x as int] % 16) * 5,
    {
        let vx = registers[x];
        assert(vx & 0x0F == vx % 16) by (bit_vector);
        *index_register = (vx & 0x0F) as usize * 5;
    }

    /// `FX33`: stores the three decimal digits of `VX` at `I`, `I + 1`, `I + 2`.
    fn op_0xfx33(&self, x: usize, index_register: &usize, registers: &[u8; 16], bus: &mut Bus)
        requires
            x < 16,
            *index_register + 2 < 4096,
        ensures
            final(bus).ram.memory@ == store_bcd(
                old(bus).ram.memory@,
                *index_register as int,
                registers[x as int],
            ),
            final(bus).ram.stack == old(bus).ram.stack,
            final(bus).display == old(bus).display,
    {
        bus.write(*index_register, registers[x] / 100);
        bus.write(*index_register + 1, (registers[x] / 10) % 10);
        bus.write(*index_register + 2, registers[x] % 10);
    }

    /// `FX55`: stores `V0` to `VX` at `I`, advancing `I` past them.
    fn op_0xfx55(&self, x: usize, index_register: &mut usize, registers: &[u8; 16], bus: &mut Bus)
        requires
            x < 16,
            *old(index_register) + x < 4096,
        ensures
            final(bus).ram.memory@ == store_registers(
                old(bus).ram.memory@,
                *old(index_register) as int,
                x as int,
                registers@,
            ),
            *final(index_register) == *old(index_register) + x + 1,
            final(bus).ram.stack == old(bus).ram.stack,
            final(bus).display == old(bus).display,
    {
        let ghost start = *index_register as int;
        let ghost memory = bus.ram.memory@;
        let mut index: usize = 0;
        while index <= x
            invariant
                x < 16,
                index <= x + 1,
                start + x < 4096,
                *index_register == start + index,
                bus.ram.stack == old(bus).ram.stack,
                bus.display == old(bus).display,
                bus.ram.memory@.len() == 4096,
                forall|k: int|
                    0 <= k < 4096 ==> #[trigger] bus.ram.memory@[k] == (if start <= k < start + index {
                        registers@[k - start]
                    } else {
                        memory[k]
                    }),
            decreases x + 1 - index,
        {
            bus.write(*index_register, registers[index]);
            *index_register += 1;
            index += 1;
        }
        assert(bus.ram.memory@ =~= store_registers(memory, start, x as int, registers@));
    }

    /// `FX65`: loads `V0` to `VX` from `I`, advancing `I` past them.
    fn op_0xfx65(&self, x: usize, index_register: &mut usize, registers: &mut [u8; 16], bus: &Bus)
        requires
            x < 16,
            *old(index_register) + x < 4096,
        ensures
            final(registers)@ == load_registers(
                old(registers)@,
                bus.ram.memory@,
                *old(index_register) as int,
                x as int,
            ),
            *final(index_register) == *old(index_register) + x + 1,
    {
        let ghost start = *index_register as int;
        let ghost regs = registers@;
        let mut index: usize = 0;
        while index <= x
            invariant
                x < 16,
                index <= x + 1,
                start + x < 4096,
                *index_register == start + index,
                forall|k: int|
                    0 <= k < 16 ==> #[trigger] registers@[k] == (if k < index {
                        bus.ram.memory@[start + k]
                    } else {
                        regs[k]
                    }),
            decreases x + 1 - index,
        {
            registers[index] = bus.read(*index_register);
            *index_register += 1;
            index += 1;
        }
        assert(registers@ =~= load_registers(regs, bus.ram.memory@, start, x as int));
    }
}

impl ControlUnit {
    /// `DXYN`: draws the `n`-row sprite stored at `I` at position
    /// `(VX mod 64, VY mod 32)`, clipped at the right and bottom edges.
    /// Every lit sprite bit flips its pixel; `VF` ends up 1 when some pixel
    /// was turned off and 0 otherwise.
    fn op_dxyn(
        &mut self,
        x: usize,
        y: usize,
        n: u8,
        registers: &mut [u8; 16],
        bus: &mut Bus,
        index_register: &usize,
    )
        requires
            x < 16,
            y < 16,
            n < 16,
            old(bus).display.wf(),
            n > 0 ==> *index_register + last_sprite_row(
                old(registers)@.update(15, 0u8),
                y as int,
                n as int,
            ) < 4096,
        ensures
            (final(bus).display.panel@, final(registers)@) == draw_rows(
                old(bus).display.panel@,
                old(registers)@.update(15, 0u8),
                old(bus).ram.memory@,
                *index_register as int,
                x as int,
                y as int,
                n as int,
                0,
            ),
            final(bus).ram == old(bus).ram,
            final(bus).display.width == old(bus).display.width,
            final(bus).display.height == old(bus).display.height,
            *final(self) == *old(self),
    {
        registers[15] = 0;
        let ghost regs0 = registers@;
        let ghost memory = bus.ram.memory@;
        let ghost start = *index_register as int;
        let ghost target = draw_rows(
            bus.display.panel@,
            regs0,
            memory,
            start,
            x as int,
            y as int,
            n as int,
            0,
        );
        let ghost vy0 = registers[y as int];
        let mut row: usize = 0;
        while row < n as usize
            invariant
                x < 16,
                y < 16,
                n < 16,
                row <= n,
                bus.display.wf(),
                bus.ram == old(bus).ram,
                memory == bus.ram.memory@,
                start == *index_register,
                vy0 == regs0[y as int],
                n > 0 ==> start + last_sprite_row(regs0, y as int, n as int) < 4096,
                registers[15] <= 1,
                y != 15 ==> registers[y as int] == vy0,
                y != 15 && row > 0 ==> vy0 as int % 32 + row <= 32,
                draw_rows(
                    bus.display.panel@,
                    registers@,
                    memory,
                    start,
                    x as int,
                    y as int,
                    n as int,
                    row as int,
                ) == target,
            ensures
                (bus.display.panel@, registers@) == target,
                bus.display.wf(),
                bus.ram == old(bus).ram,
            decreases n - row,
        {
            let sprite_byte = bus.read(*index_register + row);
            let pixel_y = (registers[y] as usize % bus.display.height) + row;
            if pixel_y >= bus.display.height {
                break;
            }
            let ghost panel_before = bus.display.panel@;
            let ghost regs_before = registers@;
            let mut col: usize = 0;
            while col < 8
                invariant
                    x < 16,
                    y < 16,
                    col <= 8,
                    pixel_y < 32,
                    bus.display.wf(),
                    bus.ram == old(bus).ram,
                    registers[15] <= 1,
                    y != 15 ==> registers[y as int] == vy0,
                    draw_cols(
                        bus.display.panel@,
                        registers@,
                        sprite_byte,
                        x as int,
                        pixel_y as int,
                        col as int,
                    ) == draw_cols(
                        panel_before,
                        regs_before,
                        sprite_byte,
                        x as int,
                        pixel_y as int,
                        0,
                    ),
                ensures
                    (bus.display.panel@, registers@) == draw_cols(
                        panel_before,
                        regs_before,
                        sprite_byte,
                        x as int,
                        pixel_y as int,
                        0,
                    ),
                    bus.display.wf(),
                    bus.ram == old(bus).ram,
                    registers[15] <= 1,
                    y != 15 ==> registers[y as int] == vy0,
                decreases 8 - col,
            {
                let pixel_x = (registers[x] as usize % bus.display.width) + col;
                if pixel_x >= bus.display.width {
                    break;
                }
                let pixel_on = (sprite_byte >> ((7 - col) as u8)) & 1 == 1;
                if pixel_on {
                    let at = pixel_y * 64 + pixel_x;
                    if bus.display.panel[at] {
                        registers[15] = 1;
                        bus.display.panel[at] = false;
                    } else {
                        bus.display.panel[at] = true;
                    }
                }
                col += 1;
            }
            row += 1;
        }
    }
}

impl ControlUnit {
    /// Runs one cycle: fetches the instruction at the program counter,
    /// decodes it and executes it. `keypad` is what the keypad reports; the
    /// random byte of `CXNN` comes from the generator, so the result is
    /// stated for some byte `r`.
    pub fn cycle(
        &mut self,
        variant: &Variant,
        bus: &mut Bus,
        index_register: &mut usize,
        registers: &mut [u8; 16],
        delay_timer: &mut u8,
        sound_timer: &mut u8,
        keypad: &Keypad,
    )
        requires
            old(bus).display.wf(),
            cycle_safe(
                machine_of(
                    *old(self),
                    *old(bus),
                    *old(index_register),
                    *old(registers),
                    *old(delay_timer),
                    *old(sound_timer),
                ),
                *keypad,
            ),
        ensures
            final(bus).display.wf(),
            exists|r: u8|
                machine_of(
                    *final(self),
                    *final(bus),
                    *final(index_register),
                    *final(registers),
                    *final(delay_timer),
                    *final(sound_timer),
                ) == #[trigger] cycle_spec(
                    machine_of(
                        *old(self),
                        *old(bus),
                        *old(index_register),
                        *old(registers),
                        *old(delay_timer),
                        *old(sound_timer),
                    ),
                    *variant,
                    *keypad,
                    r,
                ),
    {
        let ghost m0 = machine_of(*self, *bus, *index_register, *registers, *delay_timer, *sound_timer);
        proof {
            reveal(cycle_spec);
            reveal(cycle_safe);
        }
        self.fetch(&bus);
        let ghost m1 = machine_of(*self, *bus, *index_register, *registers, *delay_timer, *sound_timer);
        assert(m1 == fetch_spec(m0));
        let nibbles = self.decode();
        self.execute(nibbles, variant, bus, index_register, registers, delay_timer, sound_timer, keypad);
        proof {
            let m2 = machine_of(*self, *bus, *index_register, *registers, *delay_timer, *sound_timer);
            let r = choose|r: u8|
                m2 == #[trigger] execute_spec(m1, nibbles_of(m1.ir.unwrap()), *variant, *keypad, r);
            assert(m2 == cycle_spec(m0, *variant, *keypad, r));
        }
    }

    /// Executes the decoded instruction `nibbles`, taking the operands `NNN`,
    /// `NN` and `N` from the instruction register. `None` does nothing.
    #[verifier::rlimit(60)]
    pub fn execute(
        &mut self,
        nibbles: Option<[u8; 4]>,
        variant: &Variant,
        bus: &mut Bus,
        index_register: &mut usize,
        registers: &mut [u8; 16],
        delay_timer: &mut u8,
        sound_timer: &mut u8,
        keypad: &Keypad,
    )
        requires
            old(bus).display.wf(),
            nibbles matches Some(nb) ==> execute_safe(
                machine_of(
                    *old(self),
                    *old(bus),
                    *old(index_register),
                    *old(registers),
                    *old(delay_timer),
                    *old(sound_timer),
                ),
                nb@,
                *keypad,
            ),
        ensures
            final(bus).display.wf(),
            match nibbles {
                None => machine_of(
                    *final(self),
                    *final(bus),
                    *final(index_register),
                    *final(registers),
                    *final(delay_timer),
                    *final(sound_timer),
                ) == machine_of(
                    *old(self),
                    *old(bus),
                    *old(index_register),
                    *old(registers),
                    *old(delay_timer),
                    *old(sound_timer),
                ),
                Some(nb) => exists|r: u8|
                    machine_of(
                        *final(self),
                        *final(bus),
                        *final(index_register),
                        *final(registers),
                        *final(delay_timer),
                        *final(sound_timer),
                    ) == #[trigger] execute_spec(
                        machine_of(
                            *old(self),
                            *old(bus),
                            *old(index_register),
                            *old(registers),
                            *old(delay_timer),
                            *old(sound_timer),
                        ),
                        nb@,
                        *variant,
                        *keypad,
                        r,
                    ),
            },
    {
        if let Some(nibbles) = nibbles {
            let ghost m = machine_of(*self, *bus, *index_register, *registers, *delay_timer, *sound_timer);
            let ghost regs0 = registers@;
            let x = nibbles[1] as usize;
            let y = nibbles[2] as usize;
            let opcode = self.instruction_register.unwrap();
            let nnn = opcode & 0x0FFF;
            let nn = (opcode & 0x00FF) as u8;
            let n = (opcode & 0x000F) as u8;
            assert(opcode & 0x0FFF == opcode % 4096) by (bit_vector);
            assert(opcode & 0x00FF == opcode % 256) by (bit_vector);
            assert(opcode & 0x000F == opcode % 16) by (bit_vector);
            assert(nnn == nnn_of(opcode) && nn == nn_of(opcode) && n == n_of(opcode));
            let a = nibbles[0];
            let b = nibbles[1];
            let c = nibbles[2];
            let d = nibbles[3];
            if a == 0x0 && b == 0x0 && c == 0xE && d == 0x0 {
                self.op_0x00e0(bus);
            } else if a == 0x0 && b == 0x0 && c == 0xE && d == 0xE {
                self.op_0x00ee(bus);
            } else if a == 0x0 {
                // Machine-code routines (`0NNN`) are not supported.
            } else if a == 0x1 {
                self.op_0x1nnn(nnn);
            } else if a == 0x2 {
                self.op_0x2nnn(nnn, bus);
            } else if a == 0x3 {
                self.op_0x3xnn(x, nn, registers);
            } else if a == 0x4 {
                self.op_0x4xnn(x, nn, registers);
            } else if a == 0x5 && d == 0x0 {
                self.op_0x5xy0(x, y, registers);
            } else if a == 0x6 {
                self.op_0x6xnn(x, nn, registers);
            } else if a == 0x7 {
                self.op_0x7xnn(x, nn, registers);
            } else if a == 0x8 && d == 0x0 {
                self.op_0x8xy0(x, y, registers);
            } else if a == 0x8 && d == 0x1 {
                self.op_0x8xy1(x, y, registers);
            } else if a == 0x8 && d == 0x2 {
                self.op_0x8xy2(x, y, registers);
            } else if a == 0x8 && d == 0x3 {
                self.op_0x8xy3(x, y, registers);
            } else if a == 0x8 && d == 0x4 {
                self.op_0x8xy4(x, y, registers);
            } else if a == 0x8 && d == 0x5 {
                self.op_0x8xy5(x, y, registers);
            } else if a == 0x8 && d == 0x6 {
                self.op_0x8xy6(x, y, registers);
            } else if a == 0x8 && d == 0x7 {
                self.op_0x8xy7(x, y, registers);
            } else if a == 0x8 && d == 0xE {
                self.op_0x8xye(x, y, registers);
            } else if a == 0x9 && d == 0x0 {
                self.op_0x9xy0(x, y, registers);
            } else if a == 0xA {
                self.op_0xannn(nnn, index_register);
            } else if a == 0xB {
                if *variant == Variant::CHIP8 {
                    self.op_0xbnnn(nnn, registers);
                } else {
                    self.op_0xbxnn(x, nn, registers);
                }
            } else if a == 0xC {
                self.op_0xcxnn(x, nn, registers);
            } else if a == 0xD {
                self.op_dxyn(x, y, n, registers, bus, index_register);
            } else if a == 0xE && c == 0x9 && d == 0xE {
                self.op_0xex9e(x, registers, keypad);
            } else if a == 0xE && c == 0xA && d == 0x1 {
                self.op_0xexa1(x, registers, keypad);
            } else if a == 0xF && c == 0x0 && d == 0x7 {
                self.op_0xfx07(x, delay_timer, registers);
            } else if a == 0xF && c == 0x0 && d == 0xA {
                self.op_0xfx0a(x, registers, keypad);
            } else if a == 0xF && c == 0x1 && d == 0x5 {
                self.op_0xfx15(x, delay_timer, registers);
            } else if a == 0xF && c == 0x1 && d == 0x8 {
                self.op_0xfx18(x, sound_timer, registers);
            } else if a == 0xF && c == 0x1 && d == 0xE {
                self.op_0xfx1e(x, index_register, registers);
            } else if a == 0xF && c == 0x2 && d == 0x9 {
                self.op_0xfx29(x, index_register, registers);
            } else if a == 0xF && c == 0x3 && d == 0x3 {
                self.op_0xfx33(x, index_register, registers, bus);
            } else if a == 0xF && c == 0x5 && d == 0x5 {
                self.op_0xfx55(x, index_register, registers, bus);
            } else if a == 0xF && c == 0x6 && d == 0x5 {
                self.op_0xfx65(x, index_register, registers, bus);
            }
            proof {
                let outcome = machine_of(*self, *bus, *index_register, *registers, *delay_timer, *sound_timer);
                if a == 0xC {
                    let r = choose|r: u8| registers@ == regs0.update(x as int, #[trigger] (r & nn));
                    assert(outcome == execute_spec(m, nibbles@, *variant, *keypad, r));
                } else {
                    assert(outcome == execute_spec(m, nibbles@, *variant, *keypad, 0u8));
                }
            }
        }
    }
}

/// The registers, the index register and the control unit.
pub struct CPU {
    /// `V0` to `VF`.
    pub registers: [u8; 16],
    /// `I`, the memory address that sprite and memory instructions use.
    pub index_register: usize,
    pub control_unit: ControlUnit,
}

impl CPU {
    /// Registers zero, `I` at the start of memory, control unit at the
    /// program start.
    pub fn start() -> (cpu: Self)
        ensures
            forall|i: int| 0 <= i < 16 ==> cpu.registers[i] == 0u8,
            cpu.index_register == STARTING_MEMORY_ADDRESS,
            cpu.control_unit.instruction_register is None,
            cpu.control_unit.program_counter.address == STARTING_ROM_ADDRESS,
            cpu.control_unit.stack_pointer is None,
    {
        Self {
            registers: [0u8; 16],
            index_register: STARTING_MEMORY_ADDRESS,
            control_unit: ControlUnit::start(),
        }
    }
}

} // verus!
