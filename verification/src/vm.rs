use vstd::prelude::*;

use crate::bus::Bus;
use crate::cartridge::Cartridge;
use crate::cpu::{CPU, STARTING_ROM_ADDRESS, machine_of};
use crate::display::Display;
use crate::fontset::FONTSET;
use crate::keypad::Keypad;
use crate::machine::{Machine, blank_panel, cycle_safe, cycle_spec, run, run_safe};
use crate::ram::RAM;
use crate::variant::Variant;

verus! {

/// Memory right after boot: the font at address 0, the ROM from address
/// 0x200 on, zeros in between.
pub open spec fn boot_memory(rom: Seq<u8>) -> Seq<u8> {
    Seq::new(
        4096,
        |i: int|
            if i < 80 {
                FONTSET@[i]
            } else if 512 <= i {
                rom[i - 512]
            } else {
                0u8
            },
    )
}

/// The machine right after boot, with the sound timer at `sound`.
pub open spec fn boot_state(rom: Seq<u8>, sound: u8) -> Machine {
    Machine {
        ir: None,
        pc: 0x200,
        sp: None,
        memory: boot_memory(rom),
        stack: Seq::new(16, |i: int| 0u16),
        panel: blank_panel(),
        index: 0,
        regs: Seq::new(16, |i: int| 0u8),
        delay: 0,
        sound,
    }
}

/// One more cycle extends a run: the state is the cycle applied to the
/// state before, and the run stays safe when that cycle could run.
proof fn lemma_run_push(m0: Machine, variant: Variant, keys: Keypad, rs: Seq<u8>, r: u8)
    requires
        run_safe(m0, variant, keys, rs),
        cycle_safe(run(m0, variant, keys, rs), keys),
    ensures
        run(m0, variant, keys, rs.push(r)) == cycle_spec(run(m0, variant, keys, rs), variant, keys, r),
        run_safe(m0, variant, keys, rs.push(r)),
{
    let next = rs.push(r);
    assert(next.drop_last() =~= rs);
    assert(next.take(rs.len() as int) =~= rs);
    assert forall|i: int| 0 <= i < next.len() implies cycle_safe(
        #[trigger] run(m0, variant, keys, next.take(i)),
        keys,
    ) by {
        if i < rs.len() {
            assert(next.take(i) =~= rs.take(i));
        }
    }
}

/// A frame stopped because the next cycle could not run (the instruction
/// lies outside memory, or executing it would leave memory, the stack or
/// the index register's range).
#[derive(Clone, Copy, Debug, PartialEq, Eq, Structural)]
pub struct Fault {
    /// The program counter at the instruction that could not run.
    pub pc: u16,
}

/// The whole emulated machine.
pub struct VirtualMachine {
    pub cpu: CPU,
    pub bus: Bus,
    pub delay_timer: u8,
    /// Counts down at 60 Hz; the buzzer sounds as it runs out.
    pub sound_timer: u8,
    pub variant: Variant,
}

impl VirtualMachine {
    /// The machine state that instructions act on.
    pub open spec fn state(&self) -> Machine {
        machine_of(
            self.cpu.control_unit,
            self.bus,
            self.cpu.index_register,
            self.cpu.registers,
            self.delay_timer,
            self.sound_timer,
        )
    }

    /// The screen has its fixed dimensions.
    pub open spec fn wf(&self) -> bool {
        self.bus.display.wf()
    }

    /// Powers the machine on with `cartridge` loaded. The sound timer keeps
    /// the value `sound_timer` that the buzzer holds.
    pub fn boot(cartridge: Cartridge, variant: Variant, sound_timer: u8) -> (vm: Self)
        ensures
            vm.wf(),
            vm.state() == boot_state(cartridge.buffer@, sound_timer),
            vm.cpu.control_unit.program_counter.address == 0x200,
            vm.cpu.control_unit.stack_pointer is None,
            vm.cpu.control_unit.instruction_register is None,
            vm.cpu.index_register == 0,
            forall|i: int| 0 <= i < 16 ==> #[trigger] vm.cpu.registers[i] == 0u8,
            forall|i: int| 0 <= i < 16 ==> #[trigger] vm.bus.ram.stack[i] == 0u16,
            forall|i: int| 0 <= i < 2048 ==> !#[trigger] vm.bus.display.panel[i],
            vm.delay_timer == 0,
            vm.sound_timer == sound_timer,
            vm.variant == variant,
    {
        let vm = Self {
            cpu: CPU::start(),
            bus: Bus { ram: Self::controller(cartridge), display: Display::on() },
            delay_timer: 0,
            sound_timer: sound_timer,
            variant: variant,
        };
        assert(vm.bus.ram.stack@ =~= Seq::new(16, |i: int| 0u16));
        assert(vm.cpu.registers@ =~= Seq::new(16, |i: int| 0u8));
        vm
    }

    /// Memory with the font at address 0 and the cartridge's ROM from
    /// address 0x200 on; the stack is zero.
    pub fn controller(cartridge: Cartridge) -> (ram: RAM)
        ensures
            ram.memory@ == boot_memory(cartridge.buffer@),
            forall|i: int| 0 <= i < 80 ==> #[trigger] ram.memory[i] == FONTSET@[i],
            forall|i: int| 80 <= i < 512 ==> #[trigger] ram.memory[i] == 0u8,
            forall|k: int| 0 <= k < 3584 ==> #[trigger] ram.memory[512 + k] == cartridge.buffer[k],
            forall|i: int| 0 <= i < 16 ==> ram.stack[i] == 0u16,
    {
        let mut ram = RAM::start();
        let mut index: usize = 0;
        while index < FONTSET.len()
            invariant
                index <= 80,
                forall|i: int| 0 <= i < 16 ==> ram.stack[i] == 0u16,
                forall|i: int| 0 <= i < index ==> ram.memory[i] == FONTSET@[i],
                forall|i: int| index <= i < 4096 ==> ram.memory[i] == 0u8,
            decreases 80 - index,
        {
            ram.memory[index] = FONTSET[index];
            index += 1;
        }
        let mut index: usize = 0;
        while index < cartridge.buffer.len()
            invariant
                index <= 3584,
                forall|i: int| 0 <= i < 16 ==> ram.stack[i] == 0u16,
                forall|i: int| 0 <= i < 80 ==> ram.memory[i] == FONTSET@[i],
                forall|i: int| 80 <= i < 512 ==> ram.memory[i] == 0u8,
                forall|i: int| 512 <= i < 512 + index ==> ram.memory[i] == cartridge.buffer[i - 512],
                forall|i: int| 512 + index <= i < 4096 ==> ram.memory[i] == 0u8,
            ensures
                index == 3584,
            decreases 3584 - index,
        {
            let address = STARTING_ROM_ADDRESS + index as u16;
            if address >= 4096 {
                break;
            }
            ram.memory[address as usize] = cartridge.buffer[index];
            index += 1;
        }
        assert(ram.memory@ =~= boot_memory(cartridge.buffer@));
        ram
    }

    /// Whether the next cycle can run with `keypad`: the instruction at the
    /// program counter lies in memory and executing it stays within the
    /// bounds of memory, the stack and the index register.
    pub fn can_cycle(&self, keypad: &Keypad) -> (ok: bool)
        ensures
            ok == cycle_safe(self.state(), *keypad),
    {
        reveal(cycle_safe);
        let cu = &self.cpu.control_unit;
        let pc = cu.program_counter.address;
        if pc as usize + 1 >= 4096 {
            return false;
        }
        let high = self.bus.read(pc as usize);
        let low = self.bus.read(pc as usize + 1);
        let opcode = (high as u16) << 8 | (low as u16);
        assert(((high as u16) << 8 | (low as u16)) == (high as u16) * 256 + (low as u16))
            by (bit_vector);
        let nibbles = cu.separate_opcode(opcode);
        let next_pc = pc + 2;
        let a = nibbles[0];
        let b = nibbles[1];
        let c = nibbles[2];
        let d = nibbles[3];
        let x = b as usize;
        let y = c as usize;
        let vx = self.cpu.registers[x];
        let vy = self.cpu.registers[y];
        let nn = (opcode & 0x00FF) as u8;
        let n = (opcode & 0x000F) as usize;
        assert(opcode & 0x00FF == opcode % 256) by (bit_vector);
        assert(opcode & 0x000F == opcode % 16) by (bit_vector);
        let index = self.cpu.index_register;
        assert(vx & 0xF == vx % 16) by (bit_vector);
        let key_down = keypad.is_down(vx & 0xF);
        let skips = (a == 3 && vx == nn) || (a == 4 && vx != nn) || (a == 5 && d == 0 && vx == vy) || (
        a == 9 && d == 0 && vx != vy) || (a == 0xE && c == 9 && d == 0xE && key_down) || (a == 0xE
            && c == 0xA && d == 1 && !key_down);
        if skips && next_pc > 0xFFFD {
            return false;
        }
        if a == 0 && b == 0 && c == 0xE && d == 0xE {
            match cu.stack_pointer {
                Some(i) => {
                    if i >= 16 {
                        return false;
                    }
                },
                None => {
                    return false;
                },
            }
        }
        if a == 2 {
            match cu.stack_pointer {
                Some(i) => {
                    if i >= 15 {
                        return false;
                    }
                },
                None => {},
            }
        }
        if a == 0xD && n > 0 {
            let vy_cleared: u8 = if y == 15 {
                0
            } else {
                vy
            };
            let below = 32 - (vy_cleared as usize % 32);
            let last_row = if y == 15 || n - 1 <= below {
                n - 1
            } else {
                below
            };
            if index >= 4096 || index + last_row >= 4096 {
                return false;
            }
        }
        if a == 0xF && c == 0 && d == 0xA && next_pc < 2 {
            return false;
        }
        if a == 0xF && c == 1 && d == 0xE && index > usize::MAX - vx as usize {
            return false;
        }
        if a == 0xF && c == 3 && d == 3 && (index >= 4096 || index + 2 >= 4096) {
            return false;
        }
        if a == 0xF && (c == 5 || c == 6) && d == 5 && (index >= 4096 || index + x >= 4096) {
            return false;
        }
        true
    }

    /// Lets the control unit run one frame's worth of cycles (ten) with the
    /// keypad as `keypad` reports it. Before each cycle the machine checks
    /// that the cycle can run; if it cannot, the frame stops there with a
    /// `Fault` at the program counter.
    pub fn process(&mut self, keypad: &Keypad) -> (outcome: Result<(), Fault>)
        requires
            old(self).wf(),
        ensures
            final(self).wf(),
            final(self).variant == old(self).variant,
            exists|rs: Seq<u8>|
                {
                    &&& #[trigger] rs.len() <= 10
                    &&& final(self).state() == run(old(self).state(), old(self).variant, *keypad, rs)
                    &&& run_safe(old(self).state(), old(self).variant, *keypad, rs)
                    &&& (outcome is Ok <==> rs.len() == 10)
                },
            outcome matches Err(fault) ==> !cycle_safe(final(self).state(), *keypad) && fault.pc
                == final(self).state().pc,
    {
        let ghost m0 = self.state();
        let ghost variant = self.variant;
        let ghost mut rs: Seq<u8> = Seq::empty();
        assert(run(m0, variant, *keypad, rs) == m0);
        let mut cycles: u8 = 0;
        while cycles < Self::CYCLES_PER_FRAME
            invariant
                cycles <= 10,
                rs.len() == cycles,
                variant == old(self).variant,
                m0 == old(self).state(),
                self.wf(),
                self.variant == variant,
                self.state() == run(m0, variant, *keypad, rs),
                run_safe(m0, variant, *keypad, rs),
            decreases 10 - cycles,
        {
            if !self.can_cycle(keypad) {
                let pc = self.cpu.control_unit.program_counter.address;
                return Err(Fault { pc });
            }
            let ghost before = self.state();
            self.cpu.control_unit.cycle(
                &self.variant,
                &mut self.bus,
                &mut self.cpu.index_register,
                &mut self.cpu.registers,
                &mut self.delay_timer,
                &mut self.sound_timer,
                keypad,
            );
            proof {
                let r = choose|r: u8| self.state() == #[trigger] cycle_spec(before, variant, *keypad, r);
                lemma_run_push(m0, variant, *keypad, rs, r);
                rs = rs.push(r);
            }
            cycles += 1;
        }
        Ok(())
    }

    /// Cycles run per frame.
    pub const CYCLES_PER_FRAME: u8 = 10;

    /// Counts both timers down by one (at 60 Hz), stopping at zero. Returns
    /// whether the buzzer sounds now, which happens as the sound timer runs
    /// out (when it was 1).
    pub fn update_timers(&mut self) -> (beep: bool)
        ensures
            final(self).delay_timer == (if old(self).delay_timer > 0 {
                (old(self).delay_timer - 1) as u8
            } else {
                0u8
            }),
            final(self).sound_timer == (if old(self).sound_timer > 0 {
                (old(self).sound_timer - 1) as u8
            } else {
                0u8
            }),
            beep == (old(self).sound_timer == 1),
            final(self).cpu == old(self).cpu,
            final(self).bus == old(self).bus,
            final(self).variant == old(self).variant,
    {
        if self.delay_timer > 0 {
            self.delay_timer -= 1;
        }
        let mut beep = false;
        if self.sound_timer > 0 {
            if self.sound_timer == 1 {
                beep = true;
            }
            self.sound_timer -= 1;
        }
        beep
    }
}

} // verus!
