use chip8::cartridge::Cartridge;
use chip8::cpu::{ControlUnit, ProgramCounter, CPU, STARTING_ROM_ADDRESS};
use chip8::fontset::FONTSET;
use chip8::keypad::Keypad;
use chip8::variant::Variant;
use chip8::vm::{Fault, VirtualMachine};

fn machine_with(program: &[u16], variant: Variant) -> VirtualMachine {
    let mut rom = Vec::new();
    for word in program {
        rom.push((word >> 8) as u8);
        rom.push((word & 0xFF) as u8);
    }
    let cartridge = Cartridge::from_rom(&rom).unwrap();
    VirtualMachine::boot(cartridge, variant, 0)
}

fn step(vm: &mut VirtualMachine, keypad: &Keypad) {
    assert!(vm.can_cycle(keypad));
    vm.cpu.control_unit.cycle(
        &vm.variant,
        &mut vm.bus,
        &mut vm.cpu.index_register,
        &mut vm.cpu.registers,
        &mut vm.delay_timer,
        &mut vm.sound_timer,
        keypad,
    );
}

fn steps(vm: &mut VirtualMachine, count: usize) {
    let keypad = Keypad::idle();
    for _ in 0..count {
        step(vm, &keypad);
    }
}

fn pc(vm: &VirtualMachine) -> u16 {
    vm.cpu.control_unit.program_counter.address
}

fn pixel(vm: &VirtualMachine, x: usize, y: usize) -> bool {
    vm.bus.display.pixel(x, y)
}

#[test]
fn boot_loads_font_and_rom() {
    let vm = machine_with(&[0x1234, 0xABCD], Variant::CHIP8);
    assert_eq!(&vm.bus.ram.memory[..80], &FONTSET[..]);
    assert!(vm.bus.ram.memory[80..0x200].iter().all(|b| *b == 0));
    assert_eq!(&vm.bus.ram.memory[0x200..0x204], &[0x12, 0x34, 0xAB, 0xCD]);
    assert!(vm.bus.ram.memory[0x204..].iter().all(|b| *b == 0));
    assert_eq!(pc(&vm), STARTING_ROM_ADDRESS);
    assert_eq!(vm.cpu.index_register, 0);
    assert_eq!(vm.cpu.control_unit.stack_pointer, None);
    assert_eq!(vm.cpu.control_unit.instruction_register, None);
    assert_eq!(vm.delay_timer, 0);
    assert_eq!(vm.sound_timer, 0);
    assert!(vm.bus.display.panel.iter().all(|p| !*p));
    assert_eq!(vm.bus.display.width, 64);
    assert_eq!(vm.bus.display.height, 32);
}

#[test]
fn controller_fills_whole_program_area() {
    let rom = vec![0x5Au8; 3584];
    let ram = VirtualMachine::controller(Cartridge::from_rom(&rom).unwrap());
    assert_eq!(ram.memory[0x200], 0x5A);
    assert_eq!(ram.memory[4095], 0x5A);
    assert_eq!(ram.memory[0x1FF], 0);
}

#[test]
fn cpu_and_control_unit_start() {
    let cpu = CPU::start();
    assert_eq!(cpu.registers, [0; 16]);
    assert_eq!(cpu.index_register, 0);
    let cu = ControlUnit::start();
    assert_eq!(cu.program_counter.address, 0x200);
    assert_eq!(cu.stack_pointer, None);
    assert!(cu.decode().is_none());
}

#[test]
fn program_counter_moves() {
    let mut pc = ProgramCounter::start();
    assert_eq!(pc.address, 0x200);
    pc.increment();
    assert_eq!(pc.address, 0x202);
    pc.decrement();
    assert_eq!(pc.address, 0x200);
    pc.skip(3);
    assert_eq!(pc.address, 0x206);
    let back = pc.call(0x300);
    assert_eq!(back, 0x206);
    assert_eq!(pc.address, 0x300);
    pc.jump(0x400);
    assert_eq!(pc.address, 0x400);
}

#[test]
fn separate_opcode_splits_digits() {
    let cu = ControlUnit::start();
    assert_eq!(cu.separate_opcode(0xABCD), [0xA, 0xB, 0xC, 0xD]);
    assert_eq!(cu.separate_opcode(0x00EE), [0x0, 0x0, 0xE, 0xE]);
}

#[test]
fn fetch_reads_big_endian_and_advances() {
    let vm = machine_with(&[0x6A2B], Variant::CHIP8);
    let mut cu = ControlUnit::start();
    cu.fetch(&vm.bus);
    assert_eq!(cu.instruction_register, Some(0x6A2B));
    assert_eq!(cu.program_counter.address, 0x202);
    assert_eq!(cu.decode(), Some([0x6, 0xA, 0x2, 0xB]));
}

#[test]
fn clear_screen() {
    let mut vm = machine_with(&[0x00E0], Variant::CHIP8);
    vm.bus.display.panel[5] = true;
    steps(&mut vm, 1);
    assert!(vm.bus.display.panel.iter().all(|p| !*p));
}

#[test]
fn machine_code_routine_is_ignored() {
    let mut vm = machine_with(&[0x0123, 0x6001], Variant::CHIP8);
    steps(&mut vm, 2);
    assert_eq!(vm.cpu.registers[0], 1);
    assert_eq!(pc(&vm), 0x204);
}

#[test]
fn jump() {
    let mut vm = machine_with(&[0x1234], Variant::CHIP8);
    steps(&mut vm, 1);
    assert_eq!(pc(&vm), 0x234);
}

#[test]
fn call_then_return_resumes_after_call() {
    // 0x200: call 0x206; 0x202: V0 = 1; 0x204: jump self; 0x206: return
    let mut vm = machine_with(&[0x2206, 0x6001, 0x1204, 0x00EE], Variant::CHIP8);
    steps(&mut vm, 1);
    assert_eq!(pc(&vm), 0x206);
    assert_eq!(vm.cpu.control_unit.stack_pointer, Some(0));
    assert_eq!(vm.bus.ram.stack[0], 0x202);
    steps(&mut vm, 1);
    assert_eq!(pc(&vm), 0x202);
    assert_eq!(vm.cpu.control_unit.stack_pointer, None);
    steps(&mut vm, 1);
    assert_eq!(vm.cpu.registers[0], 1);
}

#[test]
fn nested_calls_use_next_slots() {
    let mut vm = machine_with(&[0x2202, 0x2204, 0x00EE], Variant::CHIP8);
    steps(&mut vm, 2);
    assert_eq!(vm.cpu.control_unit.stack_pointer, Some(1));
    assert_eq!(vm.bus.ram.stack[0], 0x202);
    assert_eq!(vm.bus.ram.stack[1], 0x204);
    steps(&mut vm, 1);
    assert_eq!(pc(&vm), 0x204);
    assert_eq!(vm.cpu.control_unit.stack_pointer, Some(0));
}

#[test]
fn push_and_pop_directly() {
    let mut vm = machine_with(&[0x0000], Variant::CHIP8);
    let mut cu = ControlUnit::start();
    cu.push(0x345, &mut vm.bus);
    assert_eq!(cu.program_counter.address, 0x345);
    assert_eq!(cu.stack_pointer, Some(0));
    assert_eq!(vm.bus.ram.stack[0], 0x200);
    cu.pop(&vm.bus);
    assert_eq!(cu.program_counter.address, 0x200);
    assert_eq!(cu.stack_pointer, None);
}

#[test]
fn skip_if_equal_immediate() {
    let mut vm = machine_with(&[0x6105, 0x3105, 0x0000, 0x3106], Variant::CHIP8);
    steps(&mut vm, 2);
    assert_eq!(pc(&vm), 0x206);
    steps(&mut vm, 1);
    assert_eq!(pc(&vm), 0x208);
}

#[test]
fn skip_if_not_equal_immediate() {
    let mut vm = machine_with(&[0x4100, 0x4101], Variant::CHIP8);
    steps(&mut vm, 1);
    assert_eq!(pc(&vm), 0x202);
    let mut vm = machine_with(&[0x4101], Variant::CHIP8);
    steps(&mut vm, 1);
    assert_eq!(pc(&vm), 0x204);
}

#[test]
fn skip_on_register_comparison() {
    let mut vm = machine_with(&[0x6007, 0x6107, 0x5010, 0x0000, 0x9010], Variant::CHIP8);
    steps(&mut vm, 3);
    assert_eq!(pc(&vm), 0x208);
    steps(&mut vm, 1);
    assert_eq!(pc(&vm), 0x20A);
}

#[test]
fn load_and_add_immediate_wraps_without_flag() {
    let mut vm = machine_with(&[0x60FF, 0x6F07, 0x7002], Variant::CHIP8);
    steps(&mut vm, 3);
    assert_eq!(vm.cpu.registers[0], 1);
    assert_eq!(vm.cpu.registers[0xF], 7);
}

#[test]
fn logic_operations() {
    let mut vm = machine_with(
        &[0x600C, 0x610A, 0x8011, 0x620C, 0x8212, 0x630C, 0x8313, 0x6409, 0x8400],
        Variant::CHIP8,
    );
    steps(&mut vm, 9);
    assert_eq!(vm.cpu.registers[0], 0x0E);
    assert_eq!(vm.cpu.registers[2], 0x08);
    assert_eq!(vm.cpu.registers[3], 0x06);
    assert_eq!(vm.cpu.registers[4], 0x0E);
}

#[test]
fn add_registers_sets_carry() {
    let mut vm = machine_with(&[0x60F0, 0x6120, 0x8014, 0x6205, 0x8214], Variant::CHIP8);
    steps(&mut vm, 3);
    assert_eq!(vm.cpu.registers[0], 0x10);
    assert_eq!(vm.cpu.registers[0xF], 1);
    steps(&mut vm, 2);
    assert_eq!(vm.cpu.registers[2], 0x25);
    assert_eq!(vm.cpu.registers[0xF], 0);
}

#[test]
fn subtract_registers_sets_no_borrow_flag() {
    let mut vm = machine_with(&[0x6005, 0x6107, 0x8015], Variant::CHIP8);
    steps(&mut vm, 3);
    assert_eq!(vm.cpu.registers[0], 0xFE);
    assert_eq!(vm.cpu.registers[0xF], 0);
    let mut vm = machine_with(&[0x6009, 0x6107, 0x8015], Variant::CHIP8);
    steps(&mut vm, 3);
    assert_eq!(vm.cpu.registers[0], 2);
    assert_eq!(vm.cpu.registers[0xF], 1);
}

#[test]
fn reverse_subtract() {
    let mut vm = machine_with(&[0x6003, 0x610A, 0x8017], Variant::CHIP8);
    steps(&mut vm, 3);
    assert_eq!(vm.cpu.registers[0], 7);
    assert_eq!(vm.cpu.registers[0xF], 1);
    let mut vm = machine_with(&[0x600A, 0x6103, 0x8017], Variant::CHIP8);
    steps(&mut vm, 3);
    assert_eq!(vm.cpu.registers[0], 0xF9);
    assert_eq!(vm.cpu.registers[0xF], 0);
}

#[test]
fn shifts_take_vy_and_report_dropped_bit() {
    let mut vm = machine_with(&[0x6105, 0x8016], Variant::CHIP8);
    steps(&mut vm, 2);
    assert_eq!(vm.cpu.registers[0], 2);
    assert_eq!(vm.cpu.registers[0xF], 1);
    let mut vm = machine_with(&[0x6181, 0x801E], Variant::CHIP8);
    steps(&mut vm, 2);
    assert_eq!(vm.cpu.registers[0], 2);
    assert_eq!(vm.cpu.registers[0xF], 1);
    let mut vm = machine_with(&[0x6140, 0x801E], Variant::CHIP8);
    steps(&mut vm, 2);
    assert_eq!(vm.cpu.registers[0], 0x80);
    assert_eq!(vm.cpu.registers[0xF], 0);
}

#[test]
fn flag_wins_when_destination_is_vf() {
    let mut vm = machine_with(&[0x6FFF, 0x6102, 0x8F14], Variant::CHIP8);
    steps(&mut vm, 3);
    assert_eq!(vm.cpu.registers[0xF], 1);
}

#[test]
fn set_index() {
    let mut vm = machine_with(&[0xA123], Variant::CHIP8);
    steps(&mut vm, 1);
    assert_eq!(vm.cpu.index_register, 0x123);
}

#[test]
fn jump_with_offset_depends_on_variant() {
    let mut vm = machine_with(&[0x6010, 0x6320, 0xB300], Variant::CHIP8);
    steps(&mut vm, 3);
    assert_eq!(pc(&vm), 0x310);
    let mut vm = machine_with(&[0x6010, 0x6320, 0xB300], Variant::CHIP48);
    steps(&mut vm, 3);
    assert_eq!(pc(&vm), 0x20);
}

#[test]
fn random_is_masked() {
    for _ in 0..20 {
        let mut vm = machine_with(&[0x60FF, 0xC00F, 0x61FF, 0xC100], Variant::CHIP8);
        steps(&mut vm, 4);
        assert_eq!(vm.cpu.registers[0] & 0xF0, 0);
        assert_eq!(vm.cpu.registers[1], 0);
    }
}

#[test]
fn draw_font_glyph() {
    // I = glyph 0; draw it at (2, 3)
    let mut vm = machine_with(&[0x6002, 0x6103, 0xA000, 0xD015], Variant::CHIP8);
    steps(&mut vm, 4);
    // glyph 0: F0 90 90 90 F0
    for col in 0..4 {
        assert!(pixel(&vm, 2 + col, 3));
        assert!(pixel(&vm, 2 + col, 7));
    }
    assert!(pixel(&vm, 2, 4));
    assert!(!pixel(&vm, 3, 4));
    assert!(pixel(&vm, 5, 4));
    assert!(!pixel(&vm, 6, 3));
    assert!(!pixel(&vm, 2, 8));
    assert_eq!(vm.cpu.registers[0xF], 0);
    assert_eq!(vm.bus.display.panel.iter().filter(|p| **p).count(), 14);
}

#[test]
fn drawing_twice_erases_and_reports_collision() {
    let mut vm = machine_with(&[0xA000, 0xD015, 0xD015], Variant::CHIP8);
    steps(&mut vm, 2);
    assert_eq!(vm.cpu.registers[0xF], 0);
    steps(&mut vm, 1);
    assert!(vm.bus.display.panel.iter().all(|p| !*p));
    assert_eq!(vm.cpu.registers[0xF], 1);
}

#[test]
fn draw_clips_at_edges_and_wraps_start() {
    // glyph 0 at x = 62, y = 30: only two columns and two rows are visible
    let mut vm = machine_with(&[0x603E, 0x611E, 0xA000, 0xD015], Variant::CHIP8);
    steps(&mut vm, 4);
    assert!(pixel(&vm, 62, 30));
    assert!(pixel(&vm, 63, 30));
    assert!(pixel(&vm, 62, 31));
    assert!(!pixel(&vm, 63, 31));
    assert!(!pixel(&vm, 0, 30));
    assert!(!pixel(&vm, 62, 0));
    assert_eq!(vm.bus.display.panel.iter().filter(|p| **p).count(), 3);
    // x = 66 starts at column 2
    let mut vm = machine_with(&[0x6042, 0x6100, 0xA000, 0xD011], Variant::CHIP8);
    steps(&mut vm, 4);
    assert!(pixel(&vm, 2, 0));
    assert!(pixel(&vm, 5, 0));
    assert!(!pixel(&vm, 6, 0));
}

#[test]
fn skip_on_key() {
    let mut keypad = Keypad::idle();
    keypad.down[0xA] = true;
    let mut vm = machine_with(&[0x601A, 0xE09E], Variant::CHIP8);
    step(&mut vm, &keypad);
    step(&mut vm, &keypad);
    assert_eq!(pc(&vm), 0x206);
    let mut vm = machine_with(&[0x601A, 0xE0A1], Variant::CHIP8);
    step(&mut vm, &keypad);
    step(&mut vm, &keypad);
    assert_eq!(pc(&vm), 0x204);
    let idle = Keypad::idle();
    let mut vm = machine_with(&[0x601A, 0xE0A1], Variant::CHIP8);
    step(&mut vm, &idle);
    step(&mut vm, &idle);
    assert_eq!(pc(&vm), 0x206);
}

#[test]
fn wait_for_key() {
    let mut vm = machine_with(&[0xF30A], Variant::CHIP8);
    steps(&mut vm, 1);
    assert_eq!(pc(&vm), 0x200);
    let mut keypad = Keypad::idle();
    keypad.pressed = Some(0xC);
    step(&mut vm, &keypad);
    assert_eq!(pc(&vm), 0x202);
    assert_eq!(vm.cpu.registers[3], 0xC);
}

#[test]
fn timers_through_registers() {
    let mut vm = machine_with(&[0x6042, 0xF015, 0xF018, 0xF107], Variant::CHIP8);
    steps(&mut vm, 4);
    assert_eq!(vm.delay_timer, 0x42);
    assert_eq!(vm.sound_timer, 0x42);
    assert_eq!(vm.cpu.registers[1], 0x42);
}

#[test]
fn index_arithmetic_and_font_address() {
    let mut vm = machine_with(&[0xA100, 0x6020, 0xF01E, 0x611A, 0xF129], Variant::CHIP8);
    steps(&mut vm, 3);
    assert_eq!(vm.cpu.index_register, 0x120);
    steps(&mut vm, 2);
    assert_eq!(vm.cpu.index_register, 50);
}

#[test]
fn decimal_digits() {
    let mut vm = machine_with(&[0x60FE, 0xA300, 0xF033], Variant::CHIP8);
    steps(&mut vm, 3);
    assert_eq!(&vm.bus.ram.memory[0x300..0x303], &[2, 5, 4]);
    assert_eq!(vm.cpu.index_register, 0x300);
}

#[test]
fn store_then_load_registers() {
    let mut vm = machine_with(
        &[0x6011, 0x6122, 0x6233, 0x6344, 0xA300, 0xF255, 0x6000, 0x6100, 0x6200, 0xA300, 0xF265],
        Variant::CHIP8,
    );
    steps(&mut vm, 6);
    assert_eq!(&vm.bus.ram.memory[0x300..0x304], &[0x11, 0x22, 0x33, 0]);
    assert_eq!(vm.cpu.index_register, 0x303);
    steps(&mut vm, 5);
    assert_eq!(&vm.cpu.registers[..4], &[0x11, 0x22, 0x33, 0x44]);
    assert_eq!(vm.cpu.index_register, 0x303);
}

#[test]
fn unknown_instruction_does_nothing() {
    let mut vm = machine_with(&[0x5011, 0xE000, 0xF0FF], Variant::CHIP8);
    steps(&mut vm, 3);
    assert_eq!(pc(&vm), 0x206);
    assert_eq!(vm.cpu.registers, [0; 16]);
}

#[test]
fn process_runs_ten_cycles() {
    let mut vm = machine_with(&[0x7001; 12], Variant::CHIP8);
    assert_eq!(vm.process(&Keypad::idle()), Ok(()));
    assert_eq!(vm.cpu.registers[0], 10);
    assert_eq!(pc(&vm), 0x200 + 20);
}

#[test]
fn process_stops_at_return_with_empty_stack() {
    let mut vm = machine_with(&[0x7001, 0x00EE], Variant::CHIP8);
    assert!(!ControlUnit::start().decode().is_some());
    assert_eq!(vm.process(&Keypad::idle()), Err(Fault { pc: 0x202 }));
    assert_eq!(vm.cpu.registers[0], 1);
    assert_eq!(pc(&vm), 0x202);
}

#[test]
fn process_stops_on_stack_overflow() {
    // every instruction calls the next one: the 17th call does not fit
    let program: Vec<u16> = (0..17u16).map(|i| 0x2202 + 2 * i).collect();
    let mut vm = machine_with(&program, Variant::CHIP8);
    assert_eq!(vm.process(&Keypad::idle()), Ok(()));
    assert_eq!(vm.process(&Keypad::idle()), Err(Fault { pc: 0x200 + 32 }));
    assert_eq!(vm.cpu.control_unit.stack_pointer, Some(15));
}

#[test]
fn process_stops_when_pc_leaves_memory() {
    let mut vm = machine_with(&[0x1FFF], Variant::CHIP8);
    assert_eq!(vm.process(&Keypad::idle()), Err(Fault { pc: 0xFFF }));
}

#[test]
fn can_cycle_checks_memory_bounds() {
    let mut vm = machine_with(&[0xAFFE, 0xF233], Variant::CHIP8);
    steps(&mut vm, 1);
    assert!(!vm.can_cycle(&Keypad::idle()));
    let mut vm = machine_with(&[0xAFFD, 0xF233], Variant::CHIP8);
    steps(&mut vm, 1);
    assert!(vm.can_cycle(&Keypad::idle()));
    let mut vm = machine_with(&[0xAFFF, 0xD001], Variant::CHIP8);
    steps(&mut vm, 1);
    assert!(vm.can_cycle(&Keypad::idle()));
    let mut vm = machine_with(&[0xAFFF, 0xD002], Variant::CHIP8);
    steps(&mut vm, 1);
    assert!(!vm.can_cycle(&Keypad::idle()));
}

#[test]
fn timers_count_down_and_beep_on_last_tick() {
    let mut vm = machine_with(&[0x0000], Variant::CHIP8);
    vm.delay_timer = 2;
    vm.sound_timer = 2;
    assert!(!vm.update_timers());
    assert_eq!(vm.delay_timer, 1);
    assert_eq!(vm.sound_timer, 1);
    assert!(vm.update_timers());
    assert_eq!(vm.delay_timer, 0);
    assert_eq!(vm.sound_timer, 0);
    assert!(!vm.update_timers());
    assert_eq!(vm.delay_timer, 0);
    assert_eq!(vm.sound_timer, 0);
}

#[test]
fn random_byte_is_low_byte_masked() {
    let cu = ControlUnit::start();
    let mut registers = [0u8; 16];
    cu.op_0xcxnn_with(3, 0x0F, 0x1234_5678, &mut registers);
    assert_eq!(registers[3], 0x08);
    cu.op_0xcxnn_with(3, 0xFF, 0x0000_01AB, &mut registers);
    assert_eq!(registers[3], 0xAB);
    assert_eq!(registers[0], 0);
}

#[test]
fn boot_keeps_sound_timer() {
    let cartridge = Cartridge::from_rom(&vec![0x12, 0x00]).unwrap();
    let vm = VirtualMachine::boot(cartridge, Variant::CHIP48, 7);
    assert_eq!(vm.sound_timer, 7);
    assert_eq!(vm.delay_timer, 0);
    assert_eq!(vm.variant, Variant::CHIP48);
}
