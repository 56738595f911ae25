use chip8::bus::Bus;
use chip8::cartridge::Cartridge;
use chip8::display::Display;
use chip8::ram::RAM;

#[test]
fn ram_starts_zeroed() {
    let ram = RAM::start();
    assert!(ram.memory.iter().all(|b| *b == 0));
    assert!(ram.stack.iter().all(|a| *a == 0));
}

#[test]
fn bus_write_then_read() {
    let mut bus = Bus { ram: RAM::start(), display: Display::on() };
    bus.write(0x300, 0xAB);
    assert_eq!(bus.read(0x300), 0xAB);
    assert_eq!(bus.read(0x301), 0);
}

#[test]
fn to_stack_pads_with_zeros() {
    let rom = vec![1u8, 2, 3];
    let buffer = Cartridge::to_stack(&rom);
    assert_eq!(&buffer[..3], &[1, 2, 3]);
    assert!(buffer[3..].iter().all(|b| *b == 0));
}
