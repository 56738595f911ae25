use chip8::cartridge::{Cartridge, LoadError};

#[test]
fn check_path_needs_a_selection() {
    assert_eq!(Cartridge::check_path(None), Err(LoadError::NoFileSelected));
}

#[test]
fn check_path_needs_ch8_extension() {
    assert_eq!(Cartridge::check_path(Some(Some("ch8"))), Ok(()));
    assert_eq!(Cartridge::check_path(Some(Some("txt"))), Err(LoadError::WrongExtension));
    assert_eq!(Cartridge::check_path(Some(Some("CH8"))), Err(LoadError::WrongExtension));
    assert_eq!(Cartridge::check_path(Some(Some("ch88"))), Err(LoadError::WrongExtension));
    assert_eq!(Cartridge::check_path(Some(None)), Err(LoadError::WrongExtension));
}

#[test]
fn from_rom_checks_size() {
    assert_eq!(Cartridge::from_rom(&vec![]).err(), Some(LoadError::WrongSize(0)));
    assert_eq!(Cartridge::from_rom(&vec![1]).err(), Some(LoadError::WrongSize(1)));
    assert_eq!(Cartridge::from_rom(&vec![0; 3585]).err(), Some(LoadError::WrongSize(3585)));
    let small = Cartridge::from_rom(&vec![1, 2]).unwrap();
    assert_eq!(&small.buffer[..3], &[1, 2, 0]);
    let full = Cartridge::from_rom(&vec![7; 3584]).unwrap();
    assert!(full.buffer.iter().all(|b| *b == 7));
}
