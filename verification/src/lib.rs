pub mod bus;
pub mod cartridge;
pub mod display;
pub mod ram;
pub mod random;
pub mod keypad;
pub mod machine;
pub mod variant;
pub mod cpu;
pub mod fontset;
pub mod vm;
pub mod menu;
pub mod laws;
pub mod instruction_laws;
