pub mod bus;
pub mod cartridge;
pub mod display;
