pub mod registers;
pub mod display;
pub mod cpu;
pub mod instructions;
pub mod opcodes;
