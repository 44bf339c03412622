pub mod assembler;
pub mod constants;
pub mod cpu;
pub mod memory;
pub mod text;
