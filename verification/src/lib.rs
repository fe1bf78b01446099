pub mod elf;
pub mod cpu;
pub mod error;
pub mod isa;
pub mod system;
pub mod types;
pub mod utils;
