pub mod cpu_core;
pub mod memory;
pub mod memory_access;
