pub mod assembler;
