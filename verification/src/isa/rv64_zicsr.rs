pub mod zicsr;
