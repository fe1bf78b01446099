pub mod csr;
pub mod csr_types;
