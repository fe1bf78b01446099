pub mod csr;
pub mod rv32_zicsr;
pub mod rv32_zifencei;
pub mod rv32i;
pub mod rv32m;
pub mod rv64_privileged;
pub mod rv64_zicsr;
pub mod rv64a;
pub mod rv64i;
pub mod rv64m;
pub mod traps;
pub mod semantics;
pub mod rv64fd;
pub mod laws;
