pub mod control_transfer;
pub mod environment;
pub mod immediate;
pub mod integer_reg_reg;
pub mod load_store;
