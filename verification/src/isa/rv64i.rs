pub mod environment;
pub mod integer_reg_reg;
