pub mod muldiv_reg_reg;
