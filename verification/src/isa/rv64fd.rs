pub mod conversion;
pub mod load_store;
pub mod mov;
pub mod muldiv;
