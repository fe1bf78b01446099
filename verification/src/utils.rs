pub mod binary_utils;
pub mod data;
