pub mod amo;
