pub mod privileged;
