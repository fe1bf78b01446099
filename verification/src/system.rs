pub mod kernel;
pub mod passthrough_kernel;
pub mod plic;
pub mod uart;
pub mod virtio;
pub mod display;
