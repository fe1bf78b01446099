pub mod zifencei;
