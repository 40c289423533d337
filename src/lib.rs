//! Start-up lifecycle and hardware-access guard for a robot control program.
//!
//! The hardware abstraction layer (HAL) is reached only through raw readings
//! and status words; this library decides what they mean.
pub mod hal;
pub mod guard;
pub mod time;
pub mod robot_base;
pub mod lifecycle;
