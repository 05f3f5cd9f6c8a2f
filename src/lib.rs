//! An interpreter for a small 8-bit virtual machine: sixteen byte registers,
//! 4 KiB of memory, a sixteen-entry call stack, a 64x32 monochrome display,
//! a sixteen-key keypad and a 60 Hz delay timer.
pub mod decode;
pub mod display;
pub mod execute;
pub mod keypad;
pub mod laws;
pub mod machine;
pub mod timer;
