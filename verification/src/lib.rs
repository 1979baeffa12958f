//! Trap and interrupt dispatch core of a small x86-64 kernel.
//!
//! The crate models the safety-critical decisions of the boundary between
//! hardware events and kernel code: the trap vector table layout, the fault
//! policy (which exceptions are survivable), the mutable IRQ dispatch table,
//! the PIC mask protocol, the heap growth rule, and the keyboard-driven line
//! input layer. Hardware port reads and writes, the CPU-side table load and
//! the interrupt-context locking live at the edge, outside this library; they
//! hand plain values in and take plain values back.

pub mod heap;
pub mod idt;
pub mod input;
pub mod keyboard;
pub mod pic;
