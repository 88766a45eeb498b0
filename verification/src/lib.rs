//! Bare-metal console logic for an AArch64 kernel image.

pub mod backend;
pub mod boot;
pub mod shell;
pub mod uart;
