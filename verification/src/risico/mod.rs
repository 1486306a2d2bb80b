//! The emulator's machine model: value representations, trap settings and control and status
//! registers.
pub mod cache;
pub mod cli;
pub mod csr;
pub mod ordered_sections;
pub mod process_protocol;
pub mod device_config;
pub mod elf;
pub mod execute;
pub mod listing;
pub mod memory;
pub mod repr;
pub mod syscall;
pub mod trap;
pub mod util;
