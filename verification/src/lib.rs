#![allow(non_camel_case_types)]

pub mod config;
pub mod console;
pub mod console_blog;
pub mod fs;
pub mod invariants;
pub mod kernel;
pub mod logger;
pub mod mm;
pub mod pac;
pub mod plic;
pub mod syscall;
pub mod task;
pub mod timer;
pub mod trap;
pub mod uart;
pub mod user;
