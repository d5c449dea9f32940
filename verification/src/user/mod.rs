pub mod syscall;
pub mod trap;
pub mod user_uart;
