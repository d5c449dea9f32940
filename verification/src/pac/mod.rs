pub mod generic;
pub mod uart;
