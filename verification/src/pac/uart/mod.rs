pub mod ier;
pub mod lsr;
pub mod mcr;
pub mod msr;
