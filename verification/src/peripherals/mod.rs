//! The peripherals of each low-power core, handed out once.

pub mod lp_core_c6;
pub mod ulp_core_s3;
