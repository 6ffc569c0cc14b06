pub mod armv8_a;
pub mod defs;
pub mod gic;
