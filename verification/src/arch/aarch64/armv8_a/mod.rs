pub mod pagetable;
pub mod vm;
