pub mod emul;
pub mod mmu;
pub mod pagetable;
pub mod types;
pub mod vm;
