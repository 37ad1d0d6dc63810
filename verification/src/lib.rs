pub mod cpu;
pub mod gb;
pub mod mmu;
