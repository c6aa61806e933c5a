pub mod constants;
pub mod cpu;
pub mod input;
mod instructions;
pub mod laws;
pub mod machine;

pub use cpu::CPU;
pub use input::Input;
pub use machine::CpuError;
