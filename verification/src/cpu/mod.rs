pub mod asm_text;
pub mod calls;
pub mod compare;
pub mod cpu;
pub mod cpu_bus;
pub mod disassembly;
pub mod encoding;
pub mod instructions;
pub mod operand;
pub mod status;
pub mod subtraction;
pub mod text;
