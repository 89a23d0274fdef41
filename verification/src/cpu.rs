pub mod cpu;
pub mod decode;
pub mod deref;
pub mod exec;
pub mod isa;
pub mod reg;
