//! A CHIP-8 virtual machine: memory bank, instruction decoder and interpreter,
//! with the behaviour of every instruction stated as a contract.

pub mod consts;
pub mod input;
pub mod instruction;
pub mod laws;
pub mod machine;
pub mod output;
pub mod processor;
pub mod ram;
pub mod random;
pub mod rom;
pub mod utils;
