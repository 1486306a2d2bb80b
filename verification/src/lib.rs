//! Verified building blocks of a RISC-V hardware fuzzing tool chain.
pub mod digits;
pub mod encoding;
pub mod generation;
pub mod interval_tree;
pub mod kiwi;
pub mod program_memory;
pub mod risico;
pub mod rsoftfloat;
pub mod segment_tree;
