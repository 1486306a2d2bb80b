//! The instruction set description format: bit patterns, the description as read, and its
//! checked form.
pub mod args_struct;
pub mod bits;
pub mod bytemask;
pub mod codegen;
pub mod kiwi_file;
pub mod new_raw;
pub mod raw;
pub mod result;
pub mod to_result;
