//! Verified building blocks of a Hyper-V management tool set: the checks on
//! each tool's input, the PowerShell script each tool runs, and the decoding
//! of the JSON that the script prints.
pub mod command;
pub mod error;
pub mod json;
pub mod text;
pub mod tools;
