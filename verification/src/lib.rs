//! Verified core of bargo: artifact layout, command construction, output
//! formatting and the decisions that drive the Noir proving workflows.

pub mod text;
pub mod paths;
pub mod errors;
pub mod colors;
pub mod output;
pub mod timing;
pub mod summary;
pub mod manifest;
pub mod rebuild;
pub mod plan;
pub mod cli;
pub mod workflow;
pub mod proving;
pub mod evm;
pub mod scan;
pub mod tools;
pub mod cairo;
pub mod laws;
