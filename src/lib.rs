//! Batch conversion of images to and from JPEG XL by way of the external
//! `cjxl` and `djxl` tools: choosing the files, placing the results, building the
//! tools' command lines, and running a job item by item with cancellation and
//! progress reports.

pub mod batch;
pub mod engine;
pub mod invoke;
pub mod laws;
pub mod paths;
pub mod select;
pub mod session;
pub mod text;
pub mod types;
