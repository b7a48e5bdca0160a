//! Grid placement of windows.

pub mod adapter;
pub mod apply;
pub mod attempt_laws;
pub mod common;
pub mod engine;
pub mod engine_laws;
pub mod fallback;
pub mod grid;
pub mod grid_laws;
pub mod metrics;
pub mod normalize;
pub mod op_laws;
pub mod ops;
pub mod run;
pub mod script_laws;
pub mod stage_laws;
