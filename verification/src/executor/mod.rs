pub mod composer;
pub mod monitor;
pub mod optimization;

pub use optimization::{OptimizationExecutor, OptimizationStats};
