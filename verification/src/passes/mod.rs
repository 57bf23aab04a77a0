pub mod base;
pub mod basic;
pub mod eliminations;
pub mod error;
pub mod fusion;
pub mod traits;
pub mod manager;
pub mod algorithms;

pub use error::PassError;
pub use manager::PassManager;
pub use traits::OptimizationPass;
