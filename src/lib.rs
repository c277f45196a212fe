pub mod control;
pub mod convergence;
pub mod movable;
pub mod scan;

pub use control::{Action, IterationControl, Phase, DEFAULT_MAX_ITERATIONS};
pub use convergence::ConvergenceTally;
pub use movable::MovableScan;
pub use scan::{check_scan_sizes, IcpError};
