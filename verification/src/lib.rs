pub mod discovery;
pub mod outcome;
pub mod progress;
pub mod report;
pub mod scheduler;
