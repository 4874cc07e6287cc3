//! Library behind a terminal dashboard for a batch-job scheduler: the job
//! records and their parsing, the list buffers with their selection
//! discipline, the application state machine, and the pure computations the
//! view layer draws from.

pub mod app;
pub mod slurm;
pub mod ui;
