//! A small job scheduler: a store of jobs, a FIFO queue of runnable jobs and a
//! single sequential worker, with every job moving through a fixed lifecycle.

pub mod job;
