//! A small front-end that plans invocations of a package build tool, a
//! JavaScript runtime, and a bundler. The library decides everything:
//! which programs to launch, with which arguments, in which order, and
//! what to print as each step finishes. Launching the processes and
//! reading the filesystem are left to the thin binary around it.

pub mod command;
pub mod dispatch;
pub mod laws;
