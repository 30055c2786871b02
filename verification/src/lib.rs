//! Configuration options of a port scanner: reading the port range flag,
//! merging a configuration file into the command-line options, sizing the
//! socket batches and grouping the open ports of a scan by host.
pub mod range;
pub mod input;
pub mod top_ports;
pub mod batch;
pub mod report;
