//! Configuration logic of the Fantasia web server: reading ports, merging the
//! configuration file with command line options and Postgres environment
//! variables, building the Postgres connection URL, and the Postgres pool
//! options with their defaults.

pub mod port;
pub mod pool_options;
pub mod args;
pub mod config;
