//! Locations of the files in which the navigator keeps its configuration:
//! the name of the active cluster and, per cluster, the last sandbox used.
//!
//! The environment is read by the caller; the functions here take what
//! `XDG_CONFIG_HOME` and `HOME` hold (or `None` where a variable is unset or
//! not valid Unicode) and compute the paths from those values alone.

pub mod path;
pub mod paths;
pub mod laws;
