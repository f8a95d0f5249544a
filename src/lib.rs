//! Configuration of the cloud-storage upload plugin, assembled from a
//! key–value view of the process environment.
pub mod conf;
pub mod env;
pub mod laws;
pub mod parse;
pub mod tags;
