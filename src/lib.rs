//! Remote provisioning and telemetry reconciliation for a single mining host.
//!
//! The library holds the decisions of the system: how install progress is read
//! from marker files, when an install may proceed, how remote snapshots are folded
//! into the local datastore, and how SSH command results and connections are
//! handled. The I/O around these decisions lives with the caller.

pub mod activities;
pub mod checksum;
pub mod cohort_accounts;
pub mod cohort_frames;
pub mod cohorts;
pub mod config;
pub mod db;
pub mod frames;
pub mod install_status;
pub mod installer;
pub mod poll;
pub mod remote_commands;
pub mod ssh;
pub mod stats;
pub mod structs;
pub mod syncer;
pub mod table;
pub mod text;
pub mod vm;
