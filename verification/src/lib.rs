//! Status detection and remediation rules for three Windows features:
//! Explorer's recent-files tracking, the SysMain service with its Prefetch
//! folder, and System Restore.
//!
//! Every function here works on plain values. The caller reads the registry,
//! the service manager and the file system, hands the readings in, and carries
//! out the actions that come back.

pub mod app_state;
pub mod domain;
pub mod error;
pub mod folders;
pub mod providers;
pub mod registry;
pub mod scanner;
pub mod seq_facts;
pub mod service;
pub mod service_control;
pub mod services;
pub mod status;
pub mod text;
pub mod utils;
