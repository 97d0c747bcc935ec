//! Runtime core of the wired Virtual Desktop host.
pub mod admin;
pub mod daemon;
pub mod doctor;
pub mod monitor;
pub mod paths;
pub mod reconcile;
pub mod recovery;
pub mod relay;
pub mod runtime;
pub mod state;
pub mod status;
pub mod supervisor;
pub mod text;
pub mod time;
pub mod track;
pub mod transport;
pub mod vd_service;
pub mod watchdog;
