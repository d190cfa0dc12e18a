//! Launch logic for a desktop shell that starts a backend sidecar, waits
//! for it to report healthy, and then swaps the splash view for the main view.
pub mod config;
pub mod controller;
pub mod launch;
pub mod probe;
pub mod status;
