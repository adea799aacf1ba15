//! Keyboard-driven virtual-desktop switching: the hook's state machine, the
//! switch orchestration protocol, the cleanup policy and the window filter.
pub mod backend;
pub mod keys;
pub mod model;
pub mod occupancy;
pub mod orchestrator;
pub mod switcher;
