//! Device-mode driver for the Synopsys DesignWare Cores USB 2.0 Hi-Speed
//! On-The-Go controller, as a verified state machine.
//!
//! The driver never touches hardware itself. Each entry point takes the words
//! that were read from the controller and appends to a list the [`action::Action`]s
//! to be carried out, in order. The contracts state that list exactly.
pub mod action;
pub mod constants;
pub mod descriptor;
pub mod device;
pub mod device_laws;
pub mod driver;
pub mod endpoint_laws;
pub mod interrupt;
pub mod laws;
pub mod model;
pub mod request;
pub mod request_laws;
pub mod run_laws;
pub mod setup;
pub mod stage_laws;
pub mod startup;
pub mod startup_laws;
pub mod table_case;
