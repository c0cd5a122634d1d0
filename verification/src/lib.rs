//! Hardware-agnostic dosing engine.
//!
//! The control loop works in integer centigrams (cg, 1 cg = 0.01 g). Every
//! decision of a dosing step -- filtering, safety watchdogs, speed selection,
//! predictive early stop and settle detection -- is a verified transition of
//! [`control::DoserCore`]; the caller performs the motor and scale I/O that a
//! transition asks for and feeds back what the hardware reported.

pub mod fixed_point;
pub mod util;
pub mod filter;
pub mod error;
pub mod control;
pub mod control_laws;
pub mod builder;
pub mod runner;
pub mod status;
pub mod config;
pub mod logger;
pub mod mocks;
pub mod cli;
pub mod report;
pub mod settings;
pub mod strategy;
pub mod calibration;
pub mod monitor;
pub mod monitor_state;
pub mod selfcheck;
