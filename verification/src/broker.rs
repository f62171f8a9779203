//! The broker: who a request comes from, what it may do, what the vault
//! session is asked for, and what is answered.

pub mod admission_laws;
pub mod daemon;
pub mod dispatch;
pub mod gate;
pub mod laws;
pub mod ops;
pub mod params;
pub mod request_laws;
pub mod rows;
pub mod run;
pub mod run_laws;
