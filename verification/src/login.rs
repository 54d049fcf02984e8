//! Signing in and out of a session.

pub mod logout_actions;
pub mod logout_errors;
pub mod logout_laws;
pub mod logout_model;
pub mod logout_run;
pub mod logout_state;
pub mod logout_state_machine;
