//! Verified core of a Matrix chat client: the logout orchestration state
//! machine and the small pieces of interface logic that do not depend on a
//! rendering toolkit.

pub mod home;
pub mod login;
pub mod shared;
