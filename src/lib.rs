pub mod actor;
pub mod counter;
pub mod cycling;
pub mod echo;
pub mod outcome;
pub mod receiver;
