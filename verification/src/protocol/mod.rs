pub mod constants;
pub mod response;
pub mod command;
