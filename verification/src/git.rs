pub mod remote;
pub mod status;
